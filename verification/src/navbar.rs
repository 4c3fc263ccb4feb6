//! The navigation bar itself: the configuration, and the composition of the
//! parts into one tree, chosen by the state.

use crate::button::{
    button_markup, lemma_button_styles, ButtonProps, ButtonPropsView, NavbarButton,
};
use crate::logo::{lemma_logo_styles, logo_markup, LogoProps, LogoPropsView, NavbarLogo};
use crate::markup::{
    lemma_attribute_added, lemma_attribute_keeps_style, lemma_style_then_class, tag, text,
    DomEvent, Handler, Listener, Markup, Node,
};
use crate::mega_menu::{
    lemma_mega_menu_layout, mega_menu_item_views, mega_menu_markup, MegaMenu, MegaMenuItem,
    MegaMenuItemView, MegaMenuProps, MegaMenuPropsView,
};
use crate::menu::{
    lemma_menu_layout, menu_markup, menu_views, Menu, MenuProps, MenuPropsView, MenuView,
    NavbarMenu,
};
use crate::mobile_menu::{
    lemma_mobile_menu_styles, mobile_dropdown_markup, mobile_menu_markup, mobile_search_markup,
    MobileMenu, MobileMenuProps, MobileMenuPropsView,
};
use crate::profile::{
    dropdown_item_views, dropdown_markup, lemma_profile_menu_styles, profile_menu_markup,
    DropdownItem, DropdownItemView, ProfileMenu, ProfileMenuProps, ProfileMenuPropsView,
};
use crate::state::{EventView, NavbarState, StateView};
use crate::toggle::{
    lemma_toggle_styles, toggle_markup, NavbarToggle, ToggleProps, TogglePropsView,
};
use vstd::prelude::*;

verus! {

/// The configuration of a navigation bar: what it holds, which parts it
/// shows, and the style and class of each element that it lets the
/// application style.
#[derive(Clone, Debug, PartialEq)]
pub struct NavbarProps {
    /// The entries of the menu.
    pub menus: Vec<Menu>,
    /// The entries of the profile dropdown.
    pub dropdown_items: Vec<DropdownItem>,
    /// The entries of the mega menu.
    pub mega_menu_items: Vec<MegaMenuItem>,
    /// Whether there is a search input.
    pub show_search: bool,
    /// Whether there is a mega menu.
    pub show_mega_menu: bool,
    /// Whether there is a profile menu.
    pub show_profile_menu: bool,
    /// Text of the call-to-action button; with an empty text there is no button.
    pub button_text: &'static str,
    /// Where the call-to-action button leads.
    pub button_href: &'static str,
    /// Path to the logo image.
    pub logo_src: &'static str,
    /// Alternative text for the logo image.
    pub logo_alt: &'static str,
    /// Where a click on the logo leads.
    pub logo_link: &'static str,
    /// Target of the link of the call-to-action button.
    pub button_target: &'static str,
    /// Placeholder of the search input.
    pub search_placeholder: &'static str,
    /// Text whose first character stands in for a missing avatar image.
    pub profile_button_text: &'static str,
    /// Style of the navigation bar.
    pub navbar_style: &'static str,
    /// Style of the box that holds the desktop layout.
    pub inner_style: &'static str,
    /// Style of the box that limits the width of the bar.
    pub container_style: &'static str,
    /// Style of the logo image.
    pub logo_style: &'static str,
    /// Style of the hamburger toggle.
    pub menu_toggle_style: &'static str,
    /// Style of each bar of the hamburger toggle.
    pub line_style: &'static str,
    /// Style of the list of the menu.
    pub nav_style: &'static str,
    /// Style of the link of each menu entry.
    pub menu_item_style: &'static str,
    /// Style of the dropdown list.
    pub dropdown_style: &'static str,
    /// Style of each entry of the dropdown.
    pub dropdown_item_style: &'static str,
    /// Style of the search input.
    pub search_input_style: &'static str,
    /// Style of the box of the call-to-action button.
    pub button_style: &'static str,
    /// Style of the link of the call-to-action button.
    pub button_link_style: &'static str,
    /// Style of the mega menu panel.
    pub mega_menu_style: &'static str,
    /// Style of the card inside the mega menu panel.
    pub mega_menu_card_style: &'static str,
    /// Text of the button that opens the mega menu.
    pub more_button_text: &'static str,
    /// Style of the button that opens the mega menu.
    pub more_button_style: &'static str,
    /// What the application's search-text handle holds, where the
    /// application owns the search text.
    pub search_state: Option<String>,
    /// URL of the avatar image of the profile menu.
    pub profile_image_url: Option<String>,
    /// Class of the navigation bar.
    pub navbar_class: &'static str,
    /// Class of the box that holds the desktop layout.
    pub inner_class: &'static str,
    /// Class of the box that limits the width of the bar.
    pub container_class: &'static str,
    /// Class of the logo image.
    pub logo_class: &'static str,
    /// Class of the hamburger toggle.
    pub menu_toggle_class: &'static str,
    /// Class of each bar of the hamburger toggle.
    pub line_class: &'static str,
    /// Class of the list of the menu.
    pub nav_class: &'static str,
    /// Class of the link of each menu entry.
    pub menu_item_class: &'static str,
    /// Class of the dropdown list.
    pub dropdown_class: &'static str,
    /// Class of each entry of the dropdown.
    pub dropdown_item_class: &'static str,
    /// Class of the search input.
    pub search_input_class: &'static str,
    /// Class of the box of the call-to-action button.
    pub button_class: &'static str,
    /// Class of the link of the call-to-action button.
    pub button_link_class: &'static str,
    /// Class of the mega menu panel.
    pub mega_menu_class: &'static str,
    /// Class of the card inside the mega menu panel.
    pub mega_menu_card_class: &'static str,
    /// Class of the button that opens the mega menu.
    pub more_button_class: &'static str,
}

/// The value of [`NavbarProps`].
pub struct NavbarPropsView {
    pub menus: Seq<MenuView>,
    pub dropdown_items: Seq<DropdownItemView>,
    pub mega_menu_items: Seq<MegaMenuItemView>,
    pub show_search: bool,
    pub show_mega_menu: bool,
    pub show_profile_menu: bool,
    pub button_text: Seq<char>,
    pub button_href: Seq<char>,
    pub logo_src: Seq<char>,
    pub logo_alt: Seq<char>,
    pub logo_link: Seq<char>,
    pub button_target: Seq<char>,
    pub search_placeholder: Seq<char>,
    pub profile_button_text: Seq<char>,
    pub navbar_style: Seq<char>,
    pub inner_style: Seq<char>,
    pub container_style: Seq<char>,
    pub logo_style: Seq<char>,
    pub menu_toggle_style: Seq<char>,
    pub line_style: Seq<char>,
    pub nav_style: Seq<char>,
    pub menu_item_style: Seq<char>,
    pub dropdown_style: Seq<char>,
    pub dropdown_item_style: Seq<char>,
    pub search_input_style: Seq<char>,
    pub button_style: Seq<char>,
    pub button_link_style: Seq<char>,
    pub mega_menu_style: Seq<char>,
    pub mega_menu_card_style: Seq<char>,
    pub more_button_text: Seq<char>,
    pub more_button_style: Seq<char>,
    pub search_state: Option<Seq<char>>,
    pub profile_image_url: Option<Seq<char>>,
    pub navbar_class: Seq<char>,
    pub inner_class: Seq<char>,
    pub container_class: Seq<char>,
    pub logo_class: Seq<char>,
    pub menu_toggle_class: Seq<char>,
    pub line_class: Seq<char>,
    pub nav_class: Seq<char>,
    pub menu_item_class: Seq<char>,
    pub dropdown_class: Seq<char>,
    pub dropdown_item_class: Seq<char>,
    pub search_input_class: Seq<char>,
    pub button_class: Seq<char>,
    pub button_link_class: Seq<char>,
    pub mega_menu_class: Seq<char>,
    pub mega_menu_card_class: Seq<char>,
    pub more_button_class: Seq<char>,
}

/// The value of a text that may be missing.
pub open spec fn text_view(text: Option<String>) -> Option<Seq<char>> {
    match text {
        Some(text) => Some(text@),
        None => None,
    }
}

impl View for NavbarProps {
    type V = NavbarPropsView;

    open spec fn view(&self) -> NavbarPropsView {
        NavbarPropsView {
            menus: menu_views(self.menus@),
            dropdown_items: dropdown_item_views(self.dropdown_items@),
            mega_menu_items: mega_menu_item_views(self.mega_menu_items@),
            show_search: self.show_search,
            show_mega_menu: self.show_mega_menu,
            show_profile_menu: self.show_profile_menu,
            button_text: self.button_text@,
            button_href: self.button_href@,
            logo_src: self.logo_src@,
            logo_alt: self.logo_alt@,
            logo_link: self.logo_link@,
            button_target: self.button_target@,
            search_placeholder: self.search_placeholder@,
            profile_button_text: self.profile_button_text@,
            navbar_style: self.navbar_style@,
            inner_style: self.inner_style@,
            container_style: self.container_style@,
            logo_style: self.logo_style@,
            menu_toggle_style: self.menu_toggle_style@,
            line_style: self.line_style@,
            nav_style: self.nav_style@,
            menu_item_style: self.menu_item_style@,
            dropdown_style: self.dropdown_style@,
            dropdown_item_style: self.dropdown_item_style@,
            search_input_style: self.search_input_style@,
            button_style: self.button_style@,
            button_link_style: self.button_link_style@,
            mega_menu_style: self.mega_menu_style@,
            mega_menu_card_style: self.mega_menu_card_style@,
            more_button_text: self.more_button_text@,
            more_button_style: self.more_button_style@,
            search_state: text_view(self.search_state),
            profile_image_url: text_view(self.profile_image_url),
            navbar_class: self.navbar_class@,
            inner_class: self.inner_class@,
            container_class: self.container_class@,
            logo_class: self.logo_class@,
            menu_toggle_class: self.menu_toggle_class@,
            line_class: self.line_class@,
            nav_class: self.nav_class@,
            menu_item_class: self.menu_item_class@,
            dropdown_class: self.dropdown_class@,
            dropdown_item_class: self.dropdown_item_class@,
            search_input_class: self.search_input_class@,
            button_class: self.button_class@,
            button_link_class: self.button_link_class@,
            mega_menu_class: self.mega_menu_class@,
            mega_menu_card_class: self.mega_menu_card_class@,
            more_button_class: self.more_button_class@,
        }
    }
}

/// The style of the two boxes that anchor a floating panel: the one around
/// the mega menu and the one around the mobile layout.
pub open spec fn anchor_style() -> Seq<char> {
    "position: relative; display: inline-block;"@
}

impl NavbarPropsView {
    /// The configuration with every property at its default: no entries, no
    /// search input, mega menu or profile menu, and the application does not
    /// own the search text.
    pub open spec fn defaults() -> NavbarPropsView {
        NavbarPropsView {
            menus: Seq::empty(),
            dropdown_items: Seq::empty(),
            mega_menu_items: Seq::empty(),
            show_search: false,
            show_mega_menu: false,
            show_profile_menu: false,
            button_text: "Sign up"@,
            button_href: "#"@,
            logo_src: "/assets/logo.webp"@,
            logo_alt: "logo"@,
            logo_link: "/"@,
            button_target: "_blank"@,
            search_placeholder: "Search..."@,
            profile_button_text: "Profile"@,
            navbar_style: "display: flex; align-items: center; justify-content: space-between; padding: 1rem; background-color: #fff;"@,
            inner_style: "display: flex; align-items: center; width: 100%;"@,
            container_style: "max-width: 1200px; margin: auto; display: flex; width: 100%; align-items: center; justify-content: space-between;"@,
            logo_style: "height: 40px;"@,
            menu_toggle_style: "display: flex; flex-direction: column; gap: 5px; cursor: pointer;"@,
            line_style: "width: 25px; height: 2px; background: black;"@,
            nav_style: "display: flex; gap: 1rem; list-style: none; margin: 0; padding: 0;"@,
            menu_item_style: "text-decoration: none; color: black; padding: 0.5rem 1rem; transition: background 0.3s ease;"@,
            dropdown_style: "position: absolute; top: 100%; left: 0; background: white; box-shadow: 0 4px 8px rgba(0,0,0,0.1); z-index: 1000;"@,
            dropdown_item_style: "padding: 0.5rem 1rem; white-space: nowrap;"@,
            search_input_style: "padding: 0.5rem; font-size: 1rem; border: 1px solid #ccc;"@,
            button_style: "margin-left: 1rem; white-space: nowrap;"@,
            button_link_style: "text-decoration: none; color: white; background: #007bff; padding: 0.5rem 1rem; border-radius: 4px;"@,
            mega_menu_style: "position: absolute; top: 100%; left: 0; background: white; padding: 0; margin-top: 0.5rem; z-index: 1000;"@,
            mega_menu_card_style: "background: white; display: flex; gap: 2rem; padding: 1rem; box-shadow: 0 2px 8px rgba(0,0,0,0.1);"@,
            more_button_text: "More"@,
            more_button_style: "background: transparent; border: none; cursor: pointer; font-weight: bold;"@,
            search_state: None,
            profile_image_url: None,
            navbar_class: ""@,
            inner_class: ""@,
            container_class: ""@,
            logo_class: ""@,
            menu_toggle_class: ""@,
            line_class: ""@,
            nav_class: ""@,
            menu_item_class: ""@,
            dropdown_class: ""@,
            dropdown_item_class: ""@,
            search_input_class: ""@,
            button_class: ""@,
            button_link_class: ""@,
            mega_menu_class: ""@,
            mega_menu_card_class: ""@,
            more_button_class: ""@,
        }
    }

    /// The properties with which the bar renders its logo. The link around
    /// the image keeps the logo's own default style and has no class.
    pub open spec fn logo_props(self) -> LogoPropsView {
        LogoPropsView {
            logo_src: self.logo_src,
            logo_alt: self.logo_alt,
            logo_link: self.logo_link,
            logo_style: self.logo_style,
            logo_class: self.logo_class,
            ..LogoPropsView::defaults()
        }
    }

    /// The properties with which the bar renders its menu in the desktop
    /// layout.
    pub open spec fn menu_props(self) -> MenuPropsView {
        MenuPropsView {
            menus: self.menus,
            menu_item_style: self.menu_item_style,
            list_style: self.nav_style,
            menu_item_class: self.menu_item_class,
            list_class: self.nav_class,
        }
    }

    /// The properties with which the bar renders its mega menu. The links of
    /// the entries keep the mega menu's own default style and have no class.
    pub open spec fn mega_menu_props(self) -> MegaMenuPropsView {
        MegaMenuPropsView {
            wrapper_style: self.mega_menu_style,
            wrapper_class: self.mega_menu_class,
            card_style: self.mega_menu_card_style,
            card_class: self.mega_menu_card_class,
            ..MegaMenuPropsView::with_defaults(self.mega_menu_items)
        }
    }

    /// The properties with which the bar renders its call-to-action button.
    pub open spec fn button_props(self) -> ButtonPropsView {
        ButtonPropsView {
            href: self.button_href,
            text: self.button_text,
            button_style: self.button_style,
            link_style: self.button_link_style,
            target: self.button_target,
            button_class: self.button_class,
            link_class: self.button_link_class,
        }
    }

    /// The properties with which the bar renders its profile menu: open as
    /// the state says, and reporting clicks as dropdown toggles. Wrapper,
    /// button and avatar keep the profile menu's own default styles and have
    /// no class.
    pub open spec fn profile_menu_props(self, state: StateView) -> ProfileMenuPropsView {
        ProfileMenuPropsView {
            profile_image_url: self.profile_image_url,
            dropdown_style: self.dropdown_style,
            dropdown_class: self.dropdown_class,
            item_style: self.dropdown_item_style,
            item_class: self.dropdown_item_class,
            profile_text: self.profile_button_text,
            ..ProfileMenuPropsView::with_defaults(
                self.dropdown_items,
                state.is_dropdown_open,
                Handler::ToggleDropdown,
            )
        }
    }

    /// The properties with which the bar renders its hamburger toggle, which
    /// reports clicks as toggles of the mobile menu.
    pub open spec fn toggle_props(self) -> TogglePropsView {
        TogglePropsView {
            onclick: Handler::ToggleMobileMenu,
            toggle_style: self.menu_toggle_style,
            line_style: self.line_style,
            toggle_class: self.menu_toggle_class,
            line_class: self.line_class,
        }
    }

    /// The properties with which the bar renders its mobile menu. The panel
    /// keeps the mobile menu's own default style and has no class.
    pub open spec fn mobile_menu_props(self) -> MobileMenuPropsView {
        MobileMenuPropsView {
            menu_item_style: self.menu_item_style,
            menu_item_class: self.menu_item_class,
            dropdown_style: self.dropdown_style,
            dropdown_class: self.dropdown_class,
            dropdown_item_style: self.dropdown_item_style,
            dropdown_item_class: self.dropdown_item_class,
            show_profile_menu: self.show_profile_menu,
            show_search: self.show_search,
            search_input_style: self.search_input_style,
            search_input_class: self.search_input_class,
            search_placeholder: self.search_placeholder,
            ..MobileMenuPropsView::with_defaults(self.menus, self.dropdown_items)
        }
    }
}

/// The mega menu panel: a box that closes the mega menu when the pointer
/// leaves it, around the mega menu.
pub open spec fn mega_menu_panel_markup(props: NavbarPropsView) -> Markup {
    tag("div").listening(DomEvent::MouseLeave, Handler::CloseMegaMenu).child(
        mega_menu_markup(props.mega_menu_props()),
    )
}

/// The trigger of the mega menu: a box that opens the mega menu when the
/// pointer enters it, around the button and, while the mega menu is open,
/// the panel.
pub open spec fn mega_menu_trigger_markup(props: NavbarPropsView, state: StateView) -> Markup {
    tag("div").listening(DomEvent::MouseEnter, Handler::OpenMegaMenu).attribute(
        "style",
        anchor_style(),
    ).child(
        tag("button").attribute("style", props.more_button_style).attribute(
            "class",
            props.more_button_class,
        ).child(text(props.more_button_text)),
    ).optional_child(
        if state.is_mega_menu_open {
            Some(mega_menu_panel_markup(props))
        } else {
            None
        },
    )
}

/// The search input of the desktop layout. Its value is the one search text,
/// and it reports each input so that the text follows.
pub open spec fn search_input_markup(props: NavbarPropsView, state: StateView) -> Markup {
    tag("input").attribute("type", "text"@).attribute(
        "placeholder",
        props.search_placeholder,
    ).attribute("style", props.search_input_style).attribute(
        "class",
        props.search_input_class,
    ).attribute("value", state.search_text(props.search_state)).listening(
        DomEvent::Input,
        Handler::UpdateSearch,
    )
}

/// The box of the desktop layout. In the mobile layout it is empty. Else it
/// holds the menu, then the trigger of the mega menu if `show_mega_menu`,
/// then the search input if `show_search`, then the call-to-action button
/// unless its text is empty, then the profile menu if `show_profile_menu`.
pub open spec fn desktop_markup(props: NavbarPropsView, state: StateView) -> Markup {
    let inner = tag("div").attribute("style", props.inner_style).attribute(
        "class",
        props.inner_class,
    );
    if state.is_mobile {
        inner
    } else {
        inner.child(menu_markup(props.menu_props())).optional_child(
            if props.show_mega_menu {
                Some(mega_menu_trigger_markup(props, state))
            } else {
                None
            },
        ).optional_child(
            if props.show_search {
                Some(search_input_markup(props, state))
            } else {
                None
            },
        ).optional_child(
            if props.button_text.len() > 0 {
                Some(button_markup(props.button_props()))
            } else {
                None
            },
        ).optional_child(
            if props.show_profile_menu {
                Some(profile_menu_markup(props.profile_menu_props(state)))
            } else {
                None
            },
        )
    }
}

/// The box of the mobile layout. In the desktop layout it is empty. Else it
/// holds the hamburger toggle and, while the mobile menu is open, the mobile
/// menu.
pub open spec fn mobile_markup(props: NavbarPropsView, state: StateView) -> Markup {
    tag("div").attribute("style", anchor_style()).optional_child(
        if state.is_mobile {
            Some(toggle_markup(props.toggle_props()))
        } else {
            None
        },
    ).optional_child(
        if state.is_mobile && state.is_mobile_menu_open {
            Some(mobile_menu_markup(props.mobile_menu_props()))
        } else {
            None
        },
    )
}

/// The navigation bar as markup, a function of configuration and state
/// alone: the logo, always, beside the box of the desktop layout, and after
/// them the box of the mobile layout.
pub open spec fn navbar_markup(props: NavbarPropsView, state: StateView) -> Markup {
    tag("nav").attribute("style", props.navbar_style).attribute(
        "class",
        props.navbar_class,
    ).child(
        tag("div").attribute("style", props.container_style).attribute(
            "class",
            props.container_class,
        ).child(logo_markup(props.logo_props())).child(desktop_markup(props, state)),
    ).child(mobile_markup(props, state))
}

/// The layout is one of two, chosen by the width alone, and never both. In
/// the desktop layout the desktop box holds the menu, then the trigger of
/// the mega menu if `show_mega_menu`, then the search input if `show_search`,
/// then the call-to-action button unless its text is empty, then the profile
/// menu if `show_profile_menu`, and the mobile box is empty. In the mobile
/// layout the desktop box is empty, and the mobile box holds the hamburger
/// toggle and then, while the mobile menu is open, the mobile menu. The logo
/// is there in both.
pub proof fn lemma_layout(props: NavbarPropsView, state: StateView)
    ensures
        navbar_markup(props, state).child_nodes().len() == 2,
        navbar_markup(props, state).at(0).child_nodes() == seq![
            logo_markup(props.logo_props()),
            desktop_markup(props, state),
        ],
        navbar_markup(props, state).at(1) == mobile_markup(props, state),
        !state.is_mobile ==> ({
            &&& mobile_markup(props, state).child_nodes().len() == 0
            &&& desktop_markup(props, state).child_nodes() == seq![
                menu_markup(props.menu_props()),
            ] + (if props.show_mega_menu {
                seq![mega_menu_trigger_markup(props, state)]
            } else {
                seq![]
            }) + (if props.show_search {
                seq![search_input_markup(props, state)]
            } else {
                seq![]
            }) + (if props.button_text.len() > 0 {
                seq![button_markup(props.button_props())]
            } else {
                seq![]
            }) + (if props.show_profile_menu {
                seq![profile_menu_markup(props.profile_menu_props(state))]
            } else {
                seq![]
            })
        }),
        state.is_mobile ==> ({
            &&& desktop_markup(props, state).child_nodes().len() == 0
            &&& mobile_markup(props, state).child_nodes() == seq![
                toggle_markup(props.toggle_props()),
            ] + (if state.is_mobile_menu_open {
                seq![mobile_menu_markup(props.mobile_menu_props())]
            } else {
                seq![]
            })
        }),
{
    assert(navbar_markup(props, state).at(0).child_nodes() =~= seq![
        logo_markup(props.logo_props()),
        desktop_markup(props, state),
    ]);
    if state.is_mobile {
        assert(mobile_markup(props, state).child_nodes() =~= seq![
            toggle_markup(props.toggle_props()),
        ] + (if state.is_mobile_menu_open {
            seq![mobile_menu_markup(props.mobile_menu_props())]
        } else {
            seq![]
        }));
    } else {
        assert(desktop_markup(props, state).child_nodes() =~= seq![
            menu_markup(props.menu_props()),
        ] + (if props.show_mega_menu {
            seq![mega_menu_trigger_markup(props, state)]
        } else {
            seq![]
        }) + (if props.show_search {
            seq![search_input_markup(props, state)]
        } else {
            seq![]
        }) + (if props.button_text.len() > 0 {
            seq![button_markup(props.button_props())]
        } else {
            seq![]
        }) + (if props.show_profile_menu {
            seq![profile_menu_markup(props.profile_menu_props(state))]
        } else {
            seq![]
        }));
    }
}

/// The mega menu follows the pointer. Once the pointer has entered the
/// trigger, the trigger holds its button and then the panel, and the panel
/// holds the mega menu with every entry of the configuration, in order. Once
/// the pointer has left the panel, the trigger holds its button and nothing
/// else.
pub proof fn lemma_mega_menu_follows_pointer(props: NavbarPropsView, state: StateView)
    ensures
        ({
            let entered = state.next(EventView::MegaMenuEnter);
            let trigger = mega_menu_trigger_markup(props, entered);
            &&& trigger.child_nodes().len() == 2
            &&& trigger.at(1) == mega_menu_panel_markup(props)
            &&& trigger.at(1).at(0) == mega_menu_markup(props.mega_menu_props())
            &&& props.mega_menu_props().items == props.mega_menu_items
        }),
        ({
            let left = state.next(EventView::MegaMenuLeave);
            mega_menu_trigger_markup(props, left).child_nodes().len() == 1
        }),
{
}

/// The profile dropdown of the bar is open exactly when the state says so,
/// it holds the dropdown entries of the configuration, and its button
/// reports clicks as dropdown toggles.
pub proof fn lemma_dropdown_follows_state(props: NavbarPropsView, state: StateView)
    ensures
        props.profile_menu_props(state).is_open == state.is_dropdown_open,
        props.profile_menu_props(state).items == props.dropdown_items,
        props.profile_menu_props(state).toggle == Handler::ToggleDropdown,
        props.profile_menu_props(state.next(EventView::ProfileClick)).is_open
            == !state.is_dropdown_open,
{
}

/// The search input of the desktop layout shows the one search text and
/// reports each input so that the text follows.
pub proof fn lemma_search_input_shows_search_text(props: NavbarPropsView, state: StateView)
    ensures
        search_input_markup(props, state).value_of("value") == Some(
            state.search_text(props.search_state),
        ),
        search_input_markup(props, state)->listeners == seq![
            (Listener { event: DomEvent::Input, handler: Handler::UpdateSearch }),
        ],
{
    let styled = tag("input").attribute("type", "text"@).attribute(
        "placeholder",
        props.search_placeholder,
    ).attribute("style", props.search_input_style).attribute("class", props.search_input_class);
    lemma_attribute_added(styled, "value", state.search_text(props.search_state), "value");
    assert(search_input_markup(props, state)->listeners =~= seq![
        Listener { event: DomEvent::Input, handler: Handler::UpdateSearch },
    ]);
}

/// Every style and class of the configuration is the style and class of the
/// element that it is given for, in whatever state: no element that the
/// configuration styles falls back on a default. Which of these elements a
/// state shows is said by [`lemma_layout`] and by the laws of the parts.
pub proof fn lemma_configured_styles_are_rendered(props: NavbarPropsView, state: StateView)
    ensures
        navbar_markup(props, state).styled(props.navbar_style, props.navbar_class),
        navbar_markup(props, state).at(0).styled(props.container_style, props.container_class),
        desktop_markup(props, state).styled(props.inner_style, props.inner_class),
        // the logo image
        logo_markup(props.logo_props()).at(0).styled(props.logo_style, props.logo_class),
        // the list of the menu and the link of each entry
        menu_markup(props.menu_props()).styled(props.nav_style, props.nav_class),
        forall|i: int|
            0 <= i < props.menus.len() ==> (#[trigger] menu_markup(props.menu_props()).at(i)).at(
                0,
            ).styled(props.menu_item_style, props.menu_item_class),
        // the button of the mega menu, the panel and its card
        mega_menu_trigger_markup(props, state).at(0).styled(
            props.more_button_style,
            props.more_button_class,
        ),
        mega_menu_markup(props.mega_menu_props()).styled(
            props.mega_menu_style,
            props.mega_menu_class,
        ),
        mega_menu_markup(props.mega_menu_props()).at(0).styled(
            props.mega_menu_card_style,
            props.mega_menu_card_class,
        ),
        // the search input, in either layout
        search_input_markup(props, state).styled(
            props.search_input_style,
            props.search_input_class,
        ),
        mobile_search_markup(props.mobile_menu_props()).styled(
            props.search_input_style,
            props.search_input_class,
        ),
        // the call-to-action button and its link
        button_markup(props.button_props()).styled(props.button_style, props.button_class),
        button_markup(props.button_props()).at(0).styled(
            props.button_link_style,
            props.button_link_class,
        ),
        // the dropdown list and each of its items, in either layout
        dropdown_markup(props.profile_menu_props(state)).styled(
            props.dropdown_style,
            props.dropdown_class,
        ),
        mobile_dropdown_markup(props.mobile_menu_props()).styled(
            props.dropdown_style,
            props.dropdown_class,
        ),
        forall|i: int|
            0 <= i < props.dropdown_items.len() ==> ({
                &&& (#[trigger] dropdown_markup(props.profile_menu_props(state)).at(i)).styled(
                    props.dropdown_item_style,
                    props.dropdown_item_class,
                )
                &&& (#[trigger] mobile_dropdown_markup(props.mobile_menu_props()).at(i)).styled(
                    props.dropdown_item_style,
                    props.dropdown_item_class,
                )
            }),
        // the hamburger toggle and its bars
        toggle_markup(props.toggle_props()).styled(
            props.menu_toggle_style,
            props.menu_toggle_class,
        ),
        forall|k: int|
            0 <= k < 3 ==> (#[trigger] toggle_markup(props.toggle_props()).at(k)).styled(
                props.line_style,
                props.line_class,
            ),
        // the links of the menu in the mobile layout
        forall|i: int|
            0 <= i < props.menus.len() ==> (#[trigger] menu_markup(
                props.mobile_menu_props().menu_props(),
            ).at(i)).at(0).styled(props.menu_item_style, props.menu_item_class),
{
    lemma_style_then_class(tag("nav"), props.navbar_style, props.navbar_class);
    lemma_style_then_class(tag("div"), props.container_style, props.container_class);
    lemma_style_then_class(tag("div"), props.inner_style, props.inner_class);
    lemma_style_then_class(tag("button"), props.more_button_style, props.more_button_class);
    lemma_logo_styles(props.logo_props());
    lemma_menu_layout(props.menu_props());
    lemma_menu_layout(props.mobile_menu_props().menu_props());
    lemma_mega_menu_layout(props.mega_menu_props());
    lemma_button_styles(props.button_props());
    lemma_profile_menu_styles(props.profile_menu_props(state));
    lemma_mobile_menu_styles(props.mobile_menu_props());
    lemma_toggle_styles(props.toggle_props());
    reveal_strlit("value");
    reveal_strlit("style");
    reveal_strlit("class");
    assert("value"@[0] != "style"@[0] && "value"@[0] != "class"@[0]);
    let styled = tag("input").attribute("type", "text"@).attribute(
        "placeholder",
        props.search_placeholder,
    );
    lemma_style_then_class(styled, props.search_input_style, props.search_input_class);
    lemma_attribute_keeps_style(
        styled.attribute("style", props.search_input_style).attribute(
            "class",
            props.search_input_class,
        ),
        "value",
        state.search_text(props.search_state),
    );
}

impl Default for NavbarProps {
    /// The configuration with every property at its default.
    fn default() -> (props: NavbarProps)
        ensures
            props@ == NavbarPropsView::defaults(),
    {
        let props = NavbarProps {
            menus: Vec::new(),
            dropdown_items: Vec::new(),
            mega_menu_items: Vec::new(),
            show_search: false,
            show_mega_menu: false,
            show_profile_menu: false,
            button_text: "Sign up",
            button_href: "#",
            logo_src: "/assets/logo.webp",
            logo_alt: "logo",
            logo_link: "/",
            button_target: "_blank",
            search_placeholder: "Search...",
            profile_button_text: "Profile",
            navbar_style: "display: flex; align-items: center; justify-content: space-between; padding: 1rem; background-color: #fff;",
            inner_style: "display: flex; align-items: center; width: 100%;",
            container_style: "max-width: 1200px; margin: auto; display: flex; width: 100%; align-items: center; justify-content: space-between;",
            logo_style: "height: 40px;",
            menu_toggle_style: "display: flex; flex-direction: column; gap: 5px; cursor: pointer;",
            line_style: "width: 25px; height: 2px; background: black;",
            nav_style: "display: flex; gap: 1rem; list-style: none; margin: 0; padding: 0;",
            menu_item_style: "text-decoration: none; color: black; padding: 0.5rem 1rem; transition: background 0.3s ease;",
            dropdown_style: "position: absolute; top: 100%; left: 0; background: white; box-shadow: 0 4px 8px rgba(0,0,0,0.1); z-index: 1000;",
            dropdown_item_style: "padding: 0.5rem 1rem; white-space: nowrap;",
            search_input_style: "padding: 0.5rem; font-size: 1rem; border: 1px solid #ccc;",
            button_style: "margin-left: 1rem; white-space: nowrap;",
            button_link_style: "text-decoration: none; color: white; background: #007bff; padding: 0.5rem 1rem; border-radius: 4px;",
            mega_menu_style: "position: absolute; top: 100%; left: 0; background: white; padding: 0; margin-top: 0.5rem; z-index: 1000;",
            mega_menu_card_style: "background: white; display: flex; gap: 2rem; padding: 1rem; box-shadow: 0 2px 8px rgba(0,0,0,0.1);",
            more_button_text: "More",
            more_button_style: "background: transparent; border: none; cursor: pointer; font-weight: bold;",
            search_state: None,
            profile_image_url: None,
            navbar_class: "",
            inner_class: "",
            container_class: "",
            logo_class: "",
            menu_toggle_class: "",
            line_class: "",
            nav_class: "",
            menu_item_class: "",
            dropdown_class: "",
            dropdown_item_class: "",
            search_input_class: "",
            button_class: "",
            button_link_class: "",
            mega_menu_class: "",
            mega_menu_card_class: "",
            more_button_class: "",
        };
        proof {
            assert(props@.menus =~= Seq::empty());
            assert(props@.dropdown_items =~= Seq::empty());
            assert(props@.mega_menu_items =~= Seq::empty());
        }
        props
    }
}

/// Renders the navigation bar in the given state.
#[allow(non_snake_case)]
pub fn Navbar(props: NavbarProps, state: &NavbarState) -> (node: Node)
    ensures
        node@ == navbar_markup(props@, state@),
{
    let logo = NavbarLogo(
        LogoProps {
            logo_src: props.logo_src,
            logo_alt: props.logo_alt,
            logo_link: props.logo_link,
            logo_style: props.logo_style,
            logo_class: props.logo_class.to_owned(),
            ..LogoProps::default()
        },
    );
    let inner = Node::tag("div").attribute("style", props.inner_style).attribute(
        "class",
        props.inner_class,
    );
    let side = Node::tag("div").attribute("style", "position: relative; display: inline-block;");
    let (desktop, mobile) = if state.is_mobile {
        let toggle = NavbarToggle(
            ToggleProps {
                onclick: Handler::ToggleMobileMenu,
                toggle_style: props.menu_toggle_style,
                line_style: props.line_style,
                toggle_class: props.menu_toggle_class.to_owned(),
                line_class: props.line_class.to_owned(),
            },
        );
        let menu = if state.is_mobile_menu_open {
            Some(
                MobileMenu(
                    MobileMenuProps {
                        menu_item_style: props.menu_item_style,
                        menu_item_class: props.menu_item_class.to_owned(),
                        dropdown_style: props.dropdown_style,
                        dropdown_class: props.dropdown_class.to_owned(),
                        dropdown_item_style: props.dropdown_item_style,
                        dropdown_item_class: props.dropdown_item_class.to_owned(),
                        show_profile_menu: props.show_profile_menu,
                        show_search: props.show_search,
                        search_input_style: props.search_input_style,
                        search_input_class: props.search_input_class.to_owned(),
                        search_placeholder: props.search_placeholder,
                        ..MobileMenuProps::new(props.menus, props.dropdown_items)
                    },
                ),
            )
        } else {
            None
        };
        (inner, side.child(toggle).optional_child(menu))
    } else {
        let menu = NavbarMenu(
            MenuProps {
                menus: props.menus,
                menu_item_style: props.menu_item_style,
                list_style: props.nav_style,
                menu_item_class: props.menu_item_class.to_owned(),
                list_class: props.nav_class.to_owned(),
            },
        );
        let mega_menu = if props.show_mega_menu {
            let panel = if state.is_mega_menu_open {
                Some(
                    Node::tag("div").listening(
                        DomEvent::MouseLeave,
                        Handler::CloseMegaMenu,
                    ).child(
                        MegaMenu(
                            MegaMenuProps {
                                wrapper_style: props.mega_menu_style,
                                wrapper_class: props.mega_menu_class.to_owned(),
                                card_style: props.mega_menu_card_style,
                                card_class: props.mega_menu_card_class.to_owned(),
                                ..MegaMenuProps::new(props.mega_menu_items)
                            },
                        ),
                    ),
                )
            } else {
                None
            };
            Some(
                Node::tag("div").listening(DomEvent::MouseEnter, Handler::OpenMegaMenu).attribute(
                    "style",
                    "position: relative; display: inline-block;",
                ).child(
                    Node::tag("button").attribute("style", props.more_button_style).attribute(
                        "class",
                        props.more_button_class,
                    ).child(Node::text(props.more_button_text)),
                ).optional_child(panel),
            )
        } else {
            None
        };
        let search = if props.show_search {
            Some(
                Node::tag("input").attribute("type", "text").attribute(
                    "placeholder",
                    props.search_placeholder,
                ).attribute("style", props.search_input_style).attribute(
                    "class",
                    props.search_input_class,
                ).attribute("value", state.search_text(&props.search_state)).listening(
                    DomEvent::Input,
                    Handler::UpdateSearch,
                ),
            )
        } else {
            None
        };
        let button = if !props.button_text.is_empty() {
            Some(
                NavbarButton(
                    ButtonProps {
                        href: props.button_href,
                        text: props.button_text,
                        button_style: props.button_style,
                        link_style: props.button_link_style,
                        target: props.button_target,
                        button_class: props.button_class.to_owned(),
                        link_class: props.button_link_class.to_owned(),
                    },
                ),
            )
        } else {
            None
        };
        let profile = if props.show_profile_menu {
            Some(
                ProfileMenu(
                    ProfileMenuProps {
                        profile_image_url: props.profile_image_url,
                        dropdown_style: props.dropdown_style,
                        dropdown_class: props.dropdown_class.to_owned(),
                        item_style: props.dropdown_item_style,
                        item_class: props.dropdown_item_class.to_owned(),
                        profile_text: props.profile_button_text,
                        ..ProfileMenuProps::new(
                            props.dropdown_items,
                            state.is_dropdown_open,
                            Handler::ToggleDropdown,
                        )
                    },
                ),
            )
        } else {
            None
        };
        (
            inner.child(menu).optional_child(mega_menu).optional_child(search).optional_child(
                button,
            ).optional_child(profile),
            side,
        )
    };
    Node::tag("nav").attribute("style", props.navbar_style).attribute(
        "class",
        props.navbar_class,
    ).child(
        Node::tag("div").attribute("style", props.container_style).attribute(
            "class",
            props.container_class,
        ).child(logo).child(desktop),
    ).child(mobile)
}

} // verus!
