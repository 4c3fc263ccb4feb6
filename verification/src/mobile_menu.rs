//! The mobile menu: the panel that the hamburger toggle opens. It holds the
//! menu, a search input where one is asked for, and the dropdown entries as
//! a flat list where the profile menu is asked for.

use crate::markup::{
    lemma_attribute_added, lemma_style_then_class, node_views, tag, text, Markup, Node,
};
use crate::menu::{menu_markup, menu_views, Menu, MenuProps, MenuPropsView, MenuView, NavbarMenu};
use crate::profile::{dropdown_item_views, DropdownItem, DropdownItemView};
use vstd::prelude::*;

verus! {

/// Properties for rendering the mobile menu.
#[derive(Clone, Debug, PartialEq)]
pub struct MobileMenuProps {
    /// The entries of the menu.
    pub menus: Vec<Menu>,
    /// Style of the link of each menu entry.
    pub menu_item_style: &'static str,
    /// The entries of the dropdown.
    pub dropdown_items: Vec<DropdownItem>,
    /// Style of the dropdown list.
    pub dropdown_style: &'static str,
    /// Style of each entry of the dropdown.
    pub dropdown_item_style: &'static str,
    /// Whether the dropdown entries are shown.
    pub show_profile_menu: bool,
    /// Whether the search input is shown.
    pub show_search: bool,
    /// Style of the search input.
    pub search_input_style: &'static str,
    /// Placeholder of the search input.
    pub search_placeholder: &'static str,
    /// Style of the panel.
    pub container_style: &'static str,
    /// Class of the panel.
    pub container_class: String,
    /// Class of the link of each menu entry.
    pub menu_item_class: String,
    /// Class of the dropdown list.
    pub dropdown_class: String,
    /// Class of each entry of the dropdown.
    pub dropdown_item_class: String,
    /// Class of the search input.
    pub search_input_class: String,
}

/// The value of [`MobileMenuProps`].
pub struct MobileMenuPropsView {
    pub menus: Seq<MenuView>,
    pub menu_item_style: Seq<char>,
    pub dropdown_items: Seq<DropdownItemView>,
    pub dropdown_style: Seq<char>,
    pub dropdown_item_style: Seq<char>,
    pub show_profile_menu: bool,
    pub show_search: bool,
    pub search_input_style: Seq<char>,
    pub search_placeholder: Seq<char>,
    pub container_style: Seq<char>,
    pub container_class: Seq<char>,
    pub menu_item_class: Seq<char>,
    pub dropdown_class: Seq<char>,
    pub dropdown_item_class: Seq<char>,
    pub search_input_class: Seq<char>,
}

impl View for MobileMenuProps {
    type V = MobileMenuPropsView;

    open spec fn view(&self) -> MobileMenuPropsView {
        MobileMenuPropsView {
            menus: menu_views(self.menus@),
            menu_item_style: self.menu_item_style@,
            dropdown_items: dropdown_item_views(self.dropdown_items@),
            dropdown_style: self.dropdown_style@,
            dropdown_item_style: self.dropdown_item_style@,
            show_profile_menu: self.show_profile_menu,
            show_search: self.show_search,
            search_input_style: self.search_input_style@,
            search_placeholder: self.search_placeholder@,
            container_style: self.container_style@,
            container_class: self.container_class@,
            menu_item_class: self.menu_item_class@,
            dropdown_class: self.dropdown_class@,
            dropdown_item_class: self.dropdown_item_class@,
            search_input_class: self.search_input_class@,
        }
    }
}

impl MobileMenuPropsView {
    /// The properties of a mobile menu with the given entries and every
    /// other property at its default: no search input, no dropdown entries.
    pub open spec fn with_defaults(
        menus: Seq<MenuView>,
        dropdown_items: Seq<DropdownItemView>,
    ) -> MobileMenuPropsView {
        MobileMenuPropsView {
            menus,
            menu_item_style: "padding: 0.5rem 1rem;"@,
            dropdown_items,
            dropdown_style: "background: #f9f9f9; padding: 1rem; border-radius: 4px;"@,
            dropdown_item_style: "padding: 0.5rem;"@,
            show_profile_menu: false,
            show_search: false,
            search_input_style: "padding: 0.5rem; width: 100%; border: 1px solid #ccc;"@,
            search_placeholder: "Search..."@,
            container_style: "display: flex; flex-direction: column; gap: 1rem; padding: 1rem; position: absolute; top: 100%; left: 0; background: white; z-index: 999; width: max-content;"@,
            container_class: Seq::empty(),
            menu_item_class: Seq::empty(),
            dropdown_class: Seq::empty(),
            dropdown_item_class: Seq::empty(),
            search_input_class: Seq::empty(),
        }
    }

    /// The properties of the menu inside the panel: the entries and the
    /// style and class of their links as given, the list itself without
    /// style or class.
    pub open spec fn menu_props(self) -> MenuPropsView {
        MenuPropsView {
            menus: self.menus,
            menu_item_style: self.menu_item_style,
            list_style: ""@,
            menu_item_class: self.menu_item_class,
            list_class: Seq::empty(),
        }
    }
}

/// The search input of the panel. It is not bound to the search text.
pub open spec fn mobile_search_markup(props: MobileMenuPropsView) -> Markup {
    tag("input").attribute("type", "text"@).attribute(
        "style",
        props.search_input_style,
    ).attribute("placeholder", props.search_placeholder).attribute(
        "class",
        props.search_input_class,
    )
}

/// One dropdown entry in the panel: a list item keyed by the entry's
/// identifier, holding a link with the label. It shows no icon.
pub open spec fn mobile_dropdown_entry_markup(
    item: DropdownItemView,
    style: Seq<char>,
    class: Seq<char>,
) -> Markup {
    tag("li").keyed(item.id).attribute("style", style).attribute("class", class).child(
        tag("a").attribute("href", item.link).child(text(item.label)),
    )
}

/// The dropdown entries in the panel, in the order given.
pub open spec fn mobile_dropdown_entries_markup(
    items: Seq<DropdownItemView>,
    style: Seq<char>,
    class: Seq<char>,
) -> Seq<Markup> {
    items.map_values(|item: DropdownItemView| mobile_dropdown_entry_markup(item, style, class))
}

/// The dropdown entries as a flat list.
pub open spec fn mobile_dropdown_markup(props: MobileMenuPropsView) -> Markup {
    tag("ul").attribute("style", props.dropdown_style).attribute(
        "class",
        props.dropdown_class,
    ).children(
        mobile_dropdown_entries_markup(
            props.dropdown_items,
            props.dropdown_item_style,
            props.dropdown_item_class,
        ),
    )
}

/// The mobile menu as markup: the panel with the menu, then the search input
/// if `show_search`, then the dropdown entries if `show_profile_menu`.
pub open spec fn mobile_menu_markup(props: MobileMenuPropsView) -> Markup {
    let with_menu = tag("div").attribute("style", props.container_style).attribute(
        "class",
        props.container_class,
    ).child(menu_markup(props.menu_props()));
    let with_search = if props.show_search {
        with_menu.child(mobile_search_markup(props))
    } else {
        with_menu
    };
    if props.show_profile_menu {
        with_search.child(mobile_dropdown_markup(props))
    } else {
        with_search
    }
}

/// The panel holds the menu, then the search input if `show_search`, then
/// the dropdown list if `show_profile_menu`, and nothing else. The list
/// holds one item for each dropdown entry, in the order of the entries, each
/// keyed by the identifier of its entry.
pub proof fn lemma_mobile_menu_layout(props: MobileMenuPropsView)
    ensures
        mobile_menu_markup(props).child_nodes() == seq![menu_markup(props.menu_props())] + (
        if props.show_search {
            seq![mobile_search_markup(props)]
        } else {
            seq![]
        }) + (if props.show_profile_menu {
            seq![mobile_dropdown_markup(props)]
        } else {
            seq![]
        }),
        mobile_dropdown_markup(props).child_nodes().len() == props.dropdown_items.len(),
        forall|i: int|
            0 <= i < props.dropdown_items.len() ==> ({
                let item = #[trigger] mobile_dropdown_markup(props).at(i);
                &&& item == mobile_dropdown_entry_markup(
                    props.dropdown_items[i],
                    props.dropdown_item_style,
                    props.dropdown_item_class,
                )
                &&& item->key == Some(props.dropdown_items[i].id)
            }),
{
    let expected = seq![menu_markup(props.menu_props())] + (if props.show_search {
        seq![mobile_search_markup(props)]
    } else {
        seq![]
    }) + (if props.show_profile_menu {
        seq![mobile_dropdown_markup(props)]
    } else {
        seq![]
    });
    assert(mobile_menu_markup(props).child_nodes() =~= expected);
}

/// The panel, the search input, the dropdown list and each of its items
/// have the styles and classes given for them.
pub proof fn lemma_mobile_menu_styles(props: MobileMenuPropsView)
    ensures
        mobile_menu_markup(props).styled(props.container_style, props.container_class),
        mobile_search_markup(props).styled(props.search_input_style, props.search_input_class),
        mobile_dropdown_markup(props).styled(props.dropdown_style, props.dropdown_class),
        forall|i: int|
            0 <= i < props.dropdown_items.len() ==> (#[trigger] mobile_dropdown_markup(props).at(
                i,
            )).styled(props.dropdown_item_style, props.dropdown_item_class),
{
    lemma_style_then_class(tag("div"), props.container_style, props.container_class);
    lemma_style_then_class(tag("ul"), props.dropdown_style, props.dropdown_class);
    assert forall|i: int| 0 <= i < props.dropdown_items.len() implies (
    #[trigger] mobile_dropdown_markup(props).at(i)).styled(
        props.dropdown_item_style,
        props.dropdown_item_class,
    ) by {
        lemma_style_then_class(
            tag("li").keyed(props.dropdown_items[i].id),
            props.dropdown_item_style,
            props.dropdown_item_class,
        );
    }
    reveal_strlit("placeholder");
    reveal_strlit("style");
    reveal_strlit("class");
    assert("placeholder"@.len() == 11 && "style"@.len() == 5 && "class"@.len() == 5);
    assert("style"@[0] != "class"@[0]);
    let typed = tag("input").attribute("type", "text"@);
    let styled = typed.attribute("style", props.search_input_style);
    let described = styled.attribute("placeholder", props.search_placeholder);
    lemma_attribute_added(typed, "style", props.search_input_style, "style");
    lemma_attribute_added(styled, "placeholder", props.search_placeholder, "style");
    lemma_attribute_added(described, "class", props.search_input_class, "style");
}

fn mobile_dropdown_entry(item: &DropdownItem, style: &str, class: &str) -> (node: Node)
    ensures
        node@ == mobile_dropdown_entry_markup(item@, style@, class@),
{
    Node::tag("li").keyed(item.id).attribute("style", style).attribute("class", class).child(
        Node::tag("a").attribute("href", item.link).child(Node::text(item.label)),
    )
}

fn mobile_dropdown_entries(items: &Vec<DropdownItem>, style: &str, class: &str) -> (nodes: Vec<
    Node,
>)
    ensures
        node_views(nodes@) == mobile_dropdown_entries_markup(
            dropdown_item_views(items@),
            style@,
            class@,
        ),
{
    let mut nodes: Vec<Node> = Vec::new();
    let mut i: usize = 0;
    while i < items.len()
        invariant
            i <= items.len(),
            node_views(nodes@) == mobile_dropdown_entries_markup(
                dropdown_item_views(items@.take(i as int)),
                style@,
                class@,
            ),
        decreases items.len() - i,
    {
        nodes.push(mobile_dropdown_entry(&items[i], style, class));
        proof {
            broadcast use Seq::lemma_push_map_commute;

            assert(items@.take(i + 1) == items@.take(i as int).push(items@[i as int]));
        }
        i += 1;
    }
    proof {
        assert(items@.take(items@.len() as int) =~= items@);
    }
    nodes
}

impl MobileMenuProps {
    /// The properties of a mobile menu with the given entries and every
    /// other property at its default: no search input, no dropdown entries.
    pub fn new(menus: Vec<Menu>, dropdown_items: Vec<DropdownItem>) -> (props: MobileMenuProps)
        ensures
            props@ == MobileMenuPropsView::with_defaults(
                menu_views(menus@),
                dropdown_item_views(dropdown_items@),
            ),
    {
        MobileMenuProps {
            menus,
            menu_item_style: "padding: 0.5rem 1rem;",
            dropdown_items,
            dropdown_style: "background: #f9f9f9; padding: 1rem; border-radius: 4px;",
            dropdown_item_style: "padding: 0.5rem;",
            show_profile_menu: false,
            show_search: false,
            search_input_style: "padding: 0.5rem; width: 100%; border: 1px solid #ccc;",
            search_placeholder: "Search...",
            container_style: "display: flex; flex-direction: column; gap: 1rem; padding: 1rem; position: absolute; top: 100%; left: 0; background: white; z-index: 999; width: max-content;",
            container_class: String::new(),
            menu_item_class: String::new(),
            dropdown_class: String::new(),
            dropdown_item_class: String::new(),
            search_input_class: String::new(),
        }
    }
}

/// Renders the mobile menu.
#[allow(non_snake_case)]
pub fn MobileMenu(props: MobileMenuProps) -> (node: Node)
    ensures
        node@ == mobile_menu_markup(props@),
{
    let menu = NavbarMenu(
        MenuProps {
            menus: props.menus,
            menu_item_style: props.menu_item_style,
            list_style: "",
            menu_item_class: props.menu_item_class,
            list_class: String::new(),
        },
    );
    let with_menu = Node::tag("div").attribute("style", props.container_style).attribute(
        "class",
        props.container_class.as_str(),
    ).child(menu);
    let with_search = if props.show_search {
        with_menu.child(
            Node::tag("input").attribute("type", "text").attribute(
                "style",
                props.search_input_style,
            ).attribute("placeholder", props.search_placeholder).attribute(
                "class",
                props.search_input_class.as_str(),
            ),
        )
    } else {
        with_menu
    };
    if props.show_profile_menu {
        let entries = mobile_dropdown_entries(
            &props.dropdown_items,
            props.dropdown_item_style,
            props.dropdown_item_class.as_str(),
        );
        with_search.child(
            Node::tag("ul").attribute("style", props.dropdown_style).attribute(
                "class",
                props.dropdown_class.as_str(),
            ).children(entries),
        )
    } else {
        with_search
    }
}

} // verus!
