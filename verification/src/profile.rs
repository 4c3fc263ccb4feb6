//! The profile menu: an avatar button that opens a dropdown of links. Whether
//! the dropdown is open is decided by whoever renders the menu.

use crate::markup::{
    lemma_attribute_added, lemma_style_then_class, node_views, option_view, tag, text, DomEvent,
    Handler, Listener, Markup, Node,
};
use vstd::prelude::*;

verus! {

/// An entry of a dropdown.
#[derive(Clone, Debug, PartialEq)]
pub struct DropdownItem {
    /// Unique identifier of the entry; the key of its list item.
    pub id: usize,
    /// The text of the entry.
    pub label: &'static str,
    /// Where the entry leads.
    pub link: &'static str,
    /// Icon shown before the label.
    pub icon: Option<Node>,
}

/// The value of a [`DropdownItem`].
pub struct DropdownItemView {
    pub id: usize,
    pub label: Seq<char>,
    pub link: Seq<char>,
    pub icon: Option<Markup>,
}

impl View for DropdownItem {
    type V = DropdownItemView;

    open spec fn view(&self) -> DropdownItemView {
        DropdownItemView {
            id: self.id,
            label: self.label@,
            link: self.link@,
            icon: option_view(self.icon),
        }
    }
}

/// The values of a run of dropdown entries, in order.
pub open spec fn dropdown_item_views(items: Seq<DropdownItem>) -> Seq<DropdownItemView> {
    items.map_values(|item: DropdownItem| item@)
}

/// Properties for rendering a profile menu.
#[derive(Clone, Debug, PartialEq)]
pub struct ProfileMenuProps {
    /// Entries of the dropdown.
    pub items: Vec<DropdownItem>,
    /// Style of the dropdown list.
    pub dropdown_style: &'static str,
    /// Style of each entry of the dropdown.
    pub item_style: &'static str,
    /// Style of the wrapper around button and dropdown.
    pub wrapper_style: &'static str,
    /// Style of the profile button.
    pub button_style: &'static str,
    /// Style of the avatar image.
    pub avatar_img_style: &'static str,
    /// Style of the fallback avatar.
    pub avatar_fallback_style: &'static str,
    /// Text whose first character stands in for a missing avatar image.
    pub profile_text: &'static str,
    /// URL of the avatar image.
    pub profile_image_url: Option<String>,
    /// Whether the dropdown is open.
    pub is_open: bool,
    /// What a click on the profile button reports.
    pub toggle: Handler,
    /// Class of the dropdown list.
    pub dropdown_class: String,
    /// Class of each entry of the dropdown.
    pub item_class: String,
    /// Class of the wrapper.
    pub wrapper_class: String,
    /// Class of the avatar, image or fallback.
    pub avatar_class: String,
    /// Class of the profile button.
    pub button_class: String,
}

/// The value of [`ProfileMenuProps`].
pub struct ProfileMenuPropsView {
    pub items: Seq<DropdownItemView>,
    pub dropdown_style: Seq<char>,
    pub item_style: Seq<char>,
    pub wrapper_style: Seq<char>,
    pub button_style: Seq<char>,
    pub avatar_img_style: Seq<char>,
    pub avatar_fallback_style: Seq<char>,
    pub profile_text: Seq<char>,
    pub profile_image_url: Option<Seq<char>>,
    pub is_open: bool,
    pub toggle: Handler,
    pub dropdown_class: Seq<char>,
    pub item_class: Seq<char>,
    pub wrapper_class: Seq<char>,
    pub avatar_class: Seq<char>,
    pub button_class: Seq<char>,
}

impl View for ProfileMenuProps {
    type V = ProfileMenuPropsView;

    open spec fn view(&self) -> ProfileMenuPropsView {
        ProfileMenuPropsView {
            items: dropdown_item_views(self.items@),
            dropdown_style: self.dropdown_style@,
            item_style: self.item_style@,
            wrapper_style: self.wrapper_style@,
            button_style: self.button_style@,
            avatar_img_style: self.avatar_img_style@,
            avatar_fallback_style: self.avatar_fallback_style@,
            profile_text: self.profile_text@,
            profile_image_url: match self.profile_image_url {
                Some(url) => Some(url@),
                None => None,
            },
            is_open: self.is_open,
            toggle: self.toggle,
            dropdown_class: self.dropdown_class@,
            item_class: self.item_class@,
            wrapper_class: self.wrapper_class@,
            avatar_class: self.avatar_class@,
            button_class: self.button_class@,
        }
    }
}

impl ProfileMenuPropsView {
    /// The properties of a profile menu with the given entries, open flag
    /// and click report, and every other property at its default.
    pub open spec fn with_defaults(
        items: Seq<DropdownItemView>,
        is_open: bool,
        toggle: Handler,
    ) -> ProfileMenuPropsView {
        ProfileMenuPropsView {
            items,
            dropdown_style: "position: absolute; top: 100%; left: 0; background: white; box-shadow: 0 4px 8px rgba(0,0,0,0.1); z-index: 1000;"@,
            item_style: "padding: 0.5rem 1rem; white-space: nowrap;"@,
            wrapper_style: "position: relative; display: inline-block; margin: 0 0 0 1rem;"@,
            button_style: "background: none; border: none; cursor: pointer;"@,
            avatar_img_style: "width: 40px; height: 40px; border-radius: 50%; object-fit: cover;"@,
            avatar_fallback_style: "width: 40px; height: 40px; border-radius: 50%; background-color: #ccc; color: #fff; display: flex; align-items: center; justify-content: center; font-weight: bold;"@,
            profile_text: "Profile"@,
            profile_image_url: None,
            is_open,
            toggle,
            dropdown_class: Seq::empty(),
            item_class: Seq::empty(),
            wrapper_class: Seq::empty(),
            avatar_class: Seq::empty(),
            button_class: Seq::empty(),
        }
    }
}

/// The letter that stands in for a missing avatar image: the first character
/// of the profile text, or `P` where the text is empty.
pub open spec fn fallback_letter(profile_text: Seq<char>) -> Seq<char> {
    if profile_text.len() > 0 {
        profile_text.subrange(0, 1)
    } else {
        seq!['P']
    }
}

/// The text of a flag as an attribute value.
pub open spec fn flag_text(flag: bool) -> Seq<char> {
    if flag {
        "true"@
    } else {
        "false"@
    }
}

/// The avatar: the image where a URL is given, else the fallback letter.
pub open spec fn avatar_markup(props: ProfileMenuPropsView) -> Markup {
    match props.profile_image_url {
        Some(url) => tag("img").attribute("src", url).attribute("alt", "Profile"@).attribute(
            "style",
            props.avatar_img_style,
        ).attribute("class", props.avatar_class),
        None => tag("div").attribute("style", props.avatar_fallback_style).attribute(
            "class",
            props.avatar_class,
        ).child(text(fallback_letter(props.profile_text))),
    }
}

/// The profile button: it reports clicks through `toggle`, announces through
/// `aria-expanded` whether the dropdown is open, and shows the avatar.
pub open spec fn profile_button_markup(props: ProfileMenuPropsView) -> Markup {
    tag("button").listening(DomEvent::Click, props.toggle).attribute(
        "aria-haspopup",
        "true"@,
    ).attribute("aria-expanded", flag_text(props.is_open)).attribute(
        "style",
        props.button_style,
    ).attribute("class", props.button_class).child(avatar_markup(props))
}

/// One entry of the profile dropdown: a list item keyed by the entry's
/// identifier, holding a link with the icon, if any, before the label.
pub open spec fn dropdown_entry_markup(
    item: DropdownItemView,
    style: Seq<char>,
    class: Seq<char>,
) -> Markup {
    tag("li").keyed(item.id).attribute("style", style).attribute("class", class).child(
        tag("a").attribute("href", item.link).optional_child(item.icon).child(text(item.label)),
    )
}

/// The entries of the profile dropdown, in the order given.
pub open spec fn dropdown_entries_markup(
    items: Seq<DropdownItemView>,
    style: Seq<char>,
    class: Seq<char>,
) -> Seq<Markup> {
    items.map_values(|item: DropdownItemView| dropdown_entry_markup(item, style, class))
}

fn dropdown_entry(item: DropdownItem, style: &str, class: &str) -> (node: Node)
    ensures
        node@ == dropdown_entry_markup(item@, style@, class@),
{
    Node::tag("li").keyed(item.id).attribute("style", style).attribute("class", class).child(
        Node::tag("a").attribute("href", item.link).optional_child(item.icon).child(
            Node::text(item.label),
        ),
    )
}

fn dropdown_entries(items: Vec<DropdownItem>, style: &str, class: &str) -> (nodes: Vec<Node>)
    ensures
        node_views(nodes@) == dropdown_entries_markup(dropdown_item_views(items@), style@, class@),
{
    let mut nodes: Vec<Node> = Vec::new();
    for item in it: items
        invariant
            node_views(nodes@) == dropdown_entries_markup(
                dropdown_item_views(items@.take(it.index() as int)),
                style@,
                class@,
            ),
    {
        nodes.push(dropdown_entry(item, style, class));
        proof {
            broadcast use Seq::lemma_push_map_commute;

            assert(items@.take(it.index() + 1) == items@.take(it.index() as int).push(item));
        }
    }
    proof {
        assert(items@.take(items@.len() as int) =~= items@);
    }
    nodes
}


/// The dropdown list with its entries, in the order given.
pub open spec fn dropdown_markup(props: ProfileMenuPropsView) -> Markup {
    tag("ul").attribute("style", props.dropdown_style).attribute(
        "class",
        props.dropdown_class,
    ).children(dropdown_entries_markup(props.items, props.item_style, props.item_class))
}

/// The profile menu as markup: the button, followed by the dropdown list
/// exactly when the menu is open.
pub open spec fn profile_menu_markup(props: ProfileMenuPropsView) -> Markup {
    let closed = tag("div").attribute("style", props.wrapper_style).attribute(
        "class",
        props.wrapper_class,
    ).child(profile_button_markup(props));
    if props.is_open {
        closed.child(dropdown_markup(props))
    } else {
        closed
    }
}

/// The dropdown follows the open flag. An open menu holds the button and
/// then the list, and the list holds one item for each entry, in the order
/// of the entries, each keyed by the identifier of its entry. A closed menu
/// holds the button and nothing else. Either way the button announces the
/// flag as `aria-expanded` and reports clicks through `toggle`.
pub proof fn lemma_dropdown_follows_open_flag(props: ProfileMenuPropsView)
    ensures
        profile_menu_markup(props).at(0) == profile_button_markup(props),
        profile_button_markup(props).value_of("aria-expanded") == Some(flag_text(props.is_open)),
        profile_button_markup(props)->listeners == seq![
            (Listener { event: DomEvent::Click, handler: props.toggle }),
        ],
        !props.is_open ==> profile_menu_markup(props).child_nodes().len() == 1,
        props.is_open ==> ({
            &&& profile_menu_markup(props).child_nodes().len() == 2
            &&& profile_menu_markup(props).at(1) == dropdown_markup(props)
        }),
        dropdown_markup(props).child_nodes().len() == props.items.len(),
        forall|i: int|
            0 <= i < props.items.len() ==> ({
                let item = #[trigger] dropdown_markup(props).at(i);
                &&& item == dropdown_entry_markup(props.items[i], props.item_style, props.item_class)
                &&& item->key == Some(props.items[i].id)
            }),
{
    reveal_strlit("aria-expanded");
    reveal_strlit("style");
    reveal_strlit("class");
    assert("aria-expanded"@.len() == 13 && "style"@.len() == 5 && "class"@.len() == 5);
    let announced = tag("button").listening(DomEvent::Click, props.toggle).attribute(
        "aria-haspopup",
        "true"@,
    );
    let expanded = announced.attribute("aria-expanded", flag_text(props.is_open));
    let styled = expanded.attribute("style", props.button_style);
    lemma_attribute_added(announced, "aria-expanded", flag_text(props.is_open), "aria-expanded");
    lemma_attribute_added(expanded, "style", props.button_style, "aria-expanded");
    lemma_attribute_added(styled, "class", props.button_class, "aria-expanded");
    assert(profile_button_markup(props)->listeners =~= seq![
        Listener { event: DomEvent::Click, handler: props.toggle },
    ]);
}

/// The fallback letter is one character: the first of the profile text, or
/// `P` where there is none.
pub proof fn lemma_fallback_letter(profile_text: Seq<char>)
    ensures
        fallback_letter(profile_text).len() == 1,
        fallback_letter(profile_text)[0] == (if profile_text.len() > 0 {
            profile_text[0]
        } else {
            'P'
        }),
{
}

/// Wrapper, button and avatar have the styles and classes given for them,
/// and so have the dropdown list and each of its items.
pub proof fn lemma_profile_menu_styles(props: ProfileMenuPropsView)
    ensures
        profile_menu_markup(props).styled(props.wrapper_style, props.wrapper_class),
        profile_button_markup(props).styled(props.button_style, props.button_class),
        avatar_markup(props).styled(
            if props.profile_image_url is Some {
                props.avatar_img_style
            } else {
                props.avatar_fallback_style
            },
            props.avatar_class,
        ),
        profile_button_markup(props).at(0) == avatar_markup(props),
        dropdown_markup(props).styled(props.dropdown_style, props.dropdown_class),
        forall|i: int|
            0 <= i < props.items.len() ==> (#[trigger] dropdown_markup(props).at(i)).styled(
                props.item_style,
                props.item_class,
            ),
{
    lemma_style_then_class(tag("div"), props.wrapper_style, props.wrapper_class);
    lemma_style_then_class(
        tag("button").listening(DomEvent::Click, props.toggle).attribute(
            "aria-haspopup",
            "true"@,
        ).attribute("aria-expanded", flag_text(props.is_open)),
        props.button_style,
        props.button_class,
    );
    match props.profile_image_url {
        Some(url) => {
            lemma_style_then_class(
                tag("img").attribute("src", url).attribute("alt", "Profile"@),
                props.avatar_img_style,
                props.avatar_class,
            );
        },
        None => {
            lemma_style_then_class(tag("div"), props.avatar_fallback_style, props.avatar_class);
        },
    }
    lemma_style_then_class(tag("ul"), props.dropdown_style, props.dropdown_class);
    assert forall|i: int| 0 <= i < props.items.len() implies (#[trigger] dropdown_markup(
        props,
    ).at(i)).styled(props.item_style, props.item_class) by {
        lemma_style_then_class(
            tag("li").keyed(props.items[i].id),
            props.item_style,
            props.item_class,
        );
    }
}

fn fallback_text(profile_text: &str) -> (letter: String)
    ensures
        letter@ == fallback_letter(profile_text@),
{
    if profile_text.is_empty() {
        proof {
            reveal_strlit("P");
            assert("P"@ =~= seq!['P']);
        }
        "P".to_owned()
    } else {
        profile_text.substring_char(0, 1).to_owned()
    }
}

fn flag_str(flag: bool) -> (s: &'static str)
    ensures
        s@ == flag_text(flag),
{
    if flag {
        "true"
    } else {
        "false"
    }
}

impl ProfileMenuProps {
    /// The properties of a profile menu with the given entries, open flag
    /// and click report, and every other property at its default.
    pub fn new(items: Vec<DropdownItem>, is_open: bool, toggle: Handler) -> (props:
        ProfileMenuProps)
        ensures
            props@ == ProfileMenuPropsView::with_defaults(
                dropdown_item_views(items@),
                is_open,
                toggle,
            ),
    {
        ProfileMenuProps {
            items,
            dropdown_style: "position: absolute; top: 100%; left: 0; background: white; box-shadow: 0 4px 8px rgba(0,0,0,0.1); z-index: 1000;",
            item_style: "padding: 0.5rem 1rem; white-space: nowrap;",
            wrapper_style: "position: relative; display: inline-block; margin: 0 0 0 1rem;",
            button_style: "background: none; border: none; cursor: pointer;",
            avatar_img_style: "width: 40px; height: 40px; border-radius: 50%; object-fit: cover;",
            avatar_fallback_style: "width: 40px; height: 40px; border-radius: 50%; background-color: #ccc; color: #fff; display: flex; align-items: center; justify-content: center; font-weight: bold;",
            profile_text: "Profile",
            profile_image_url: None,
            is_open,
            toggle,
            dropdown_class: String::new(),
            item_class: String::new(),
            wrapper_class: String::new(),
            avatar_class: String::new(),
            button_class: String::new(),
        }
    }
}

/// Renders the profile menu.
#[allow(non_snake_case)]
pub fn ProfileMenu(props: ProfileMenuProps) -> (node: Node)
    ensures
        node@ == profile_menu_markup(props@),
{
    let avatar = match &props.profile_image_url {
        Some(url) => Node::tag("img").attribute("src", url.as_str()).attribute(
            "alt",
            "Profile",
        ).attribute("style", props.avatar_img_style).attribute(
            "class",
            props.avatar_class.as_str(),
        ),
        None => {
            let letter = fallback_text(props.profile_text);
            Node::tag("div").attribute("style", props.avatar_fallback_style).attribute(
                "class",
                props.avatar_class.as_str(),
            ).child(Node::text(letter.as_str()))
        },
    };
    let button = Node::tag("button").listening(DomEvent::Click, props.toggle).attribute(
        "aria-haspopup",
        "true",
    ).attribute("aria-expanded", flag_str(props.is_open)).attribute(
        "style",
        props.button_style,
    ).attribute("class", props.button_class.as_str()).child(avatar);
    let closed = Node::tag("div").attribute("style", props.wrapper_style).attribute(
        "class",
        props.wrapper_class.as_str(),
    ).child(button);
    if props.is_open {
        let entries = dropdown_entries(props.items, props.item_style, props.item_class.as_str());
        closed.child(
            Node::tag("ul").attribute("style", props.dropdown_style).attribute(
                "class",
                props.dropdown_class.as_str(),
            ).children(entries),
        )
    } else {
        closed
    }
}

} // verus!
