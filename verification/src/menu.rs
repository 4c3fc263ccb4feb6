//! The menu: a list of links, each with optional icons around its name.

use crate::markup::{
    lemma_style_then_class, node_views, option_view, tag, text, Markup, Node,
};
use vstd::prelude::*;

verus! {

/// An entry of the menu.
#[derive(Clone, Debug, PartialEq)]
pub struct Menu {
    /// Unique identifier of the entry; the key of its list item.
    pub id: usize,
    /// The name shown.
    pub name: &'static str,
    /// Where the entry leads.
    pub link: &'static str,
    /// Icon shown before the name.
    pub icon_start: Option<Node>,
    /// Icon shown after the name.
    pub icon_end: Option<Node>,
}

/// The value of a [`Menu`].
pub struct MenuView {
    pub id: usize,
    pub name: Seq<char>,
    pub link: Seq<char>,
    pub icon_start: Option<Markup>,
    pub icon_end: Option<Markup>,
}

impl View for Menu {
    type V = MenuView;

    open spec fn view(&self) -> MenuView {
        MenuView {
            id: self.id,
            name: self.name@,
            link: self.link@,
            icon_start: option_view(self.icon_start),
            icon_end: option_view(self.icon_end),
        }
    }
}

/// The values of a run of menu entries, in order.
pub open spec fn menu_views(menus: Seq<Menu>) -> Seq<MenuView> {
    menus.map_values(|menu: Menu| menu@)
}

/// Properties for rendering a menu.
#[derive(Clone, Debug, PartialEq)]
pub struct MenuProps {
    /// The entries, in the order in which they are shown.
    pub menus: Vec<Menu>,
    /// Style of the link of each entry.
    pub menu_item_style: &'static str,
    /// Style of the list.
    pub list_style: &'static str,
    /// Class of the link of each entry.
    pub menu_item_class: String,
    /// Class of the list.
    pub list_class: String,
}

/// The value of [`MenuProps`].
pub struct MenuPropsView {
    pub menus: Seq<MenuView>,
    pub menu_item_style: Seq<char>,
    pub list_style: Seq<char>,
    pub menu_item_class: Seq<char>,
    pub list_class: Seq<char>,
}

impl View for MenuProps {
    type V = MenuPropsView;

    open spec fn view(&self) -> MenuPropsView {
        MenuPropsView {
            menus: menu_views(self.menus@),
            menu_item_style: self.menu_item_style@,
            list_style: self.list_style@,
            menu_item_class: self.menu_item_class@,
            list_class: self.list_class@,
        }
    }
}

impl MenuPropsView {
    /// The properties of a menu with the given entries and every other
    /// property at its default.
    pub open spec fn with_defaults(menus: Seq<MenuView>) -> MenuPropsView {
        MenuPropsView {
            menus,
            menu_item_style: "padding: 0.5rem 1rem; text-decoration: none; color: black;"@,
            list_style: "display: flex; gap: 1rem; list-style: none; margin: 0; padding: 0;"@,
            menu_item_class: Seq::empty(),
            list_class: Seq::empty(),
        }
    }
}

/// One entry of the menu: a list item keyed by the entry's identifier,
/// holding a link with the name between the icons. A missing icon leaves
/// nothing in its place.
pub open spec fn menu_entry_markup(menu: MenuView, style: Seq<char>, class: Seq<char>) -> Markup {
    tag("li").keyed(menu.id).child(
        tag("a").attribute("href", menu.link).attribute("style", style).attribute(
            "class",
            class,
        ).optional_child(menu.icon_start).child(text(menu.name)).optional_child(menu.icon_end),
    )
}

/// The entries of the menu, in the order given.
pub open spec fn menu_entries_markup(
    menus: Seq<MenuView>,
    style: Seq<char>,
    class: Seq<char>,
) -> Seq<Markup> {
    menus.map_values(|menu: MenuView| menu_entry_markup(menu, style, class))
}

/// The menu as markup: the list with one item for each entry, in the order
/// given.
pub open spec fn menu_markup(props: MenuPropsView) -> Markup {
    tag("ul").attribute("style", props.list_style).attribute("class", props.list_class).children(
        menu_entries_markup(props.menus, props.menu_item_style, props.menu_item_class),
    )
}

/// The list has the style and class given for the list. It holds one item
/// for each entry, in the order of the entries, each keyed by the identifier
/// of its entry, and the link in each item has the style and class given for
/// the links.
pub proof fn lemma_menu_layout(props: MenuPropsView)
    ensures
        menu_markup(props).styled(props.list_style, props.list_class),
        menu_markup(props).child_nodes().len() == props.menus.len(),
        forall|i: int|
            0 <= i < props.menus.len() ==> ({
                let item = #[trigger] menu_markup(props).at(i);
                &&& item == menu_entry_markup(
                    props.menus[i],
                    props.menu_item_style,
                    props.menu_item_class,
                )
                &&& item->key == Some(props.menus[i].id)
                &&& item.at(0).styled(props.menu_item_style, props.menu_item_class)
            }),
{
    lemma_style_then_class(tag("ul"), props.list_style, props.list_class);
    assert forall|i: int| 0 <= i < props.menus.len() implies {
        let item = #[trigger] menu_markup(props).at(i);
        &&& item == menu_entry_markup(props.menus[i], props.menu_item_style, props.menu_item_class)
        &&& item->key == Some(props.menus[i].id)
        &&& item.at(0).styled(props.menu_item_style, props.menu_item_class)
    } by {
        lemma_style_then_class(
            tag("a").attribute("href", props.menus[i].link),
            props.menu_item_style,
            props.menu_item_class,
        );
    }
}

fn menu_entry(menu: Menu, style: &str, class: &str) -> (node: Node)
    ensures
        node@ == menu_entry_markup(menu@, style@, class@),
{
    Node::tag("li").keyed(menu.id).child(
        Node::tag("a").attribute("href", menu.link).attribute("style", style).attribute(
            "class",
            class,
        ).optional_child(menu.icon_start).child(Node::text(menu.name)).optional_child(
            menu.icon_end,
        ),
    )
}

fn menu_entries(menus: Vec<Menu>, style: &str, class: &str) -> (nodes: Vec<Node>)
    ensures
        node_views(nodes@) == menu_entries_markup(menu_views(menus@), style@, class@),
{
    let mut nodes: Vec<Node> = Vec::new();
    for menu in it: menus
        invariant
            node_views(nodes@) == menu_entries_markup(
                menu_views(menus@.take(it.index() as int)),
                style@,
                class@,
            ),
    {
        nodes.push(menu_entry(menu, style, class));
        proof {
            broadcast use Seq::lemma_push_map_commute;

            assert(menus@.take(it.index() + 1) == menus@.take(it.index() as int).push(menu));
        }
    }
    proof {
        assert(menus@.take(menus@.len() as int) =~= menus@);
    }
    nodes
}

impl MenuProps {
    /// The properties of a menu with the given entries and every other
    /// property at its default.
    pub fn new(menus: Vec<Menu>) -> (props: MenuProps)
        ensures
            props@ == MenuPropsView::with_defaults(menu_views(menus@)),
    {
        MenuProps {
            menus,
            menu_item_style: "padding: 0.5rem 1rem; text-decoration: none; color: black;",
            list_style: "display: flex; gap: 1rem; list-style: none; margin: 0; padding: 0;",
            menu_item_class: String::new(),
            list_class: String::new(),
        }
    }
}

/// Renders the menu.
#[allow(non_snake_case)]
pub fn NavbarMenu(props: MenuProps) -> (node: Node)
    ensures
        node@ == menu_markup(props@),
{
    let entries = menu_entries(
        props.menus,
        props.menu_item_style,
        props.menu_item_class.as_str(),
    );
    Node::tag("ul").attribute("style", props.list_style).attribute(
        "class",
        props.list_class.as_str(),
    ).children(entries)
}

} // verus!
