//! The mega menu: a card that holds a link for each entry, with its title
//! and its description.

use crate::markup::{
    lemma_attribute_added, lemma_style_then_class, node_views, tag, text, Markup, Node,
};
use vstd::prelude::*;

verus! {

/// An entry of the mega menu.
#[derive(Clone, Debug, PartialEq)]
pub struct MegaMenuItem {
    /// Where the entry leads.
    pub link: &'static str,
    /// The title of the entry.
    pub title: &'static str,
    /// A short description of the entry.
    pub description: &'static str,
}

/// The value of a [`MegaMenuItem`].
pub struct MegaMenuItemView {
    pub link: Seq<char>,
    pub title: Seq<char>,
    pub description: Seq<char>,
}

impl View for MegaMenuItem {
    type V = MegaMenuItemView;

    open spec fn view(&self) -> MegaMenuItemView {
        MegaMenuItemView { link: self.link@, title: self.title@, description: self.description@ }
    }
}

/// The values of a run of mega menu entries, in order.
pub open spec fn mega_menu_item_views(items: Seq<MegaMenuItem>) -> Seq<MegaMenuItemView> {
    items.map_values(|item: MegaMenuItem| item@)
}

/// Properties for rendering a mega menu.
#[derive(Clone, Debug, PartialEq)]
pub struct MegaMenuProps {
    /// The entries, in the order in which they are shown.
    pub items: Vec<MegaMenuItem>,
    /// Style of the wrapper.
    pub wrapper_style: &'static str,
    /// Style of the card inside the wrapper.
    pub card_style: &'static str,
    /// Style of the link of each entry.
    pub item_link_style: &'static str,
    /// Class of the wrapper.
    pub wrapper_class: String,
    /// Class of the card.
    pub card_class: String,
    /// Class of the link of each entry.
    pub item_class: String,
}

/// The value of [`MegaMenuProps`].
pub struct MegaMenuPropsView {
    pub items: Seq<MegaMenuItemView>,
    pub wrapper_style: Seq<char>,
    pub card_style: Seq<char>,
    pub item_link_style: Seq<char>,
    pub wrapper_class: Seq<char>,
    pub card_class: Seq<char>,
    pub item_class: Seq<char>,
}

impl View for MegaMenuProps {
    type V = MegaMenuPropsView;

    open spec fn view(&self) -> MegaMenuPropsView {
        MegaMenuPropsView {
            items: mega_menu_item_views(self.items@),
            wrapper_style: self.wrapper_style@,
            card_style: self.card_style@,
            item_link_style: self.item_link_style@,
            wrapper_class: self.wrapper_class@,
            card_class: self.card_class@,
            item_class: self.item_class@,
        }
    }
}

impl MegaMenuPropsView {
    /// The properties of a mega menu with the given entries and every other
    /// property at its default.
    pub open spec fn with_defaults(items: Seq<MegaMenuItemView>) -> MegaMenuPropsView {
        MegaMenuPropsView {
            items,
            wrapper_style: "position: absolute; top: 60px; left: 0; z-index: 999;"@,
            card_style: "background: white; display: flex; gap: 2rem; padding: 1rem; box-shadow: 0 2px 8px rgba(0,0,0,0.1);"@,
            item_link_style: "text-decoration: none; color: black;"@,
            wrapper_class: Seq::empty(),
            card_class: Seq::empty(),
            item_class: Seq::empty(),
        }
    }
}

/// One entry of the mega menu: a link around the title, in bold, and the
/// description.
pub open spec fn mega_menu_entry_markup(
    item: MegaMenuItemView,
    style: Seq<char>,
    class: Seq<char>,
) -> Markup {
    tag("a").attribute("href", item.link).attribute("style", style).attribute(
        "class",
        class,
    ).child(
        tag("div").child(tag("p").child(tag("strong").child(text(item.title)))).child(
            tag("p").child(text(item.description)),
        ),
    )
}

/// The entries of the mega menu, in the order given.
pub open spec fn mega_menu_entries_markup(
    items: Seq<MegaMenuItemView>,
    style: Seq<char>,
    class: Seq<char>,
) -> Seq<Markup> {
    items.map_values(|item: MegaMenuItemView| mega_menu_entry_markup(item, style, class))
}

/// The mega menu as markup: the wrapper around the card, and in the card
/// every entry, in the order given.
pub open spec fn mega_menu_markup(props: MegaMenuPropsView) -> Markup {
    tag("div").attribute("style", props.wrapper_style).attribute(
        "class",
        props.wrapper_class,
    ).child(
        tag("div").attribute("style", props.card_style).attribute(
            "class",
            props.card_class,
        ).children(mega_menu_entries_markup(props.items, props.item_link_style, props.item_class)),
    )
}

/// The wrapper and the card have the styles and classes given for them. The
/// card holds one link for each entry, in the order of the entries, with the
/// style and class given for the links; each link leads where its entry
/// leads and shows the title and the description of its entry.
pub proof fn lemma_mega_menu_layout(props: MegaMenuPropsView)
    ensures
        mega_menu_markup(props).styled(props.wrapper_style, props.wrapper_class),
        mega_menu_markup(props).at(0).styled(props.card_style, props.card_class),
        mega_menu_markup(props).at(0).child_nodes().len() == props.items.len(),
        forall|i: int|
            0 <= i < props.items.len() ==> ({
                let link = #[trigger] mega_menu_markup(props).at(0).at(i);
                &&& link == mega_menu_entry_markup(
                    props.items[i],
                    props.item_link_style,
                    props.item_class,
                )
                &&& link.styled(props.item_link_style, props.item_class)
                &&& link.value_of("href") == Some(props.items[i].link)
                &&& link.at(0).at(0).at(0).at(0) == text(props.items[i].title)
                &&& link.at(0).at(1).at(0) == text(props.items[i].description)
            }),
{
    lemma_style_then_class(tag("div"), props.wrapper_style, props.wrapper_class);
    lemma_style_then_class(tag("div"), props.card_style, props.card_class);
    assert forall|i: int| 0 <= i < props.items.len() implies {
        let link = #[trigger] mega_menu_markup(props).at(0).at(i);
        &&& link == mega_menu_entry_markup(props.items[i], props.item_link_style, props.item_class)
        &&& link.styled(props.item_link_style, props.item_class)
        &&& link.value_of("href") == Some(props.items[i].link)
        &&& link.at(0).at(0).at(0).at(0) == text(props.items[i].title)
        &&& link.at(0).at(1).at(0) == text(props.items[i].description)
    } by {
        let bare = tag("a");
        let linked = bare.attribute("href", props.items[i].link);
        let styled = linked.attribute("style", props.item_link_style);
        lemma_style_then_class(linked, props.item_link_style, props.item_class);
        reveal_strlit("href");
        reveal_strlit("style");
        reveal_strlit("class");
        assert("href"@.len() == 4 && "style"@.len() == 5 && "class"@.len() == 5);
        lemma_attribute_added(bare, "href", props.items[i].link, "href");
        lemma_attribute_added(linked, "style", props.item_link_style, "href");
        lemma_attribute_added(styled, "class", props.item_class, "href");
    }
}

fn mega_menu_entry(item: &MegaMenuItem, style: &str, class: &str) -> (node: Node)
    ensures
        node@ == mega_menu_entry_markup(item@, style@, class@),
{
    Node::tag("a").attribute("href", item.link).attribute("style", style).attribute(
        "class",
        class,
    ).child(
        Node::tag("div").child(
            Node::tag("p").child(Node::tag("strong").child(Node::text(item.title))),
        ).child(Node::tag("p").child(Node::text(item.description))),
    )
}

fn mega_menu_entries(items: &Vec<MegaMenuItem>, style: &str, class: &str) -> (nodes: Vec<Node>)
    ensures
        node_views(nodes@) == mega_menu_entries_markup(
            mega_menu_item_views(items@),
            style@,
            class@,
        ),
{
    let mut nodes: Vec<Node> = Vec::new();
    let mut i: usize = 0;
    while i < items.len()
        invariant
            i <= items.len(),
            node_views(nodes@) == mega_menu_entries_markup(
                mega_menu_item_views(items@.take(i as int)),
                style@,
                class@,
            ),
        decreases items.len() - i,
    {
        nodes.push(mega_menu_entry(&items[i], style, class));
        proof {
            broadcast use Seq::lemma_push_map_commute;

            assert(items@.take(i + 1) == items@.take(i as int).push(items@[i as int]));
        }
        i += 1;
    }
    proof {
        assert(items@.take(items@.len() as int) =~= items@);
    }
    nodes
}

impl MegaMenuProps {
    /// The properties of a mega menu with the given entries and every other
    /// property at its default.
    pub fn new(items: Vec<MegaMenuItem>) -> (props: MegaMenuProps)
        ensures
            props@ == MegaMenuPropsView::with_defaults(mega_menu_item_views(items@)),
    {
        MegaMenuProps {
            items,
            wrapper_style: "position: absolute; top: 60px; left: 0; z-index: 999;",
            card_style: "background: white; display: flex; gap: 2rem; padding: 1rem; box-shadow: 0 2px 8px rgba(0,0,0,0.1);",
            item_link_style: "text-decoration: none; color: black;",
            wrapper_class: String::new(),
            card_class: String::new(),
            item_class: String::new(),
        }
    }
}

/// Renders the mega menu.
#[allow(non_snake_case)]
pub fn MegaMenu(props: MegaMenuProps) -> (node: Node)
    ensures
        node@ == mega_menu_markup(props@),
{
    let entries = mega_menu_entries(
        &props.items,
        props.item_link_style,
        props.item_class.as_str(),
    );
    Node::tag("div").attribute("style", props.wrapper_style).attribute(
        "class",
        props.wrapper_class.as_str(),
    ).child(
        Node::tag("div").attribute("style", props.card_style).attribute(
            "class",
            props.card_class.as_str(),
        ).children(entries),
    )
}

} // verus!
