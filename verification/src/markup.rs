//! The markup tree that the components render, and its mathematical value.
//!
//! A [`Node`] is what runs: it owns its strings and its children. A
//! [`Markup`] is what the contracts speak about: the same tree over
//! sequences. `node@` goes from the first to the second.
//!
//! Both are built the same way, from a bare tag by adding attributes,
//! listeners and children one after the other, so that a component's
//! contract and its body read alike.

use vstd::prelude::*;

verus! {

/// The kind of browser event that a listener waits for.
#[derive(Clone, Copy, Debug, PartialEq, Eq, Structural)]
pub enum DomEvent {
    Click,
    MouseEnter,
    MouseLeave,
    Input,
}

/// What a listener asks the navigation bar to do when its event arrives.
#[derive(Clone, Copy, Debug, PartialEq, Eq, Structural)]
pub enum Handler {
    /// Invert the open flag of the mobile menu.
    ToggleMobileMenu,
    /// Invert the open flag of the profile dropdown.
    ToggleDropdown,
    /// Open the mega menu panel.
    OpenMegaMenu,
    /// Close the mega menu panel.
    CloseMegaMenu,
    /// Take over the current value of the search input.
    UpdateSearch,
}

/// An event listener attached to an element.
#[derive(Clone, Copy, Debug, PartialEq, Eq, Structural)]
pub struct Listener {
    pub event: DomEvent,
    pub handler: Handler,
}

/// One attribute of an element.
#[derive(Debug, PartialEq, Eq)]
pub struct Attribute {
    pub name: &'static str,
    pub value: String,
}

/// The value of an attribute: its name and its text.
pub type AttributeView = (Seq<char>, Seq<char>);

impl View for Attribute {
    type V = AttributeView;

    open spec fn view(&self) -> AttributeView {
        (self.name@, self.value@)
    }
}

/// A rendered node: an element with its attributes, listeners and children,
/// or a run of text.
#[derive(Debug, PartialEq, Eq)]
pub enum Node {
    Element {
        tag: &'static str,
        key: Option<usize>,
        attributes: Vec<Attribute>,
        listeners: Vec<Listener>,
        children: Vec<Node>,
    },
    Text(String),
}

/// The mathematical value of a rendered node.
#[verifier::ext_equal]
pub enum Markup {
    Element {
        tag: Seq<char>,
        key: Option<usize>,
        attributes: Seq<AttributeView>,
        listeners: Seq<Listener>,
        children: Seq<Markup>,
    },
    Text(Seq<char>),
}

impl View for Node {
    type V = Markup;

    /// The same tree over sequences. The children are taken one by one, so
    /// that the definition is seen to end; [`lemma_element_view`] says the
    /// same with [`node_views`].
    open spec fn view(&self) -> Markup
        decreases self, 0nat,
    {
        match self {
            Node::Element { tag, key, attributes, listeners, children } => Markup::Element {
                tag: tag@,
                key: *key,
                attributes: attribute_views(attributes@),
                listeners: listeners@,
                children: first_views(children@, children@.len()),
            },
            Node::Text(text) => Markup::Text(text@),
        }
    }
}

/// The values of the first `n` of `nodes`, in order.
pub open spec fn first_views(nodes: Seq<Node>, n: nat) -> Seq<Markup>
    decreases nodes, n,
{
    if 0 < n <= nodes.len() {
        first_views(nodes, (n - 1) as nat).push(nodes[n - 1].view())
    } else {
        Seq::empty()
    }
}

/// The values of a run of attributes, in order.
pub open spec fn attribute_views(attributes: Seq<Attribute>) -> Seq<AttributeView> {
    attributes.map_values(|a: Attribute| a@)
}

/// The values of a run of nodes, in order.
pub open spec fn node_views(nodes: Seq<Node>) -> Seq<Markup> {
    nodes.map_values(|n: Node| n@)
}

/// The value of a node that may be missing.
pub open spec fn option_view(node: Option<Node>) -> Option<Markup> {
    match node {
        Some(node) => Some(node@),
        None => None,
    }
}

/// A bare element: no key, attributes, listeners or children.
pub open spec fn tag(name: &str) -> Markup {
    Markup::Element {
        tag: name@,
        key: None,
        attributes: Seq::empty(),
        listeners: Seq::empty(),
        children: Seq::empty(),
    }
}

/// A run of text.
pub open spec fn text(content: Seq<char>) -> Markup {
    Markup::Text(content)
}

impl Markup {
    /// The same element with one more attribute, after those it has.
    /// Text stays as it is, here and in the functions below.
    pub open spec fn attribute(self, name: &str, value: Seq<char>) -> Markup {
        match self {
            Markup::Element { tag, key, attributes, listeners, children } => Markup::Element {
                tag,
                key,
                attributes: attributes.push((name@, value)),
                listeners,
                children,
            },
            Markup::Text(content) => Markup::Text(content),
        }
    }

    /// The same element under the given key.
    pub open spec fn keyed(self, key: usize) -> Markup {
        match self {
            Markup::Element { tag, key: _, attributes, listeners, children } => Markup::Element {
                tag,
                key: Some(key),
                attributes,
                listeners,
                children,
            },
            Markup::Text(content) => Markup::Text(content),
        }
    }

    /// The same element with one more listener, after those it has.
    pub open spec fn listening(self, event: DomEvent, handler: Handler) -> Markup {
        match self {
            Markup::Element { tag, key, attributes, listeners, children } => Markup::Element {
                tag,
                key,
                attributes,
                listeners: listeners.push(Listener { event, handler }),
                children,
            },
            Markup::Text(content) => Markup::Text(content),
        }
    }

    /// The same element with one more child, after those it has.
    pub open spec fn child(self, child: Markup) -> Markup {
        match self {
            Markup::Element { tag, key, attributes, listeners, children } => Markup::Element {
                tag,
                key,
                attributes,
                listeners,
                children: children.push(child),
            },
            Markup::Text(content) => Markup::Text(content),
        }
    }

    /// The same element with more children, after those it has.
    pub open spec fn children(self, more: Seq<Markup>) -> Markup {
        match self {
            Markup::Element { tag, key, attributes, listeners, children } => Markup::Element {
                tag,
                key,
                attributes,
                listeners,
                children: children + more,
            },
            Markup::Text(content) => Markup::Text(content),
        }
    }

    /// The same element with the child, if there is one.
    pub open spec fn optional_child(self, child: Option<Markup>) -> Markup {
        match child {
            Some(child) => self.child(child),
            None => self,
        }
    }

    /// The children of an element, in order. Text has none.
    pub open spec fn child_nodes(self) -> Seq<Markup> {
        match self {
            Markup::Element { children, .. } => children,
            Markup::Text(_) => Seq::empty(),
        }
    }

    /// The child at position `i`, counted from 0.
    pub open spec fn at(self, i: int) -> Markup
        recommends
            0 <= i < self.child_nodes().len(),
    {
        self.child_nodes()[i]
    }

    /// The text of the attribute with the given name, if the element has
    /// one. Of two attributes with one name the later counts.
    pub open spec fn value_of(self, name: &str) -> Option<Seq<char>> {
        match self {
            Markup::Element { attributes, .. } => attribute_value(attributes, name@),
            Markup::Text(_) => None,
        }
    }

    /// The element has the given inline style and the given class.
    pub open spec fn styled(self, style: Seq<char>, class: Seq<char>) -> bool {
        self.value_of("style") == Some(style) && self.value_of("class") == Some(class)
    }
}

/// The text of the last of `attributes` that has the given name.
pub open spec fn attribute_value(attributes: Seq<AttributeView>, name: Seq<char>) -> Option<
    Seq<char>,
>
    decreases attributes.len(),
{
    if attributes.len() == 0 {
        None
    } else if attributes.last().0 == name {
        Some(attributes.last().1)
    } else {
        attribute_value(attributes.drop_last(), name)
    }
}

/// An element that is given a style and then a class has that style and
/// that class.
pub proof fn lemma_style_then_class(base: Markup, style: Seq<char>, class: Seq<char>)
    requires
        base is Element,
    ensures
        base.attribute("style", style).attribute("class", class).styled(style, class),
{
    reveal_strlit("style");
    reveal_strlit("class");
    assert("style"@[0] != "class"@[0]);
    reveal_with_fuel(attribute_value, 2);
    let attributes = base->attributes.push(("style"@, style));
    assert(attributes.push(("class"@, class)).drop_last() =~= attributes);
}

/// An attribute is found under its name once it is added, and adding it
/// leaves the attributes under other names as they were.
pub proof fn lemma_attribute_added(m: Markup, name: &str, value: Seq<char>, other: &str)
    requires
        m is Element,
    ensures
        m.attribute(name, value).value_of(name) == Some(value),
        other@ != name@ ==> m.attribute(name, value).value_of(other) == m.value_of(other),
{
    let attributes = m->attributes;
    assert(attributes.push((name@, value)).drop_last() =~= attributes);
}

/// An attribute under another name leaves style and class as they were.
pub proof fn lemma_attribute_keeps_style(m: Markup, name: &str, value: Seq<char>)
    requires
        m is Element,
        name@ != "style"@,
        name@ != "class"@,
    ensures
        m.attribute(name, value).value_of("style") == m.value_of("style"),
        m.attribute(name, value).value_of("class") == m.value_of("class"),
{
    lemma_attribute_added(m, name, value, "style");
    lemma_attribute_added(m, name, value, "class");
}

/// The value of an element is made of the values of its parts: its children
/// are the values of the node's children, one for one.
pub proof fn lemma_element_view(node: Node)
    requires
        node is Element,
    ensures
        node@ == (Markup::Element {
            tag: node->tag@,
            key: node->key,
            attributes: attribute_views(node->attributes@),
            listeners: node->listeners@,
            children: node_views(node->children@),
        }),
{
    let children = node->children@;
    lemma_first_views(children, children.len());
    assert(children.take(children.len() as int) =~= children);
}

proof fn lemma_first_views(nodes: Seq<Node>, n: nat)
    requires
        n <= nodes.len(),
    ensures
        first_views(nodes, n) =~= node_views(nodes.take(n as int)),
    decreases n,
{
    broadcast use Seq::lemma_push_map_commute;

    if n > 0 {
        lemma_first_views(nodes, (n - 1) as nat);
        assert(nodes.take(n as int) == nodes.take(n - 1).push(nodes[n - 1]));
    }
}

impl Clone for Attribute {
    /// A copy of the attribute, equal in value.
    fn clone(&self) -> (attribute: Attribute)
        ensures
            attribute@ == self@,
    {
        Attribute { name: self.name, value: self.value.clone() }
    }
}

impl Clone for Node {
    /// A copy of the whole tree, equal in value.
    fn clone(&self) -> (node: Node)
        ensures
            node@ == self@,
        decreases self,
    {
        match self {
            Node::Element { tag, key, attributes, listeners, children } => {
                let mut new_attributes: Vec<Attribute> = Vec::new();
                let mut i: usize = 0;
                while i < attributes.len()
                    invariant
                        i <= attributes.len(),
                        attribute_views(new_attributes@) == attribute_views(
                            attributes@.take(i as int),
                        ),
                    decreases attributes.len() - i,
                {
                    new_attributes.push(attributes[i].clone());
                    proof {
                        broadcast use Seq::lemma_push_map_commute;

                        assert(attributes@.take(i + 1) == attributes@.take(i as int).push(
                            attributes@[i as int],
                        ));
                    }
                    i += 1;
                }
                let mut new_listeners: Vec<Listener> = Vec::new();
                let mut j: usize = 0;
                while j < listeners.len()
                    invariant
                        j <= listeners.len(),
                        new_listeners@ == listeners@.take(j as int),
                    decreases listeners.len() - j,
                {
                    new_listeners.push(listeners[j]);
                    assert(listeners@.take(j + 1) == listeners@.take(j as int).push(
                        listeners@[j as int],
                    ));
                    j += 1;
                }
                let mut new_children: Vec<Node> = Vec::new();
                let mut k: usize = 0;
                while k < children.len()
                    invariant
                        k <= children.len(),
                        self is Element,
                        self->children == *children,
                        node_views(new_children@) == node_views(children@.take(k as int)),
                    decreases children.len() - k,
                {
                    new_children.push(children[k].clone());
                    proof {
                        broadcast use Seq::lemma_push_map_commute;

                        assert(children@.take(k + 1) == children@.take(k as int).push(
                            children@[k as int],
                        ));
                    }
                    k += 1;
                }
                let node = Node::Element {
                    tag: *tag,
                    key: *key,
                    attributes: new_attributes,
                    listeners: new_listeners,
                    children: new_children,
                };
                proof {
                    assert(attributes@.take(attributes@.len() as int) =~= attributes@);
                    assert(listeners@.take(listeners@.len() as int) =~= listeners@);
                    assert(children@.take(children@.len() as int) =~= children@);
                    lemma_element_view(*self);
                    lemma_element_view(node);
                }
                node
            },
            Node::Text(content) => Node::Text(content.clone()),
        }
    }
}

impl Node {
    /// A bare element: no key, attributes, listeners or children.
    pub fn tag(name: &'static str) -> (node: Node)
        ensures
            node@ == tag(name),
    {
        let node = Node::Element {
            tag: name,
            key: None,
            attributes: Vec::new(),
            listeners: Vec::new(),
            children: Vec::new(),
        };
        proof {
            lemma_element_view(node);
            assert(attribute_views(node->attributes@) =~= Seq::empty());
            assert(node_views(node->children@) =~= Seq::empty());
        }
        node
    }

    /// A run of text, copied from `content`.
    pub fn text(content: &str) -> (node: Node)
        ensures
            node@ == text(content@),
    {
        Node::Text(content.to_owned())
    }

    /// The same element with one more attribute, after those it has; the
    /// text of the attribute is copied from `value`.
    pub fn attribute(self, name: &'static str, value: &str) -> (node: Node)
        ensures
            node@ == self@.attribute(name, value@),
    {
        match self {
            Node::Element { tag, key, mut attributes, listeners, children } => {
                attributes.push(Attribute { name, value: value.to_owned() });
                let node = Node::Element { tag, key, attributes, listeners, children };
                proof {
                    lemma_element_view(self);
                    lemma_element_view(node);
                    assert(attribute_views(node->attributes@) =~= attribute_views(
                        self->attributes@,
                    ).push((name@, value@)));
                }
                node
            },
            Node::Text(content) => Node::Text(content),
        }
    }

    /// The same element under the given key.
    pub fn keyed(self, key: usize) -> (node: Node)
        ensures
            node@ == self@.keyed(key),
    {
        match self {
            Node::Element { tag, key: _, attributes, listeners, children } => {
                let node = Node::Element { tag, key: Some(key), attributes, listeners, children };
                proof {
                    lemma_element_view(self);
                    lemma_element_view(node);
                }
                node
            },
            Node::Text(content) => Node::Text(content),
        }
    }

    /// The same element with one more listener, after those it has.
    pub fn listening(self, event: DomEvent, handler: Handler) -> (node: Node)
        ensures
            node@ == self@.listening(event, handler),
    {
        match self {
            Node::Element { tag, key, attributes, mut listeners, children } => {
                listeners.push(Listener { event, handler });
                let node = Node::Element { tag, key, attributes, listeners, children };
                proof {
                    lemma_element_view(self);
                    lemma_element_view(node);
                }
                node
            },
            Node::Text(content) => Node::Text(content),
        }
    }

    /// The same element with one more child, after those it has.
    pub fn child(self, child: Node) -> (node: Node)
        ensures
            node@ == self@.child(child@),
    {
        match self {
            Node::Element { tag, key, attributes, listeners, mut children } => {
                children.push(child);
                let node = Node::Element { tag, key, attributes, listeners, children };
                proof {
                    lemma_element_view(self);
                    lemma_element_view(node);
                    assert(node_views(node->children@) =~= node_views(self->children@).push(
                        child@,
                    ));
                }
                node
            },
            Node::Text(content) => Node::Text(content),
        }
    }

    /// The same element with more children, after those it has.
    pub fn children(self, more: Vec<Node>) -> (node: Node)
        ensures
            node@ == self@.children(node_views(more@)),
    {
        match self {
            Node::Element { tag, key, attributes, listeners, mut children } => {
                let mut rest = more;
                children.append(&mut rest);
                let node = Node::Element { tag, key, attributes, listeners, children };
                proof {
                    lemma_element_view(self);
                    lemma_element_view(node);
                    assert(node_views(node->children@) =~= node_views(self->children@)
                        + node_views(more@));
                }
                node
            },
            Node::Text(content) => Node::Text(content),
        }
    }

    /// The same element with the child, if there is one.
    pub fn optional_child(self, child: Option<Node>) -> (node: Node)
        ensures
            node@ == self@.optional_child(option_view(child)),
    {
        match child {
            Some(child) => self.child(child),
            None => self,
        }
    }
}

} // verus!
