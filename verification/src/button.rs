//! The call-to-action button: a link styled as a button.

use crate::markup::{lemma_style_then_class, tag, text, Markup, Node};
use vstd::prelude::*;

verus! {

/// Properties for rendering the call-to-action button.
#[derive(Clone, Debug, PartialEq)]
pub struct ButtonProps {
    /// Where the button leads.
    pub href: &'static str,
    /// The text on the button.
    pub text: &'static str,
    /// Style of the box around the link.
    pub button_style: &'static str,
    /// Style of the link.
    pub link_style: &'static str,
    /// Target of the link, such as `_blank` or `_self`.
    pub target: &'static str,
    /// Class of the box around the link.
    pub button_class: String,
    /// Class of the link.
    pub link_class: String,
}

/// The value of [`ButtonProps`].
pub struct ButtonPropsView {
    pub href: Seq<char>,
    pub text: Seq<char>,
    pub button_style: Seq<char>,
    pub link_style: Seq<char>,
    pub target: Seq<char>,
    pub button_class: Seq<char>,
    pub link_class: Seq<char>,
}

impl View for ButtonProps {
    type V = ButtonPropsView;

    open spec fn view(&self) -> ButtonPropsView {
        ButtonPropsView {
            href: self.href@,
            text: self.text@,
            button_style: self.button_style@,
            link_style: self.link_style@,
            target: self.target@,
            button_class: self.button_class@,
            link_class: self.link_class@,
        }
    }
}

impl ButtonPropsView {
    /// The properties of a button with every property at its default.
    pub open spec fn defaults() -> ButtonPropsView {
        ButtonPropsView {
            href: "#"@,
            text: "Click Me"@,
            button_style: "padding: 0.5rem 1rem; background-color: #007bff; border-radius: 4px;"@,
            link_style: "color: white; text-decoration: none;"@,
            target: "_self"@,
            button_class: Seq::empty(),
            link_class: Seq::empty(),
        }
    }
}

/// The button as markup: a box around a link with the text.
pub open spec fn button_markup(props: ButtonPropsView) -> Markup {
    tag("div").attribute("style", props.button_style).attribute(
        "class",
        props.button_class,
    ).child(
        tag("a").attribute("href", props.href).attribute("target", props.target).attribute(
            "style",
            props.link_style,
        ).attribute("class", props.link_class).child(text(props.text)),
    )
}

/// The box has the style and class given for the button, the link those
/// given for the link.
pub proof fn lemma_button_styles(props: ButtonPropsView)
    ensures
        button_markup(props).styled(props.button_style, props.button_class),
        button_markup(props).at(0).styled(props.link_style, props.link_class),
{
    lemma_style_then_class(tag("div"), props.button_style, props.button_class);
    lemma_style_then_class(
        tag("a").attribute("href", props.href).attribute("target", props.target),
        props.link_style,
        props.link_class,
    );
}

impl Default for ButtonProps {
    /// The properties of a button with every property at its default.
    fn default() -> (props: ButtonProps)
        ensures
            props@ == ButtonPropsView::defaults(),
    {
        ButtonProps {
            href: "#",
            text: "Click Me",
            button_style: "padding: 0.5rem 1rem; background-color: #007bff; border-radius: 4px;",
            link_style: "color: white; text-decoration: none;",
            target: "_self",
            button_class: String::new(),
            link_class: String::new(),
        }
    }
}

/// Renders the call-to-action button. Whether there is a button at all is
/// for the caller to decide.
#[allow(non_snake_case)]
pub fn NavbarButton(props: ButtonProps) -> (node: Node)
    ensures
        node@ == button_markup(props@),
{
    Node::tag("div").attribute("style", props.button_style).attribute(
        "class",
        props.button_class.as_str(),
    ).child(
        Node::tag("a").attribute("href", props.href).attribute("target", props.target).attribute(
            "style",
            props.link_style,
        ).attribute("class", props.link_class.as_str()).child(Node::text(props.text)),
    )
}

} // verus!
