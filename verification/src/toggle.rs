//! The hamburger toggle: three bars in a container that can be focused and
//! clicked.

use crate::markup::{
    lemma_attribute_keeps_style, lemma_style_then_class, tag, DomEvent, Handler, Markup, Node,
};
use vstd::prelude::*;

verus! {

/// Properties for rendering the hamburger toggle.
#[derive(Clone, Debug, PartialEq)]
pub struct ToggleProps {
    /// What a click on the toggle reports.
    pub onclick: Handler,
    /// Style of the container.
    pub toggle_style: &'static str,
    /// Style of each bar.
    pub line_style: &'static str,
    /// Class of the container.
    pub toggle_class: String,
    /// Class of each bar.
    pub line_class: String,
}

/// The value of [`ToggleProps`].
pub struct TogglePropsView {
    pub onclick: Handler,
    pub toggle_style: Seq<char>,
    pub line_style: Seq<char>,
    pub toggle_class: Seq<char>,
    pub line_class: Seq<char>,
}

impl View for ToggleProps {
    type V = TogglePropsView;

    open spec fn view(&self) -> TogglePropsView {
        TogglePropsView {
            onclick: self.onclick,
            toggle_style: self.toggle_style@,
            line_style: self.line_style@,
            toggle_class: self.toggle_class@,
            line_class: self.line_class@,
        }
    }
}

impl TogglePropsView {
    /// The properties of a toggle with the given click report and every
    /// other property at its default.
    pub open spec fn with_defaults(onclick: Handler) -> TogglePropsView {
        TogglePropsView {
            onclick,
            toggle_style: "display: flex; flex-direction: column; gap: 5px; cursor: pointer;"@,
            line_style: "width: 25px; height: 3px; background: black;"@,
            toggle_class: Seq::empty(),
            line_class: Seq::empty(),
        }
    }
}

/// One bar of the toggle.
pub open spec fn toggle_line_markup(props: TogglePropsView) -> Markup {
    tag("div").attribute("style", props.line_style).attribute("class", props.line_class)
}

/// The toggle as markup: a container that takes the keyboard focus, has the
/// role of a button and reports each click through `onclick`, around three
/// bars.
pub open spec fn toggle_markup(props: TogglePropsView) -> Markup {
    tag("div").attribute("style", props.toggle_style).attribute(
        "class",
        props.toggle_class,
    ).listening(DomEvent::Click, props.onclick).attribute("tabindex", "0"@).attribute(
        "role",
        "button"@,
    ).attribute("aria-label", "Toggle Menu"@).child(toggle_line_markup(props)).child(
        toggle_line_markup(props),
    ).child(toggle_line_markup(props))
}

/// The container has the style and class given for the toggle, and there
/// are three bars, each with the style and class given for the bars.
pub proof fn lemma_toggle_styles(props: TogglePropsView)
    ensures
        toggle_markup(props).styled(props.toggle_style, props.toggle_class),
        toggle_markup(props).child_nodes().len() == 3,
        forall|k: int|
            0 <= k < 3 ==> (#[trigger] toggle_markup(props).at(k)).styled(
                props.line_style,
                props.line_class,
            ),
{
    lemma_style_then_class(tag("div"), props.line_style, props.line_class);
    lemma_style_then_class(tag("div"), props.toggle_style, props.toggle_class);
    reveal_strlit("style");
    reveal_strlit("class");
    reveal_strlit("tabindex");
    reveal_strlit("role");
    reveal_strlit("aria-label");
    assert("tabindex"@.len() == 8 && "role"@.len() == 4 && "aria-label"@.len() == 10);
    assert("style"@.len() == 5 && "class"@.len() == 5);
    let styled = tag("div").attribute("style", props.toggle_style).attribute(
        "class",
        props.toggle_class,
    ).listening(DomEvent::Click, props.onclick);
    let focusable = styled.attribute("tabindex", "0"@);
    let button = focusable.attribute("role", "button"@);
    lemma_attribute_keeps_style(styled, "tabindex", "0"@);
    lemma_attribute_keeps_style(focusable, "role", "button"@);
    lemma_attribute_keeps_style(button, "aria-label", "Toggle Menu"@);
}

fn toggle_line(props: &ToggleProps) -> (node: Node)
    ensures
        node@ == toggle_line_markup(props@),
{
    Node::tag("div").attribute("style", props.line_style).attribute(
        "class",
        props.line_class.as_str(),
    )
}

impl ToggleProps {
    /// The properties of a toggle with the given click report and every
    /// other property at its default.
    pub fn new(onclick: Handler) -> (props: ToggleProps)
        ensures
            props@ == TogglePropsView::with_defaults(onclick),
    {
        ToggleProps {
            onclick,
            toggle_style: "display: flex; flex-direction: column; gap: 5px; cursor: pointer;",
            line_style: "width: 25px; height: 3px; background: black;",
            toggle_class: String::new(),
            line_class: String::new(),
        }
    }
}

/// Renders the hamburger toggle.
#[allow(non_snake_case)]
pub fn NavbarToggle(props: ToggleProps) -> (node: Node)
    ensures
        node@ == toggle_markup(props@),
{
    Node::tag("div").attribute("style", props.toggle_style).attribute(
        "class",
        props.toggle_class.as_str(),
    ).listening(DomEvent::Click, props.onclick).attribute("tabindex", "0").attribute(
        "role",
        "button",
    ).attribute("aria-label", "Toggle Menu").child(toggle_line(&props)).child(
        toggle_line(&props),
    ).child(toggle_line(&props))
}

} // verus!
