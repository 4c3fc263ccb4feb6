//! The logo: an image inside a link.

use crate::markup::{lemma_style_then_class, tag, Markup, Node};
use vstd::prelude::*;

verus! {

/// Properties for rendering a logo inside a navigation bar.
#[derive(Clone, Debug, PartialEq)]
pub struct LogoProps {
    /// Path to the logo image.
    pub logo_src: &'static str,
    /// Alternative text for the logo image.
    pub logo_alt: &'static str,
    /// URL to go to when the logo is clicked.
    pub logo_link: &'static str,
    /// Inline CSS style for the logo image.
    pub logo_style: &'static str,
    /// Inline CSS style for the link wrapping the logo.
    pub link_style: &'static str,
    /// Class name for the logo image.
    pub logo_class: String,
    /// Class name for the link wrapping the logo.
    pub link_class: String,
}

/// The value of [`LogoProps`].
pub struct LogoPropsView {
    pub logo_src: Seq<char>,
    pub logo_alt: Seq<char>,
    pub logo_link: Seq<char>,
    pub logo_style: Seq<char>,
    pub link_style: Seq<char>,
    pub logo_class: Seq<char>,
    pub link_class: Seq<char>,
}

impl View for LogoProps {
    type V = LogoPropsView;

    open spec fn view(&self) -> LogoPropsView {
        LogoPropsView {
            logo_src: self.logo_src@,
            logo_alt: self.logo_alt@,
            logo_link: self.logo_link@,
            logo_style: self.logo_style@,
            link_style: self.link_style@,
            logo_class: self.logo_class@,
            link_class: self.link_class@,
        }
    }
}

impl LogoPropsView {
    /// The properties of a logo with every property at its default.
    pub open spec fn defaults() -> LogoPropsView {
        LogoPropsView {
            logo_src: "/logo.png"@,
            logo_alt: "Logo"@,
            logo_link: "/"@,
            logo_style: "height: 40px;"@,
            link_style: "display: inline-block;"@,
            logo_class: Seq::empty(),
            link_class: Seq::empty(),
        }
    }
}

impl Default for LogoProps {
    /// The properties of a logo with every property at its default.
    fn default() -> (props: LogoProps)
        ensures
            props@ == LogoPropsView::defaults(),
    {
        LogoProps {
            logo_src: "/logo.png",
            logo_alt: "Logo",
            logo_link: "/",
            logo_style: "height: 40px;",
            link_style: "display: inline-block;",
            logo_class: String::new(),
            link_class: String::new(),
        }
    }
}

/// The logo as markup: a link to `logo_link` around the image.
pub open spec fn logo_markup(props: LogoPropsView) -> Markup {
    tag("a")
        .attribute("href", props.logo_link)
        .attribute("style", props.link_style)
        .attribute("class", props.link_class)
        .child(
            tag("img")
                .attribute("src", props.logo_src)
                .attribute("alt", props.logo_alt)
                .attribute("style", props.logo_style)
                .attribute("class", props.logo_class),
        )
}

/// The link has the style and class given for the link, the image those
/// given for the logo.
pub proof fn lemma_logo_styles(props: LogoPropsView)
    ensures
        logo_markup(props).styled(props.link_style, props.link_class),
        logo_markup(props).at(0).styled(props.logo_style, props.logo_class),
{
    lemma_style_then_class(
        tag("img").attribute("src", props.logo_src).attribute("alt", props.logo_alt),
        props.logo_style,
        props.logo_class,
    );
    lemma_style_then_class(
        tag("a").attribute("href", props.logo_link),
        props.link_style,
        props.link_class,
    );
}

/// Renders the logo.
#[allow(non_snake_case)]
pub fn NavbarLogo(props: LogoProps) -> (node: Node)
    ensures
        node@ == logo_markup(props@),
{
    Node::tag("a")
        .attribute("href", props.logo_link)
        .attribute("style", props.link_style)
        .attribute("class", props.link_class.as_str())
        .child(
            Node::tag("img")
                .attribute("src", props.logo_src)
                .attribute("alt", props.logo_alt)
                .attribute("style", props.logo_style)
                .attribute("class", props.logo_class.as_str()),
        )
}

} // verus!
