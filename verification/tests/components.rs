use navbar::{
    Attribute, ButtonProps, DomEvent, DropdownItem, Handler, Listener, LogoProps, MegaMenu,
    MegaMenuItem, MegaMenuProps, Menu, MenuProps, MobileMenu, MobileMenuProps, NavbarButton,
    NavbarLogo, NavbarMenu, NavbarToggle, Node, ProfileMenu, ProfileMenuProps, ToggleProps,
};

fn el(tag: &'static str, attributes: &[(&'static str, &str)], children: Vec<Node>) -> Node {
    Node::Element {
        tag,
        key: None,
        attributes: attributes
            .iter()
            .map(|(name, value)| Attribute { name, value: value.to_string() })
            .collect(),
        listeners: Vec::new(),
        children,
    }
}

fn keyed(node: Node, id: usize) -> Node {
    match node {
        Node::Element { tag, attributes, listeners, children, .. } => {
            Node::Element { tag, key: Some(id), attributes, listeners, children }
        }
        text => text,
    }
}

fn listening(node: Node, event: DomEvent, handler: Handler) -> Node {
    match node {
        Node::Element { tag, key, attributes, mut listeners, children } => {
            listeners.push(Listener { event, handler });
            Node::Element { tag, key, attributes, listeners, children }
        }
        text => text,
    }
}

fn txt(content: &str) -> Node {
    Node::Text(content.to_string())
}

fn children(node: &Node) -> &Vec<Node> {
    match node {
        Node::Element { children, .. } => children,
        Node::Text(_) => panic!("text has no children"),
    }
}

fn value_of<'a>(node: &'a Node, name: &str) -> Option<&'a str> {
    match node {
        Node::Element { attributes, .. } => {
            attributes.iter().rev().find(|a| a.name == name).map(|a| a.value.as_str())
        }
        Node::Text(_) => None,
    }
}

fn icon(name: &'static str) -> Node {
    el("i", &[("class", name)], vec![])
}

fn three_dropdown_items() -> Vec<DropdownItem> {
    vec![
        DropdownItem { id: 1, label: "Settings", link: "/settings", icon: None },
        DropdownItem { id: 2, label: "Billing", link: "/billing", icon: Some(icon("card")) },
        DropdownItem { id: 3, label: "Logout", link: "/logout", icon: None },
    ]
}

#[test]
fn logo_defaults_are_the_documented_ones() {
    assert_eq!(
        LogoProps::default(),
        LogoProps {
            logo_src: "/logo.png",
            logo_alt: "Logo",
            logo_link: "/",
            logo_style: "height: 40px;",
            link_style: "display: inline-block;",
            logo_class: String::new(),
            link_class: String::new(),
        }
    );
}

#[test]
fn logo_is_an_image_inside_a_link() {
    let node = NavbarLogo(LogoProps {
        logo_src: "/brand.svg",
        logo_alt: "Brand",
        logo_link: "/home",
        logo_style: "height: 2rem;",
        link_style: "display: block;",
        logo_class: "brand".to_string(),
        link_class: "brand-link".to_string(),
    });
    assert_eq!(
        node,
        el(
            "a",
            &[("href", "/home"), ("style", "display: block;"), ("class", "brand-link")],
            vec![el(
                "img",
                &[
                    ("src", "/brand.svg"),
                    ("alt", "Brand"),
                    ("style", "height: 2rem;"),
                    ("class", "brand"),
                ],
                vec![],
            )],
        )
    );
}

#[test]
fn toggle_defaults_are_the_documented_ones() {
    assert_eq!(
        ToggleProps::new(Handler::ToggleMobileMenu),
        ToggleProps {
            onclick: Handler::ToggleMobileMenu,
            toggle_style: "display: flex; flex-direction: column; gap: 5px; cursor: pointer;",
            line_style: "width: 25px; height: 3px; background: black;",
            toggle_class: String::new(),
            line_class: String::new(),
        }
    );
}

#[test]
fn toggle_is_a_focusable_button_with_three_bars() {
    let node = NavbarToggle(ToggleProps {
        onclick: Handler::ToggleMobileMenu,
        toggle_style: "gap: 4px;",
        line_style: "height: 2px;",
        toggle_class: "burger".to_string(),
        line_class: "bar".to_string(),
    });
    let bar = || el("div", &[("style", "height: 2px;"), ("class", "bar")], vec![]);
    assert_eq!(
        node,
        listening(
            el(
                "div",
                &[
                    ("style", "gap: 4px;"),
                    ("class", "burger"),
                    ("tabindex", "0"),
                    ("role", "button"),
                    ("aria-label", "Toggle Menu"),
                ],
                vec![bar(), bar(), bar()],
            ),
            DomEvent::Click,
            Handler::ToggleMobileMenu,
        )
    );
}

#[test]
fn toggle_forwards_clicks_to_the_given_handler() {
    let node = NavbarToggle(ToggleProps::new(Handler::ToggleDropdown));
    match node {
        Node::Element { listeners, .. } => assert_eq!(
            listeners,
            vec![Listener { event: DomEvent::Click, handler: Handler::ToggleDropdown }]
        ),
        Node::Text(_) => panic!("the toggle is an element"),
    }
}

#[test]
fn menu_defaults_are_the_documented_ones() {
    assert_eq!(
        MenuProps::new(vec![]),
        MenuProps {
            menus: vec![],
            menu_item_style: "padding: 0.5rem 1rem; text-decoration: none; color: black;",
            list_style: "display: flex; gap: 1rem; list-style: none; margin: 0; padding: 0;",
            menu_item_class: String::new(),
            list_class: String::new(),
        }
    );
}

#[test]
fn menu_renders_entries_in_order_keyed_by_id() {
    let node = NavbarMenu(MenuProps {
        menus: vec![
            Menu { id: 7, name: "Home", link: "/", icon_start: None, icon_end: None },
            Menu {
                id: 3,
                name: "Docs",
                link: "/docs",
                icon_start: Some(icon("book")),
                icon_end: None,
            },
            Menu {
                id: 9,
                name: "Out",
                link: "https://example.org",
                icon_start: Some(icon("left")),
                icon_end: Some(icon("right")),
            },
        ],
        menu_item_style: "color: red;",
        list_style: "display: flex;",
        menu_item_class: "item".to_string(),
        list_class: "list".to_string(),
    });
    let link = |href: &str, inside: Vec<Node>| {
        el("a", &[("href", href), ("style", "color: red;"), ("class", "item")], inside)
    };
    assert_eq!(
        node,
        el(
            "ul",
            &[("style", "display: flex;"), ("class", "list")],
            vec![
                keyed(el("li", &[], vec![link("/", vec![txt("Home")])]), 7),
                keyed(el("li", &[], vec![link("/docs", vec![icon("book"), txt("Docs")])]), 3),
                keyed(
                    el(
                        "li",
                        &[],
                        vec![link(
                            "https://example.org",
                            vec![icon("left"), txt("Out"), icon("right")],
                        )],
                    ),
                    9,
                ),
            ],
        )
    );
}

#[test]
fn menu_without_entries_is_an_empty_list() {
    let node = NavbarMenu(MenuProps::new(vec![]));
    assert_eq!(
        node,
        el(
            "ul",
            &[
                ("style", "display: flex; gap: 1rem; list-style: none; margin: 0; padding: 0;"),
                ("class", ""),
            ],
            vec![],
        )
    );
}

#[test]
fn missing_icons_leave_nothing_in_their_place() {
    let node = NavbarMenu(MenuProps::new(vec![Menu {
        id: 1,
        name: "Home",
        link: "/",
        icon_start: None,
        icon_end: None,
    }]));
    let link = &children(&children(&node)[0])[0];
    assert_eq!(children(link), &vec![txt("Home")]);
}

#[test]
fn button_defaults_are_the_documented_ones() {
    assert_eq!(
        ButtonProps::default(),
        ButtonProps {
            href: "#",
            text: "Click Me",
            button_style: "padding: 0.5rem 1rem; background-color: #007bff; border-radius: 4px;",
            link_style: "color: white; text-decoration: none;",
            target: "_self",
            button_class: String::new(),
            link_class: String::new(),
        }
    );
}

#[test]
fn button_is_a_link_inside_a_box() {
    let node = NavbarButton(ButtonProps {
        href: "/signup",
        text: "Join",
        button_style: "margin: 0;",
        link_style: "color: blue;",
        target: "_blank",
        button_class: "cta".to_string(),
        link_class: "cta-link".to_string(),
    });
    assert_eq!(
        node,
        el(
            "div",
            &[("style", "margin: 0;"), ("class", "cta")],
            vec![el(
                "a",
                &[
                    ("href", "/signup"),
                    ("target", "_blank"),
                    ("style", "color: blue;"),
                    ("class", "cta-link"),
                ],
                vec![txt("Join")],
            )],
        )
    );
}

#[test]
fn profile_menu_defaults_are_the_documented_ones() {
    assert_eq!(
        ProfileMenuProps::new(vec![], true, Handler::ToggleDropdown),
        ProfileMenuProps {
            items: vec![],
            dropdown_style: "position: absolute; top: 100%; left: 0; background: white; box-shadow: 0 4px 8px rgba(0,0,0,0.1); z-index: 1000;",
            item_style: "padding: 0.5rem 1rem; white-space: nowrap;",
            wrapper_style: "position: relative; display: inline-block; margin: 0 0 0 1rem;",
            button_style: "background: none; border: none; cursor: pointer;",
            avatar_img_style: "width: 40px; height: 40px; border-radius: 50%; object-fit: cover;",
            avatar_fallback_style: "width: 40px; height: 40px; border-radius: 50%; background-color: #ccc; color: #fff; display: flex; align-items: center; justify-content: center; font-weight: bold;",
            profile_text: "Profile",
            profile_image_url: None,
            is_open: true,
            toggle: Handler::ToggleDropdown,
            dropdown_class: String::new(),
            item_class: String::new(),
            wrapper_class: String::new(),
            avatar_class: String::new(),
            button_class: String::new(),
        }
    );
}

fn custom_profile(is_open: bool, url: Option<&str>, text: &'static str) -> ProfileMenuProps {
    ProfileMenuProps {
        items: three_dropdown_items(),
        dropdown_style: "top: 0;",
        item_style: "padding: 0;",
        wrapper_style: "margin: 0;",
        button_style: "border: none;",
        avatar_img_style: "width: 1rem;",
        avatar_fallback_style: "width: 2rem;",
        profile_text: text,
        profile_image_url: url.map(|u| u.to_string()),
        is_open,
        toggle: Handler::ToggleDropdown,
        dropdown_class: "dd".to_string(),
        item_class: "dd-item".to_string(),
        wrapper_class: "wrap".to_string(),
        avatar_class: "avatar".to_string(),
        button_class: "btn".to_string(),
    }
}

fn profile_button(is_open: bool, avatar: Node) -> Node {
    listening(
        el(
            "button",
            &[
                ("aria-haspopup", "true"),
                ("aria-expanded", if is_open { "true" } else { "false" }),
                ("style", "border: none;"),
                ("class", "btn"),
            ],
            vec![avatar],
        ),
        DomEvent::Click,
        Handler::ToggleDropdown,
    )
}

fn fallback_avatar(letter: &str) -> Node {
    el("div", &[("style", "width: 2rem;"), ("class", "avatar")], vec![txt(letter)])
}

#[test]
fn open_profile_menu_renders_the_three_entries_in_order() {
    let node = ProfileMenu(custom_profile(true, None, "Profile"));
    let item = |id: usize, href: &str, inside: Vec<Node>| {
        keyed(
            el(
                "li",
                &[("style", "padding: 0;"), ("class", "dd-item")],
                vec![el("a", &[("href", href)], inside)],
            ),
            id,
        )
    };
    assert_eq!(
        node,
        el(
            "div",
            &[("style", "margin: 0;"), ("class", "wrap")],
            vec![
                profile_button(true, fallback_avatar("P")),
                el(
                    "ul",
                    &[("style", "top: 0;"), ("class", "dd")],
                    vec![
                        item(1, "/settings", vec![txt("Settings")]),
                        item(2, "/billing", vec![icon("card"), txt("Billing")]),
                        item(3, "/logout", vec![txt("Logout")]),
                    ],
                ),
            ],
        )
    );
}

#[test]
fn closed_profile_menu_renders_no_entries() {
    let node = ProfileMenu(custom_profile(false, None, "Profile"));
    assert_eq!(
        node,
        el(
            "div",
            &[("style", "margin: 0;"), ("class", "wrap")],
            vec![profile_button(false, fallback_avatar("P"))],
        )
    );
}

#[test]
fn aria_expanded_matches_the_open_flag() {
    for is_open in [true, false] {
        let node = ProfileMenu(custom_profile(is_open, None, "Profile"));
        let button = &children(&node)[0];
        assert_eq!(value_of(button, "aria-expanded"), Some(if is_open { "true" } else { "false" }));
        assert_eq!(value_of(button, "aria-haspopup"), Some("true"));
    }
}

#[test]
fn fallback_avatar_shows_the_first_letter_of_the_profile_text() {
    let node = ProfileMenu(custom_profile(false, None, "Profile"));
    let avatar = &children(&children(&node)[0])[0];
    assert_eq!(avatar, &fallback_avatar("P"));
    let node = ProfileMenu(custom_profile(false, None, "alice"));
    let avatar = &children(&children(&node)[0])[0];
    assert_eq!(avatar, &fallback_avatar("a"));
}

#[test]
fn fallback_avatar_shows_p_for_an_empty_profile_text() {
    let node = ProfileMenu(custom_profile(false, None, ""));
    let avatar = &children(&children(&node)[0])[0];
    assert_eq!(avatar, &fallback_avatar("P"));
}

#[test]
fn fallback_avatar_takes_a_whole_character() {
    let node = ProfileMenu(custom_profile(false, None, "Émile"));
    let avatar = &children(&children(&node)[0])[0];
    assert_eq!(avatar, &fallback_avatar("É"));
    let node = ProfileMenu(custom_profile(false, None, "日本"));
    let avatar = &children(&children(&node)[0])[0];
    assert_eq!(avatar, &fallback_avatar("日"));
}

#[test]
fn avatar_image_is_shown_when_a_url_is_given() {
    let node = ProfileMenu(custom_profile(false, Some("/me.png"), "Profile"));
    let avatar = &children(&children(&node)[0])[0];
    assert_eq!(
        avatar,
        &el(
            "img",
            &[
                ("src", "/me.png"),
                ("alt", "Profile"),
                ("style", "width: 1rem;"),
                ("class", "avatar"),
            ],
            vec![],
        )
    );
}

#[test]
fn mega_menu_defaults_are_the_documented_ones() {
    assert_eq!(
        MegaMenuProps::new(vec![]),
        MegaMenuProps {
            items: vec![],
            wrapper_style: "position: absolute; top: 60px; left: 0; z-index: 999;",
            card_style: "background: white; display: flex; gap: 2rem; padding: 1rem; box-shadow: 0 2px 8px rgba(0,0,0,0.1);",
            item_link_style: "text-decoration: none; color: black;",
            wrapper_class: String::new(),
            card_class: String::new(),
            item_class: String::new(),
        }
    );
}

#[test]
fn mega_menu_renders_every_entry_in_order() {
    let node = MegaMenu(MegaMenuProps {
        items: vec![
            MegaMenuItem { link: "/docs", title: "Docs", description: "Learn more" },
            MegaMenuItem { link: "/blog", title: "Blog", description: "See what is new" },
        ],
        wrapper_style: "top: 1px;",
        card_style: "gap: 1px;",
        item_link_style: "color: green;",
        wrapper_class: "mega".to_string(),
        card_class: "card".to_string(),
        item_class: "entry".to_string(),
    });
    let entry = |href: &str, title: &str, description: &str| {
        el(
            "a",
            &[("href", href), ("style", "color: green;"), ("class", "entry")],
            vec![el(
                "div",
                &[],
                vec![
                    el("p", &[], vec![el("strong", &[], vec![txt(title)])]),
                    el("p", &[], vec![txt(description)]),
                ],
            )],
        )
    };
    assert_eq!(
        node,
        el(
            "div",
            &[("style", "top: 1px;"), ("class", "mega")],
            vec![el(
                "div",
                &[("style", "gap: 1px;"), ("class", "card")],
                vec![
                    entry("/docs", "Docs", "Learn more"),
                    entry("/blog", "Blog", "See what is new"),
                ],
            )],
        )
    );
}

#[test]
fn mega_menu_without_entries_is_an_empty_card() {
    let node = MegaMenu(MegaMenuProps::new(vec![]));
    assert_eq!(children(&children(&node)[0]).len(), 0);
}

#[test]
fn mobile_menu_defaults_are_the_documented_ones() {
    assert_eq!(
        MobileMenuProps::new(vec![], vec![]),
        MobileMenuProps {
            menus: vec![],
            menu_item_style: "padding: 0.5rem 1rem;",
            dropdown_items: vec![],
            dropdown_style: "background: #f9f9f9; padding: 1rem; border-radius: 4px;",
            dropdown_item_style: "padding: 0.5rem;",
            show_profile_menu: false,
            show_search: false,
            search_input_style: "padding: 0.5rem; width: 100%; border: 1px solid #ccc;",
            search_placeholder: "Search...",
            container_style: "display: flex; flex-direction: column; gap: 1rem; padding: 1rem; position: absolute; top: 100%; left: 0; background: white; z-index: 999; width: max-content;",
            container_class: String::new(),
            menu_item_class: String::new(),
            dropdown_class: String::new(),
            dropdown_item_class: String::new(),
            search_input_class: String::new(),
        }
    );
}

fn custom_mobile(show_search: bool, show_profile_menu: bool) -> MobileMenuProps {
    MobileMenuProps {
        menus: vec![Menu {
            id: 4,
            name: "Home",
            link: "/",
            icon_start: Some(icon("house")),
            icon_end: None,
        }],
        menu_item_style: "padding: 1px;",
        dropdown_items: three_dropdown_items(),
        dropdown_style: "background: grey;",
        dropdown_item_style: "padding: 2px;",
        show_profile_menu,
        show_search,
        search_input_style: "width: 100%;",
        search_placeholder: "Find",
        container_style: "display: flex;",
        container_class: "panel".to_string(),
        menu_item_class: "m-item".to_string(),
        dropdown_class: "m-dd".to_string(),
        dropdown_item_class: "m-dd-item".to_string(),
        search_input_class: "m-search".to_string(),
    }
}

fn mobile_list() -> Node {
    el(
        "ul",
        &[("style", ""), ("class", "")],
        vec![keyed(
            el(
                "li",
                &[],
                vec![el(
                    "a",
                    &[("href", "/"), ("style", "padding: 1px;"), ("class", "m-item")],
                    vec![icon("house"), txt("Home")],
                )],
            ),
            4,
        )],
    )
}

fn mobile_search() -> Node {
    el(
        "input",
        &[
            ("type", "text"),
            ("style", "width: 100%;"),
            ("placeholder", "Find"),
            ("class", "m-search"),
        ],
        vec![],
    )
}

fn mobile_dropdown() -> Node {
    let item = |id: usize, href: &str, label: &str| {
        keyed(
            el(
                "li",
                &[("style", "padding: 2px;"), ("class", "m-dd-item")],
                vec![el("a", &[("href", href)], vec![txt(label)])],
            ),
            id,
        )
    };
    el(
        "ul",
        &[("style", "background: grey;"), ("class", "m-dd")],
        vec![
            item(1, "/settings", "Settings"),
            item(2, "/billing", "Billing"),
            item(3, "/logout", "Logout"),
        ],
    )
}

#[test]
fn mobile_menu_with_everything_holds_menu_search_and_dropdown() {
    assert_eq!(
        MobileMenu(custom_mobile(true, true)),
        el(
            "div",
            &[("style", "display: flex;"), ("class", "panel")],
            vec![mobile_list(), mobile_search(), mobile_dropdown()],
        )
    );
}

#[test]
fn mobile_menu_without_search_or_profile_holds_the_menu_alone() {
    assert_eq!(
        MobileMenu(custom_mobile(false, false)),
        el("div", &[("style", "display: flex;"), ("class", "panel")], vec![mobile_list()])
    );
}

#[test]
fn mobile_menu_with_search_alone() {
    assert_eq!(
        MobileMenu(custom_mobile(true, false)),
        el(
            "div",
            &[("style", "display: flex;"), ("class", "panel")],
            vec![mobile_list(), mobile_search()],
        )
    );
}

#[test]
fn mobile_menu_with_dropdown_alone() {
    assert_eq!(
        MobileMenu(custom_mobile(false, true)),
        el(
            "div",
            &[("style", "display: flex;"), ("class", "panel")],
            vec![mobile_list(), mobile_dropdown()],
        )
    );
}

#[test]
fn mobile_search_input_is_not_bound_to_the_search_text() {
    let node = MobileMenu(custom_mobile(true, false));
    let input = &children(&node)[1];
    assert_eq!(value_of(input, "value"), None);
    match input {
        Node::Element { listeners, .. } => assert!(listeners.is_empty()),
        Node::Text(_) => panic!("the input is an element"),
    }
}

#[test]
fn mobile_dropdown_shows_no_icons() {
    let node = MobileMenu(custom_mobile(false, true));
    let second = &children(&children(&node)[1])[1];
    assert_eq!(children(&children(second)[0]), &vec![txt("Billing")]);
}

#[test]
fn builders_add_in_order() {
    let node = Node::tag("p")
        .attribute("id", "x")
        .listening(DomEvent::Click, Handler::OpenMegaMenu)
        .child(Node::text("a"))
        .children(vec![Node::text("b"), Node::text("c")])
        .optional_child(None)
        .optional_child(Some(Node::text("d")))
        .attribute("lang", "en")
        .keyed(5);
    assert_eq!(
        node,
        Node::Element {
            tag: "p",
            key: Some(5),
            attributes: vec![
                Attribute { name: "id", value: "x".to_string() },
                Attribute { name: "lang", value: "en".to_string() },
            ],
            listeners: vec![Listener { event: DomEvent::Click, handler: Handler::OpenMegaMenu }],
            children: vec![txt("a"), txt("b"), txt("c"), txt("d")],
        }
    );
}

#[test]
fn builders_leave_text_as_it_is() {
    let node = Node::text("plain")
        .attribute("id", "x")
        .keyed(1)
        .listening(DomEvent::Input, Handler::UpdateSearch)
        .child(Node::text("lost"))
        .children(vec![Node::tag("p")]);
    assert_eq!(node, txt("plain"));
}

#[test]
fn clone_copies_the_whole_tree() {
    let node = ProfileMenu(custom_profile(true, Some("/me.png"), "Profile"));
    let copy = node.clone();
    assert_eq!(copy, node);
    let text = txt("only text");
    assert_eq!(text.clone(), text);
    let attribute = Attribute { name: "href", value: "/".to_string() };
    assert_eq!(attribute.clone(), attribute);
}
