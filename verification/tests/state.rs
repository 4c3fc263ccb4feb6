use navbar::state::MOBILE_BREAKPOINT;
use navbar::{Effect, Event, Handler, NavbarState, SearchText};

fn quiet() -> Effect {
    Effect { stop_propagation: false, publish_search: None }
}

#[test]
fn mounted_state_has_menus_closed_and_mega_menu_open() {
    let state = NavbarState::new(1024, false);
    assert_eq!(
        state,
        NavbarState {
            is_mobile: false,
            is_mobile_menu_open: false,
            is_dropdown_open: false,
            is_mega_menu_open: true,
            search: SearchText::Owned(String::new()),
        }
    );
}

#[test]
fn mounted_state_with_external_search_keeps_no_text() {
    let state = NavbarState::new(320, true);
    assert!(state.is_mobile);
    assert_eq!(state.search, SearchText::External);
}

#[test]
fn breakpoint_is_768_pixels() {
    assert_eq!(MOBILE_BREAKPOINT, 768);
}

#[test]
fn width_at_mount_decides_layout() {
    assert!(NavbarState::new(0, false).is_mobile);
    assert!(NavbarState::new(767, false).is_mobile);
    assert!(NavbarState::new(768, false).is_mobile);
    assert!(!NavbarState::new(769, false).is_mobile);
    assert!(!NavbarState::new(u32::MAX, false).is_mobile);
}

#[test]
fn resize_decides_layout_whatever_the_state_was() {
    for start in [0u32, 768, 769, 4000] {
        for width in [0u32, 1, 320, 767, 768, 769, 1024, u32::MAX] {
            let mut state = NavbarState::new(start, false);
            let effect = state.apply(Event::Resize { width });
            assert_eq!(state.is_mobile, width <= 768, "from {start} to {width}");
            assert_eq!(effect, quiet());
        }
    }
}

#[test]
fn resize_to_exactly_the_breakpoint_is_mobile() {
    let mut state = NavbarState::new(1200, false);
    state.apply(Event::Resize { width: 768 });
    assert!(state.is_mobile);
    state.apply(Event::Resize { width: 769 });
    assert!(!state.is_mobile);
}

#[test]
fn resize_changes_only_the_layout_flag() {
    let mut state = NavbarState::new(1200, false);
    state.apply(Event::ToggleClick);
    state.apply(Event::ProfileClick);
    state.apply(Event::SearchInput { value: "rust".to_string() });
    let before = state.clone();
    state.apply(Event::Resize { width: 400 });
    assert_eq!(state, NavbarState { is_mobile: true, ..before });
}

#[test]
fn toggling_n_times_leaves_the_menu_open_when_n_is_odd() {
    for n in 0..=9u32 {
        let mut state = NavbarState::new(400, false);
        for _ in 0..n {
            state.apply(Event::ToggleClick);
        }
        assert_eq!(state.is_mobile_menu_open, n % 2 == 1, "after {n} clicks");
    }
}

#[test]
fn toggle_click_changes_only_the_mobile_menu_flag() {
    let mut state = NavbarState::new(400, false);
    let before = state.clone();
    state.apply(Event::ToggleClick);
    assert_eq!(state, NavbarState { is_mobile_menu_open: true, ..before });
}

#[test]
fn toggle_click_is_kept_from_the_document() {
    let mut state = NavbarState::new(400, false);
    let effect = state.apply(Event::ToggleClick);
    assert_eq!(effect, Effect { stop_propagation: true, publish_search: None });
    assert!(state.is_mobile_menu_open);
}

#[test]
fn document_click_closes_an_open_mobile_menu() {
    let mut state = NavbarState::new(400, false);
    state.apply(Event::ToggleClick);
    assert!(state.is_mobile_menu_open);
    let effect = state.apply(Event::DocumentClick);
    assert!(!state.is_mobile_menu_open);
    assert_eq!(effect, quiet());
}

#[test]
fn document_click_leaves_a_closed_mobile_menu_closed() {
    let mut state = NavbarState::new(400, false);
    state.apply(Event::DocumentClick);
    assert!(!state.is_mobile_menu_open);
}

#[test]
fn document_click_does_not_close_the_dropdown_or_the_mega_menu() {
    let mut state = NavbarState::new(1200, false);
    state.apply(Event::ProfileClick);
    state.apply(Event::MegaMenuEnter);
    state.apply(Event::DocumentClick);
    assert!(state.is_dropdown_open);
    assert!(state.is_mega_menu_open);
}

#[test]
fn profile_click_inverts_the_dropdown_and_is_kept_from_the_document() {
    let mut state = NavbarState::new(1200, false);
    let effect = state.apply(Event::ProfileClick);
    assert!(state.is_dropdown_open);
    assert_eq!(effect, Effect { stop_propagation: true, publish_search: None });
    state.apply(Event::ProfileClick);
    assert!(!state.is_dropdown_open);
}

#[test]
fn pointer_opens_and_closes_the_mega_menu() {
    let mut state = NavbarState::new(1200, false);
    assert_eq!(state.apply(Event::MegaMenuLeave), quiet());
    assert!(!state.is_mega_menu_open);
    state.apply(Event::MegaMenuLeave);
    assert!(!state.is_mega_menu_open);
    assert_eq!(state.apply(Event::MegaMenuEnter), quiet());
    assert!(state.is_mega_menu_open);
    state.apply(Event::MegaMenuEnter);
    assert!(state.is_mega_menu_open);
}

#[test]
fn owned_search_text_follows_the_input() {
    let mut state = NavbarState::new(1200, false);
    assert_eq!(state.search_text(&None), "");
    let effect = state.apply(Event::SearchInput { value: "a".to_string() });
    assert_eq!(effect, quiet());
    assert_eq!(state.search, SearchText::Owned("a".to_string()));
    state.apply(Event::SearchInput { value: "ab".to_string() });
    assert_eq!(state.search_text(&None), "ab");
    state.apply(Event::SearchInput { value: String::new() });
    assert_eq!(state.search_text(&None), "");
}

#[test]
fn owned_search_text_ignores_a_handle() {
    let mut state = NavbarState::new(1200, false);
    state.apply(Event::SearchInput { value: "mine".to_string() });
    assert_eq!(state.search_text(&Some("theirs".to_string())), "mine");
}

#[test]
fn external_search_text_is_written_through_and_not_copied() {
    let mut handle = Some("abc".to_string());
    let mut state = NavbarState::new(1200, true);
    assert_eq!(state.search_text(&handle), "abc");
    let effect = state.apply(Event::SearchInput { value: "abcd".to_string() });
    assert_eq!(
        effect,
        Effect { stop_propagation: false, publish_search: Some("abcd".to_string()) }
    );
    assert_eq!(state.search, SearchText::External);
    assert_eq!(state.search_text(&handle), "abc");
    handle = effect.publish_search;
    assert_eq!(handle, Some("abcd".to_string()));
    assert_eq!(state.search_text(&handle), "abcd");
}

#[test]
fn external_search_text_without_a_handle_is_empty() {
    let state = NavbarState::new(1200, true);
    assert_eq!(state.search_text(&None), "");
}

#[test]
fn handlers_report_their_events() {
    let value = || "typed".to_string();
    assert_eq!(Handler::ToggleMobileMenu.event(value()), Event::ToggleClick);
    assert_eq!(Handler::ToggleDropdown.event(value()), Event::ProfileClick);
    assert_eq!(Handler::OpenMegaMenu.event(value()), Event::MegaMenuEnter);
    assert_eq!(Handler::CloseMegaMenu.event(value()), Event::MegaMenuLeave);
    assert_eq!(Handler::UpdateSearch.event(value()), Event::SearchInput { value: value() });
}

#[test]
fn only_the_two_toggles_stop_propagation() {
    for (handler, stops) in [
        (Handler::ToggleMobileMenu, true),
        (Handler::ToggleDropdown, true),
        (Handler::OpenMegaMenu, false),
        (Handler::CloseMegaMenu, false),
        (Handler::UpdateSearch, false),
    ] {
        let mut state = NavbarState::new(1200, false);
        let effect = state.apply(handler.event("x".to_string()));
        assert_eq!(effect.stop_propagation, stops, "{handler:?}");
    }
}

#[test]
fn is_mobile_matches_the_breakpoint() {
    assert!(navbar::state::is_mobile(768));
    assert!(!navbar::state::is_mobile(769));
    assert!(navbar::state::is_mobile(0));
}
