//! The state that the navigation bar keeps, and how events change it.
//!
//! The state is four flags and the search text. Every change is a step of
//! one function, [`NavbarState::apply`], from the state and an event to the
//! next state and to what the host has to do about the browser event.

use crate::markup::Handler;
use vstd::prelude::*;

verus! {

/// The widest viewport, in pixels, that still gets the mobile layout.
pub const MOBILE_BREAKPOINT: u32 = 768;

/// Whether a viewport of the given width gets the mobile layout.
pub open spec fn is_mobile_width(width: u32) -> bool {
    width <= MOBILE_BREAKPOINT
}

/// Where the search text is. This is settled when the state is made and
/// never changes, so that there is one search text and no second copy that
/// could drift from it.
#[derive(Clone, Debug, PartialEq, Eq)]
pub enum SearchText {
    /// The navigation bar owns the text, and this is it.
    Owned(String),
    /// The application owns the text. The navigation bar keeps no copy: it
    /// shows what the application's handle holds and asks the host to write
    /// each change to the handle.
    External,
}

/// The state of a navigation bar.
#[derive(Clone, Debug, PartialEq, Eq)]
pub struct NavbarState {
    /// The viewport is at most [`MOBILE_BREAKPOINT`] wide.
    pub is_mobile: bool,
    /// The collapsed menu of the mobile layout is open.
    pub is_mobile_menu_open: bool,
    /// The profile dropdown is open.
    pub is_dropdown_open: bool,
    /// The mega menu panel is open.
    pub is_mega_menu_open: bool,
    /// Where the text of the search input is.
    pub search: SearchText,
}

/// The value of a [`NavbarState`].
pub struct StateView {
    pub is_mobile: bool,
    pub is_mobile_menu_open: bool,
    pub is_dropdown_open: bool,
    pub is_mega_menu_open: bool,
    /// The search text where the navigation bar owns it, `None` where the
    /// application does.
    pub owned_search: Option<Seq<char>>,
}

/// Something that happened in the browser.
#[derive(Clone, Debug, PartialEq, Eq)]
pub enum Event {
    /// The viewport now has this width, in pixels.
    Resize { width: u32 },
    /// The hamburger toggle was clicked.
    ToggleClick,
    /// The profile button was clicked.
    ProfileClick,
    /// A click reached the document.
    DocumentClick,
    /// The pointer entered the trigger of the mega menu.
    MegaMenuEnter,
    /// The pointer left the panel of the mega menu.
    MegaMenuLeave,
    /// The search input changed and now holds `value`.
    SearchInput { value: String },
}

/// The value of an [`Event`].
pub enum EventView {
    Resize { width: u32 },
    ToggleClick,
    ProfileClick,
    DocumentClick,
    MegaMenuEnter,
    MegaMenuLeave,
    SearchInput { value: Seq<char> },
}

/// What the host does about the browser event once the state has changed.
#[derive(Clone, Debug, PartialEq, Eq)]
pub struct Effect {
    /// Keep the browser event from travelling on to the document.
    pub stop_propagation: bool,
    /// Write this text to the application's handle.
    pub publish_search: Option<String>,
}

/// The value of an [`Effect`].
pub struct EffectView {
    pub stop_propagation: bool,
    pub publish_search: Option<Seq<char>>,
}

impl View for Effect {
    type V = EffectView;

    open spec fn view(&self) -> EffectView {
        EffectView {
            stop_propagation: self.stop_propagation,
            publish_search: match self.publish_search {
                Some(text) => Some(text@),
                None => None,
            },
        }
    }
}

impl View for SearchText {
    type V = Option<Seq<char>>;

    open spec fn view(&self) -> Option<Seq<char>> {
        match self {
            SearchText::Owned(text) => Some(text@),
            SearchText::External => None,
        }
    }
}

impl View for NavbarState {
    type V = StateView;

    open spec fn view(&self) -> StateView {
        StateView {
            is_mobile: self.is_mobile,
            is_mobile_menu_open: self.is_mobile_menu_open,
            is_dropdown_open: self.is_dropdown_open,
            is_mega_menu_open: self.is_mega_menu_open,
            owned_search: self.search@,
        }
    }
}

impl View for Event {
    type V = EventView;

    open spec fn view(&self) -> EventView {
        match self {
            Event::Resize { width } => EventView::Resize { width: *width },
            Event::ToggleClick => EventView::ToggleClick,
            Event::ProfileClick => EventView::ProfileClick,
            Event::DocumentClick => EventView::DocumentClick,
            Event::MegaMenuEnter => EventView::MegaMenuEnter,
            Event::MegaMenuLeave => EventView::MegaMenuLeave,
            Event::SearchInput { value } => EventView::SearchInput { value: value@ },
        }
    }
}

/// The event that a listener with the given handler reports. `value` is what
/// the listener's element holds; only the search input's handler reads it.
pub open spec fn handler_event(handler: Handler, value: Seq<char>) -> EventView {
    match handler {
        Handler::ToggleMobileMenu => EventView::ToggleClick,
        Handler::ToggleDropdown => EventView::ProfileClick,
        Handler::OpenMegaMenu => EventView::MegaMenuEnter,
        Handler::CloseMegaMenu => EventView::MegaMenuLeave,
        Handler::UpdateSearch => EventView::SearchInput { value },
    }
}

impl StateView {
    /// The state of a navigation bar that has just been mounted in a
    /// viewport of the given width: both menus closed, the mega menu panel
    /// open. Unless the application owns the search text, the navigation bar
    /// owns it and it starts empty.
    pub open spec fn initial(width: u32, search_is_external: bool) -> StateView {
        StateView {
            is_mobile: is_mobile_width(width),
            is_mobile_menu_open: false,
            is_dropdown_open: false,
            is_mega_menu_open: true,
            owned_search: if search_is_external {
                None
            } else {
                Some(Seq::empty())
            },
        }
    }

    /// The one search text: the navigation bar's own where it owns it, else
    /// what the application's handle holds, `external`. An application that
    /// owns the text and shows no handle has no text.
    pub open spec fn search_text(self, external: Option<Seq<char>>) -> Seq<char> {
        match self.owned_search {
            Some(text) => text,
            None => match external {
                Some(text) => text,
                None => Seq::empty(),
            },
        }
    }

    /// The state after the event.
    pub open spec fn next(self, event: EventView) -> StateView {
        match event {
            EventView::Resize { width } => StateView {
                is_mobile: is_mobile_width(width),
                ..self
            },
            EventView::ToggleClick => StateView {
                is_mobile_menu_open: !self.is_mobile_menu_open,
                ..self
            },
            EventView::ProfileClick => StateView {
                is_dropdown_open: !self.is_dropdown_open,
                ..self
            },
            EventView::DocumentClick => StateView { is_mobile_menu_open: false, ..self },
            EventView::MegaMenuEnter => StateView { is_mega_menu_open: true, ..self },
            EventView::MegaMenuLeave => StateView { is_mega_menu_open: false, ..self },
            EventView::SearchInput { value } => StateView {
                owned_search: if self.owned_search is Some {
                    Some(value)
                } else {
                    None
                },
                ..self
            },
        }
    }

    /// What the host does about the event. The two toggles keep their click
    /// from the document, so that the click that opens the mobile menu does
    /// not close it again; a change of search text that the application owns
    /// is written to its handle.
    pub open spec fn effect(self, event: EventView) -> EffectView {
        EffectView {
            stop_propagation: event is ToggleClick || event is ProfileClick,
            publish_search: match event {
                EventView::SearchInput { value } if self.owned_search is None => Some(value),
                _ => None,
            },
        }
    }

    /// The state after `n` clicks on the hamburger toggle.
    pub open spec fn after_toggle_clicks(self, n: nat) -> StateView
        decreases n,
    {
        if n == 0 {
            self
        } else {
            self.after_toggle_clicks((n - 1) as nat).next(EventView::ToggleClick)
        }
    }
}

/// Whether a viewport of the given width gets the mobile layout.
pub fn is_mobile(width: u32) -> (mobile: bool)
    ensures
        mobile == is_mobile_width(width),
{
    width <= MOBILE_BREAKPOINT
}

impl Handler {
    /// The event that a listener with this handler reports. `value` is what
    /// the listener's element holds; only the search input's handler keeps
    /// it.
    pub fn event(self, value: String) -> (event: Event)
        ensures
            event@ == handler_event(self, value@),
    {
        match self {
            Handler::ToggleMobileMenu => Event::ToggleClick,
            Handler::ToggleDropdown => Event::ProfileClick,
            Handler::OpenMegaMenu => Event::MegaMenuEnter,
            Handler::CloseMegaMenu => Event::MegaMenuLeave,
            Handler::UpdateSearch => Event::SearchInput { value },
        }
    }
}

impl NavbarState {
    /// The state of a navigation bar that has just been mounted in a
    /// viewport of the given width: both menus closed, the mega menu panel
    /// open. Unless the application owns the search text, the navigation bar
    /// owns it and it starts empty.
    pub fn new(width: u32, search_is_external: bool) -> (state: NavbarState)
        ensures
            state@ == StateView::initial(width, search_is_external),
    {
        NavbarState {
            is_mobile: is_mobile(width),
            is_mobile_menu_open: false,
            is_dropdown_open: false,
            is_mega_menu_open: true,
            search: if search_is_external {
                SearchText::External
            } else {
                SearchText::Owned(String::new())
            },
        }
    }

    /// The one search text: the navigation bar's own where it owns it, else
    /// what the application's handle holds, `external`.
    pub fn search_text<'a>(&'a self, external: &'a Option<String>) -> (text: &'a str)
        ensures
            text@ == self@.search_text(
                match *external {
                    Some(text) => Some(text@),
                    None => None,
                },
            ),
    {
        match &self.search {
            SearchText::Owned(text) => text.as_str(),
            SearchText::External => match external {
                Some(text) => text.as_str(),
                None => {
                    proof {
                        reveal_strlit("");
                        assert(""@ =~= Seq::<char>::empty());
                    }
                    ""
                },
            },
        }
    }

    /// Takes one event: the state becomes the next state, and the result
    /// says what the host does about the browser event.
    pub fn apply(&mut self, event: Event) -> (effect: Effect)
        ensures
            final(self)@ == old(self)@.next(event@),
            effect@ == old(self)@.effect(event@),
    {
        match event {
            Event::Resize { width } => {
                self.is_mobile = is_mobile(width);
                Effect { stop_propagation: false, publish_search: None }
            },
            Event::ToggleClick => {
                self.is_mobile_menu_open = !self.is_mobile_menu_open;
                Effect { stop_propagation: true, publish_search: None }
            },
            Event::ProfileClick => {
                self.is_dropdown_open = !self.is_dropdown_open;
                Effect { stop_propagation: true, publish_search: None }
            },
            Event::DocumentClick => {
                self.is_mobile_menu_open = false;
                Effect { stop_propagation: false, publish_search: None }
            },
            Event::MegaMenuEnter => {
                self.is_mega_menu_open = true;
                Effect { stop_propagation: false, publish_search: None }
            },
            Event::MegaMenuLeave => {
                self.is_mega_menu_open = false;
                Effect { stop_propagation: false, publish_search: None }
            },
            Event::SearchInput { value } => {
                let external = match &self.search {
                    SearchText::Owned(_) => false,
                    SearchText::External => true,
                };
                if external {
                    Effect { stop_propagation: false, publish_search: Some(value) }
                } else {
                    self.search = SearchText::Owned(value);
                    Effect { stop_propagation: false, publish_search: None }
                }
            },
        }
    }
}

/// After a resize the layout is mobile exactly when the reported width is at
/// most the breakpoint, whatever the state was; a width of exactly the
/// breakpoint is mobile. The same holds of the width at mount.
pub proof fn lemma_resize_decides_layout(state: StateView, width: u32, search_is_external: bool)
    ensures
        state.next(EventView::Resize { width }).is_mobile == (width <= 768),
        StateView::initial(width, search_is_external).is_mobile == (width <= 768),
        state.next(EventView::Resize { width: 768 }).is_mobile,
        !state.next(EventView::Resize { width: 769 }).is_mobile,
{
}

/// After `n` clicks on the hamburger toggle the mobile menu has changed
/// sides exactly when `n` is odd, and nothing else has changed. From a closed
/// menu, as at mount, it is open exactly when `n` is odd.
pub proof fn lemma_toggle_parity(state: StateView, n: nat)
    ensures
        state.after_toggle_clicks(n) == (StateView {
            is_mobile_menu_open: state.is_mobile_menu_open != (n % 2 == 1),
            ..state
        }),
        !state.is_mobile_menu_open ==> state.after_toggle_clicks(n).is_mobile_menu_open == (n % 2
            == 1),
    decreases n,
{
    if n > 0 {
        lemma_toggle_parity(state, (n - 1) as nat);
    }
}

/// A click that reaches the document closes the mobile menu, whatever the
/// state was, and changes nothing else.
pub proof fn lemma_document_click_closes_mobile_menu(state: StateView)
    ensures
        !state.next(EventView::DocumentClick).is_mobile_menu_open,
        state.next(EventView::DocumentClick) == (StateView {
            is_mobile_menu_open: false,
            ..state
        }),
{
}

/// A click on the hamburger toggle is kept from the document, so the click
/// that opens the mobile menu leaves it open. Of the listeners of the bar, the
/// two toggles keep their clicks from the document and the others let their
/// events travel on.
pub proof fn lemma_toggle_click_stays_inside(state: StateView, handler: Handler, value: Seq<char>)
    ensures
        state.effect(EventView::ToggleClick).stop_propagation,
        !state.is_mobile_menu_open ==> state.next(EventView::ToggleClick).is_mobile_menu_open,
        state.effect(handler_event(handler, value)).stop_propagation == (handler
            == Handler::ToggleMobileMenu || handler == Handler::ToggleDropdown),
{
}

/// There is one search text, and an input event makes it the value that the
/// event carries. Where the navigation bar owns the text, the next state
/// holds the value and nothing is written to the application. Where the
/// application owns it, the state keeps no copy, the host is told to write
/// the value to the handle, and once the handle holds it the search text is
/// the value.
pub proof fn lemma_search_text_is_single(
    state: StateView,
    external: Option<Seq<char>>,
    value: Seq<char>,
)
    ensures
        ({
            let event = EventView::SearchInput { value };
            let next = state.next(event);
            &&& next.owned_search is Some == state.owned_search is Some
            &&& state.owned_search is Some ==> {
                &&& next.search_text(external) == value
                &&& state.effect(event).publish_search is None
            }
            &&& state.owned_search is None ==> {
                &&& next == state
                &&& state.effect(event).publish_search == Some(value)
                &&& next.search_text(Some(value)) == value
            }
        }),
{
}

} // verus!
