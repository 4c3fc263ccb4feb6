//! A responsive navigation bar, rendered to a markup tree that a front-end
//! framework can display, together with the state it keeps.
//!
//! The bar is a pure function, [`Navbar`], of a configuration
//! ([`NavbarProps`]) and a state ([`NavbarState`]). The state changes by
//! [`NavbarState::apply`], one event at a time. The host framework owns the
//! rest: it turns the tree into what it displays, listens to the browser,
//! and hands each event to the state.

pub mod button;
pub mod logo;
pub mod markup;
pub mod mega_menu;
pub mod menu;
pub mod mobile_menu;
pub mod navbar;
pub mod profile;
pub mod state;
pub mod toggle;

pub use crate::button::{ButtonProps, NavbarButton};
pub use crate::logo::{LogoProps, NavbarLogo};
pub use crate::markup::{Attribute, DomEvent, Handler, Listener, Node};
pub use crate::mega_menu::{MegaMenu, MegaMenuItem, MegaMenuProps};
pub use crate::menu::{Menu, MenuProps, NavbarMenu};
pub use crate::mobile_menu::{MobileMenu, MobileMenuProps};
pub use crate::navbar::{Navbar, NavbarProps};
pub use crate::profile::{DropdownItem, ProfileMenu, ProfileMenuProps};
pub use crate::state::{Effect, Event, NavbarState, SearchText};
pub use crate::toggle::{NavbarToggle, ToggleProps};
