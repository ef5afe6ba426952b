//! Screen flow and UI interaction core of a small graphical application:
//! a splash screen that times out into a main menu, a menu that dispatches
//! to game and about screens, an event router that drives button highlight
//! feedback, and a builder for composite button widgets — all specified
//! against an explicit entity/component store.

pub mod about;
pub mod color_scheme;
pub mod events;
pub mod menu;
pub mod splash;
pub mod sprites;
pub mod state;
pub mod strutil;
pub mod ui_scheme;
pub mod world;
