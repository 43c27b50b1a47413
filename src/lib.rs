//! Turns what the user types, key by key or as a whole command line, into
//! the action they ask for, without looking at the state of the application.

pub mod action;
pub mod command;
pub mod event;
pub mod parts;
pub mod text;

pub use action::Action;
pub use command::Command;
pub use event::{Event, KeyEvent};
pub use parts::CommandParts;
