//! A typed front end for the `dmenu` menu program.
//!
//! The crate holds everything about a menu call that can be computed: the
//! configuration and its command line, the text that is piped into the menu,
//! and the way back from the line the menu printed to the item it stands for.
//! Running the shell is left to the caller, who hands the prepared line to
//! `sh -c` and the outcome to `resolve`.

pub mod decimal;
pub mod error;
pub mod execute;
pub mod menu;
pub mod selection;
pub mod text;

pub use error::{ExecuteError, ItemNotFoundError};
pub use execute::TextPrompt;
pub use menu::{Color, DMenu};
pub use selection::Selection;
