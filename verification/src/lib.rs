//! An embeddable plain-text editor core: a text buffer, the file it belongs
//! to, and the decisions behind open, save and save-as.
//!
//! The crate holds no window and touches no file. Each operation answers with
//! the [`Action`] that the host has to perform, and the host reports what came
//! of it as an [`Event`].

pub mod editor;
pub mod host;
pub mod laws;
pub mod text;

pub use editor::Ferrugo;
pub use host::{Action, Done, Event, IoError};
pub use text::{count_chars, count_lines};
