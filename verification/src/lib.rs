//! A durable store for one authentication session.
//!
//! The session is a record of three strings, kept as one JSON object in one
//! file. This library holds the record, the text that is written for it, the
//! rules by which a file's contents are read back, and the laws that relate
//! writing and reading. Reading and writing the file itself is left to the
//! caller, who hands the library an image of the file.
//!
//! Beside the store stand two small rules of the application around it: the
//! text that is written for the home-screen widget, and what the global
//! shortcut does to the quick-add window.

pub mod text;
pub mod session;
pub mod json;
pub mod codec;
pub mod store;
pub mod widget;
pub mod shortcut;
