//! Core of a single-document note editor: a UTF-8 text buffer with cursor and
//! selection, touch gesture recognition, input-method support and a debounced
//! persistence policy.

pub mod config;
pub mod edits;
pub mod geometry;
pub mod ime;
pub mod keyboard;
pub mod keys;
pub mod layout;
pub mod persist;
pub mod scan;
pub mod text_box;
pub mod touch;
pub mod utf8;
pub mod window;
