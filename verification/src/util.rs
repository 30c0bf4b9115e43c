//! Helpers for text.

pub mod ctrl_chars;
pub mod format;
