//! A clipboard history engine: content model, the decisions of the
//! synchronisation loop, the bounded history and its styling rules.

pub mod content;
pub mod clipboard;
pub mod history;
pub mod style;
