//! A small to-do list core: an ordered list of items with a selection and a
//! scrolling viewport, plus an edit-mode text buffer for composing new items.
//! Every operation is total and verified; rendering and terminal I/O live
//! outside this crate.

pub mod app;
pub mod tudu;
