//! Editing core of a PSBT explorer: text codecs for the editable values of a
//! partially signed transaction, the edit operations on it, each of which
//! yields its own inverse, and the undo/redo log built on them.
//!
//! - `fields`, `codecs`: how a value shows as a fixed number of texts and is
//!   read back, with the rule that a blank text means an absent value.
//! - `hex`, `encoding`: the text and binary encodings, as far as they are
//!   written down here, and the calls into the `bitcoin` crate that make
//!   and read them.
//! - `values`, `keymap`, `document`: the document and what it holds.
//! - `operations`: the changes to the document, each returning the change
//!   that takes it back.
//! - `history`, `controller`: the log of changes, and the state that keeps
//!   log and document fitting each other.
//! - `editor`, `io_boxes`: what the boxes of the page decide.

pub mod codecs;
pub mod controller;
pub mod document;
pub mod editor;
pub mod encoding;
pub mod fields;
pub mod hex;
pub mod history;
pub mod io_boxes;
pub mod keymap;
pub mod operations;
pub mod values;
