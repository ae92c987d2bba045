//! The text-buffer and viewport-rendering core of a terminal text
//! editor: a document of lines segmented into grapheme clusters with
//! per-cluster render widths, a caret tracked in logical coordinates,
//! structural edits, minimal scroll-into-view reconciliation, and the
//! width-aware visible slice of each line. Raw terminal I/O, key
//! decoding, and the event loop live with the caller.

pub mod buffer;
pub mod command;
pub mod editor;
pub mod line;
pub mod messagebar;
pub mod position;
pub mod segment;
pub mod status;
pub mod statusbar;
pub mod view;
