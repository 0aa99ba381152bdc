//! Validated file-access command layer for a desktop SVG editor.
//!
//! The crate mediates every read and write between a UI front end and the
//! host filesystem: paths are checked against an extension policy before any
//! access, failures carry a fixed taxonomy, native "open/save" picker results
//! are normalized into one representation, and window theming is modeled as a
//! state transition whose side effects are an explicit action list.

pub mod dialog;
pub mod file_io;
pub mod theme;
pub mod validation;

pub use validation::ValidationError;
