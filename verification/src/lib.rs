//! Core of a terminal font browser: the glyph table of a font, parsed from the
//! text that a font inspection tool prints, and the cursor state of the lists
//! that the browser shows. The crate owns no terminal and starts no process:
//! its callers perform those steps and hand the outcomes in as plain values.

pub mod app;
pub mod event_loop;
pub mod fonttools;
pub mod glyph;
pub mod lines;
pub mod list;
pub mod number;
pub mod pattern;
pub mod screen;
