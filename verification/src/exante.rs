//! The first supported broker format: a tab-delimited, multi-section text
//! export. Sections are recognized by their header rows at runtime; the
//! decoder is a small state machine over lines.

pub mod from;
pub mod model;
pub mod parse;
