//! The second supported broker format: one self-describing JSON document
//! with a trades section, a cash-flow section and a cash-in/out list.

pub mod from;
pub mod model;
pub mod parse;
