//! The parser.

pub mod helper;
pub mod parse;
