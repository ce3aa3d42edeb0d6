//! Small shared definitions.

pub mod helper;
pub mod parse;
pub mod types;
