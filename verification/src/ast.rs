//! The abstract syntax tree.

pub mod astgen;
pub mod helper;
pub mod types;
