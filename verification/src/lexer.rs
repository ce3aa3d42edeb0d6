//! The tokenizer.

pub mod dfa;
pub mod file;
pub mod helper;
pub mod lexer;
