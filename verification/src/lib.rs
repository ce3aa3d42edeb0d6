//! A small compiler from a C-like language to RISC-V assembly text.
//!
//! The back end is the heart of it: `ir::irgen` lowers a checked syntax
//! tree to quadruples, `ir::optimal` runs four optimisation passes over
//! them, once each and in a fixed order, and `assembly::asmgen` emits the
//! assembly text, with a register for each name of a function. Every pass
//! is stated as a function on sequences of quadruples and proved to
//! compute it.
//!
//! The front end produces the tree: `lexer` turns a source text into
//! tokens, `parser` runs a table-driven shift-reduce machine that builds
//! the concrete tree, and `ast` builds the abstract tree from it, with
//! its symbol tables and type checks.
//!
//! Where a stage can fail, it comes in two forms: one that returns `None`
//! exactly on the inputs on which it fails, under a name that begins with
//! `try_`, and one under the plain name that asks for an input on which
//! it does not fail.

pub mod assembly;
pub mod ast;
pub mod bindings;
pub mod ir;
pub mod lexer;
pub mod parser;
pub mod text;
pub mod utils;
