//! The intermediate representation: quadruples, the passes that rewrite
//! them, and the lowering that produces them.

pub mod irgen;
pub mod optimal;
