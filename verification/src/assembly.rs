//! The code generator: from quadruples to RISC-V assembly text.

pub mod asmgen;
