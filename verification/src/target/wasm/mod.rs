//! The WebAssembly target.

pub mod encode;
pub mod instr;
pub mod lower;
pub mod optimizer;
pub mod print;
