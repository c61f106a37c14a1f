//! The x86-64 target.

pub mod encode;
pub mod instr;
pub mod isa;
pub mod lower;
pub mod optimizer;
pub mod print;
pub mod reg;
