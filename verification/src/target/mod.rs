//! Target descriptions: registers, instruction sets, lowering and encoding.

pub mod backend;
pub mod registry;
pub mod triple;
pub mod wasm;
pub mod x64;
