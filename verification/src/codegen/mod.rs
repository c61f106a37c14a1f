//! Code generation that is common to all targets.

pub mod calling;
pub mod compile;
pub mod error;
pub mod machine;
pub mod mc;
pub mod placement;
pub mod reg_alloc;
