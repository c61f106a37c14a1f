//! The intermediate representation that the backend consumes.

pub mod builder;
pub mod dump;
pub mod func;
pub mod nodes;
pub mod types;
