//! What the backend hands to the writer of object files.

pub mod builder;
pub mod dll;
pub mod link;
