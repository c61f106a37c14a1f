//! A retargetable compiler backend: an intermediate representation of
//! functions is lowered to machine instructions, optimized locally and
//! encoded into bytes together with the relocations the bytes still need.
#![allow(non_snake_case)]
#![allow(non_camel_case_types)]

pub mod text;
pub mod codegen;
pub mod ir;
pub mod obj;
pub mod target;
