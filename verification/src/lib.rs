//! ABI lowering, type layout, name mangling and constant evaluation for the
//! Cyrus compiler, with machine-checked contracts.
#![allow(non_camel_case_types)]

pub mod abi;
pub mod cir;
pub mod compiler_options;
pub mod const_eval;
pub mod driver;
pub mod strings;
