pub mod classify;
pub mod classify_spec;
pub mod lowering_spec;
pub mod target_abi;
pub mod types;
