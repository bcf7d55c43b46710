pub mod args;
pub mod callconv;
pub mod helpers;
pub mod layout;
pub mod mangler;
pub mod target;
pub mod targets;
pub mod types;
