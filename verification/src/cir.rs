pub mod layout_spec;
pub mod typectx;
pub mod typectx_keys;
pub mod typekey;
pub mod types;
pub mod values;
