//! Handles of the values a lowered module defines.
use vstd::prelude::*;

verus! {

/// The handle of a value (a function, a global or a local variable) in a
/// lowered module.
#[derive(Debug, Copy, Clone, PartialEq, Eq, Hash, Structural)]
pub struct IRValueID(pub u32);

/// A value with its handle and what kind of value it is.
#[derive(Debug, Copy, Clone, PartialEq, Eq, Structural)]
pub struct CIRValue {
    pub irv_id: IRValueID,
    pub kind: CIRValueKind,
}

#[derive(Debug, Copy, Clone, PartialEq, Eq, Structural)]
pub enum CIRValueKind {
    Func,
    GlobalVar,
    LocalVariable,
}

} // verus!
