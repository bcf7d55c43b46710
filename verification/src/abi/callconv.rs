use vstd::prelude::*;

verus! {

/// Calling conventions a function may declare.
#[derive(Debug, Clone, Copy, PartialEq, Eq, Structural)]
pub enum CallConv {
    C,
    Stdcall,
    Fastcall,
    Thiscall,
    Vectorcall,
    SysV64,
    Win64,
    System,
    Naked,
    Interrupt,
    Fast,
    Cold,
    Aapcs,
}

/// Linkage a declaration may request.
#[derive(Debug, Clone, Copy, PartialEq, Eq, Structural)]
pub enum Linkage {
    Extern(Option<CallConv>),
    Weak,
    LinkOnce,
}

/// The representation a type declaration asks for.
#[derive(Debug, Clone, Copy, PartialEq, Eq, Structural)]
pub enum ReprKind {
    C,
    Cyrus,
    Transparent,
}

/// A `repr` attribute: an optional representation kind and a packed flag.
#[derive(Debug, Clone, Copy, PartialEq, Eq, Structural)]
pub struct ReprAttr {
    pub kind: Option<ReprKind>,
    pub packed: bool,
}

impl ReprAttr {
    pub fn is_packed(&self) -> (r: bool)
        ensures
            r == self.packed,
    {
        self.packed
    }

    pub fn kind(&self) -> (r: Option<ReprKind>)
        ensures
            r == self.kind,
    {
        self.kind
    }
}

} // verus!
