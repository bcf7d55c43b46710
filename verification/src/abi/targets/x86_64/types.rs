use crate::abi::target::{spec_pointer_align, spec_pointer_size, ABITargetInfo};
use crate::cir::types::PlainType;
use vstd::prelude::*;

verus! {

/// Integer types whose width depends on the x86-64 target.
#[derive(Debug, Clone, Copy, PartialEq, Eq, Structural)]
pub enum X86_64TargetDependentType {
    IntPtr,
    UIntPtr,
    ISize,
    USize,
    Int,
    UInt,
}

impl X86_64TargetDependentType {
    /// Size in bytes: pointer-sized kinds follow the target, `Int`/`UInt` are 4 bytes.
    pub open spec fn spec_size(&self, target: ABITargetInfo) -> u32 {
        match self {
            X86_64TargetDependentType::Int | X86_64TargetDependentType::UInt => 4,
            _ => spec_pointer_size(target.arch),
        }
    }

    /// Alignment in bytes: pointer-sized kinds follow the target, `Int`/`UInt` are 4 bytes.
    pub open spec fn spec_align(&self, target: ABITargetInfo) -> u32 {
        match self {
            X86_64TargetDependentType::Int | X86_64TargetDependentType::UInt => 4,
            _ => spec_pointer_align(target.arch),
        }
    }

    pub fn size(&self, target: &ABITargetInfo) -> (r: u32)
        ensures
            r == self.spec_size(*target),
    {
        match self {
            X86_64TargetDependentType::IntPtr
            | X86_64TargetDependentType::UIntPtr
            | X86_64TargetDependentType::ISize
            | X86_64TargetDependentType::USize => target.pointer_size(),
            X86_64TargetDependentType::Int | X86_64TargetDependentType::UInt => 4,
        }
    }

    pub fn align(&self, target: &ABITargetInfo) -> (r: u32)
        ensures
            r == self.spec_align(*target),
    {
        match self {
            X86_64TargetDependentType::IntPtr
            | X86_64TargetDependentType::UIntPtr
            | X86_64TargetDependentType::ISize
            | X86_64TargetDependentType::USize => target.pointer_align(),
            X86_64TargetDependentType::Int | X86_64TargetDependentType::UInt => 4,
        }
    }

    /// The kind a pointer-sized plain type is.
    pub fn from_plain_type(plain_type: &PlainType) -> (r: Self)
        requires
            *plain_type == PlainType::IntPtr || *plain_type == PlainType::UIntPtr || *plain_type == PlainType::ISize
                || *plain_type == PlainType::USize,
        ensures
            r == match *plain_type {
                PlainType::IntPtr => X86_64TargetDependentType::IntPtr,
                PlainType::UIntPtr => X86_64TargetDependentType::UIntPtr,
                PlainType::ISize => X86_64TargetDependentType::ISize,
                _ => X86_64TargetDependentType::USize,
            },
    {
        match plain_type {
            PlainType::IntPtr => X86_64TargetDependentType::IntPtr,
            PlainType::UIntPtr => X86_64TargetDependentType::UIntPtr,
            PlainType::ISize => X86_64TargetDependentType::ISize,
            PlainType::USize => X86_64TargetDependentType::USize,
            _ => vstd::pervasive::unreached(),
        }
    }

    /// Width in bits: eight times the size.
    pub fn bit_width(&self, target: &ABITargetInfo) -> (r: u32)
        ensures
            r == self.spec_size(*target) * 8,
    {
        self.size(target) * 8
    }
}

} // verus!
