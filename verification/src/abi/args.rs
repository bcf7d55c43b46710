use crate::abi::types::{clone_abi_type, clone_abi_types, ABIType, ABITypeView};
use crate::cir::types::{CIRType, CIRTypeView};
use vstd::prelude::*;

verus! {

/// Free (or needed) argument registers of each class.
#[derive(Debug, Clone, Copy, PartialEq, Eq, Structural)]
pub struct Registers {
    pub int_regs: u32,
    pub sse_regs: u32,
}

impl Registers {
    pub fn new() -> (r: Self)
        ensures
            r == (Registers { int_regs: 0, sse_regs: 0 }),
    {
        Registers { int_regs: 0, sse_regs: 0 }
    }
}

/// Attributes an argument is passed with.
#[derive(Debug, Clone, Copy, PartialEq, Eq, Structural)]
pub struct ABIArgAttrs {
    pub zero_ext: bool,
    pub sign_ext: bool,
    pub by_val: bool,
}

impl ABIArgAttrs {
    pub fn none() -> (r: Self)
        ensures
            r == (ABIArgAttrs { zero_ext: false, sign_ext: false, by_val: false }),
    {
        ABIArgAttrs { zero_ext: false, sign_ext: false, by_val: false }
    }
}

/// How one argument is passed.
#[derive(Debug)]
pub enum ABIArgKind {
    /// In registers as its own type, or coerced to `coerce_to`.
    Direct { coerce_to: Option<ABIType> },
    /// In registers, coerced to `ty`.
    DirectCoerce { ty: ABIType },
    /// In two registers holding `lo` and `hi`.
    DirectPair { lo: ABIType, hi: ABIType },
    /// In memory behind a pointer, with the given alignment.
    Indirect { align: u32, ty: ABIType },
    /// Not passed at all.
    Ignore,
}

pub enum ABIArgKindView {
    Direct { coerce_to: Option<ABITypeView> },
    DirectCoerce { ty: ABITypeView },
    DirectPair { lo: ABITypeView, hi: ABITypeView },
    Indirect { align: u32, ty: ABITypeView },
    Ignore,
}

impl View for ABIArgKind {
    type V = ABIArgKindView;

    open spec fn view(&self) -> ABIArgKindView {
        match self {
            ABIArgKind::Direct { coerce_to } => ABIArgKindView::Direct {
                coerce_to: match coerce_to {
                    Some(t) => Some(t@),
                    None => None,
                },
            },
            ABIArgKind::DirectCoerce { ty } => ABIArgKindView::DirectCoerce { ty: ty@ },
            ABIArgKind::DirectPair { lo, hi } => ABIArgKindView::DirectPair { lo: lo@, hi: hi@ },
            ABIArgKind::Indirect { align, ty } => ABIArgKindView::Indirect { align: *align, ty: ty@ },
            ABIArgKind::Ignore => ABIArgKindView::Ignore,
        }
    }
}

/// How one argument is passed, with its attributes and the range of lowered
/// parameters it occupies.
#[derive(Debug)]
pub struct ABIArgInfo {
    pub kind: ABIArgKind,
    pub attrs: ABIArgAttrs,
    pub param_index_start: u16,
    pub param_index_end: u16,
}

pub struct ABIArgInfoView {
    pub kind: ABIArgKindView,
    pub attrs: ABIArgAttrs,
    pub param_index_start: u16,
    pub param_index_end: u16,
}

impl View for ABIArgInfo {
    type V = ABIArgInfoView;

    open spec fn view(&self) -> ABIArgInfoView {
        ABIArgInfoView {
            kind: self.kind@,
            attrs: self.attrs,
            param_index_start: self.param_index_start,
            param_index_end: self.param_index_end,
        }
    }
}

/// An argument passed in registers as its own type, without attributes.
pub open spec fn spec_direct() -> ABIArgInfoView {
    ABIArgInfoView {
        kind: ABIArgKindView::Direct { coerce_to: None },
        attrs: ABIArgAttrs { zero_ext: false, sign_ext: false, by_val: false },
        param_index_start: 0,
        param_index_end: 0,
    }
}

/// An argument with the given kind and attributes and an empty parameter range.
pub open spec fn spec_arg(kind: ABIArgKindView, attrs: ABIArgAttrs) -> ABIArgInfoView {
    ABIArgInfoView { kind, attrs, param_index_start: 0, param_index_end: 0 }
}

pub open spec fn spec_no_attrs() -> ABIArgAttrs {
    ABIArgAttrs { zero_ext: false, sign_ext: false, by_val: false }
}

impl ABIArgInfo {
    pub fn direct() -> (r: Self)
        ensures
            r@ == spec_direct(),
    {
        ABIArgInfo {
            kind: ABIArgKind::Direct { coerce_to: None },
            attrs: ABIArgAttrs::none(),
            param_index_start: 0,
            param_index_end: 0,
        }
    }

    pub fn ignore() -> (r: Self)
        ensures
            r@ == spec_arg(ABIArgKindView::Ignore, spec_no_attrs()),
    {
        ABIArgInfo { kind: ABIArgKind::Ignore, attrs: ABIArgAttrs::none(), param_index_start: 0, param_index_end: 0 }
    }

    pub fn direct_coerce(ty: ABIType) -> (r: Self)
        ensures
            r@ == spec_arg(ABIArgKindView::DirectCoerce { ty: ty@ }, spec_no_attrs()),
    {
        ABIArgInfo {
            kind: ABIArgKind::DirectCoerce { ty },
            attrs: ABIArgAttrs::none(),
            param_index_start: 0,
            param_index_end: 0,
        }
    }

    pub fn direct_pair(lo: ABIType, hi: ABIType) -> (r: Self)
        ensures
            r@ == spec_arg(ABIArgKindView::DirectPair { lo: lo@, hi: hi@ }, spec_no_attrs()),
    {
        ABIArgInfo {
            kind: ABIArgKind::DirectPair { lo, hi },
            attrs: ABIArgAttrs::none(),
            param_index_start: 0,
            param_index_end: 0,
        }
    }

    pub fn with_attrs(self, attrs: ABIArgAttrs) -> (r: Self)
        ensures
            r@ == (ABIArgInfoView { attrs, ..self@ }),
    {
        ABIArgInfo { attrs, ..self }
    }

    pub fn with_indices(self, start: u16, end: u16) -> (r: Self)
        ensures
            r@ == (ABIArgInfoView { param_index_start: start, param_index_end: end, ..self@ }),
    {
        ABIArgInfo { param_index_start: start, param_index_end: end, ..self }
    }
}

/// How a return value is passed back.
#[derive(Debug)]
pub enum ABIRetInfoKind {
    Direct { coerce_to: Option<ABIType> },
    DirectPair { lo: ABIType, hi: ABIType },
    Indirect { sret: bool },
    Ignore,
}

pub enum ABIRetInfoKindView {
    Direct { coerce_to: Option<ABITypeView> },
    DirectPair { lo: ABITypeView, hi: ABITypeView },
    Indirect { sret: bool },
    Ignore,
}

impl View for ABIRetInfoKind {
    type V = ABIRetInfoKindView;

    open spec fn view(&self) -> ABIRetInfoKindView {
        match self {
            ABIRetInfoKind::Direct { coerce_to } => ABIRetInfoKindView::Direct {
                coerce_to: match coerce_to {
                    Some(t) => Some(t@),
                    None => None,
                },
            },
            ABIRetInfoKind::DirectPair { lo, hi } => ABIRetInfoKindView::DirectPair { lo: lo@, hi: hi@ },
            ABIRetInfoKind::Indirect { sret } => ABIRetInfoKindView::Indirect { sret: *sret },
            ABIRetInfoKind::Ignore => ABIRetInfoKindView::Ignore,
        }
    }
}

impl ABIRetInfoKind {
    pub fn is_indirect(&self) -> (r: bool)
        ensures
            r == (self@ is Indirect),
    {
        match self {
            ABIRetInfoKind::Indirect { .. } => true,
            _ => false,
        }
    }
}

/// How a return value is passed, with its lowered type and source type.
#[derive(Debug)]
pub struct ABIRetInfo {
    pub abi_type: ABIType,
    pub kind: ABIRetInfoKind,
    pub cir_ret_type: Box<CIRType>,
}

pub struct ABIRetInfoView {
    pub abi_type: ABITypeView,
    pub kind: ABIRetInfoKindView,
    pub cir_ret_type: CIRTypeView,
}

impl View for ABIRetInfo {
    type V = ABIRetInfoView;

    open spec fn view(&self) -> ABIRetInfoView {
        ABIRetInfoView { abi_type: self.abi_type@, kind: self.kind@, cir_ret_type: (*self.cir_ret_type)@ }
    }
}

/// The lowering of a whole function signature.
#[derive(Debug)]
pub struct ABIFunctionInfo {
    pub params_infos: Vec<ABIArgInfo>,
    pub params_types: Vec<ABIType>,
    pub ret_info: ABIRetInfo,
}

pub struct ABIFunctionInfoView {
    pub params_infos: Seq<ABIArgInfoView>,
    pub params_types: Seq<ABITypeView>,
    pub ret_info: ABIRetInfoView,
}

impl View for ABIFunctionInfo {
    type V = ABIFunctionInfoView;

    open spec fn view(&self) -> ABIFunctionInfoView {
        ABIFunctionInfoView {
            params_infos: self.params_infos@.map_values(|a: ABIArgInfo| a@),
            params_types: crate::abi::types::spec_abi_views(self.params_types@),
            ret_info: self.ret_info@,
        }
    }
}

impl ABIArgKind {
    /// A copy of the argument kind.
    pub fn clone_kind(&self) -> (r: ABIArgKind)
        ensures
            r@ == self@,
    {
        match self {
            ABIArgKind::Direct { coerce_to } => ABIArgKind::Direct {
                coerce_to: match coerce_to {
                    Some(t) => Some(clone_abi_type(t)),
                    None => None,
                },
            },
            ABIArgKind::DirectCoerce { ty } => ABIArgKind::DirectCoerce { ty: clone_abi_type(ty) },
            ABIArgKind::DirectPair { lo, hi } => ABIArgKind::DirectPair { lo: clone_abi_type(lo), hi: clone_abi_type(hi) },
            ABIArgKind::Indirect { align, ty } => ABIArgKind::Indirect { align: *align, ty: clone_abi_type(ty) },
            ABIArgKind::Ignore => ABIArgKind::Ignore,
        }
    }
}

impl ABIArgInfo {
    /// A copy of the argument's lowering.
    pub fn clone_info(&self) -> (r: ABIArgInfo)
        ensures
            r@ == self@,
    {
        ABIArgInfo {
            kind: self.kind.clone_kind(),
            attrs: self.attrs,
            param_index_start: self.param_index_start,
            param_index_end: self.param_index_end,
        }
    }
}

impl ABIRetInfoKind {
    /// A copy of the return kind.
    pub fn clone_kind(&self) -> (r: ABIRetInfoKind)
        ensures
            r@ == self@,
    {
        match self {
            ABIRetInfoKind::Direct { coerce_to } => ABIRetInfoKind::Direct {
                coerce_to: match coerce_to {
                    Some(t) => Some(clone_abi_type(t)),
                    None => None,
                },
            },
            ABIRetInfoKind::DirectPair { lo, hi } => ABIRetInfoKind::DirectPair {
                lo: clone_abi_type(lo),
                hi: clone_abi_type(hi),
            },
            ABIRetInfoKind::Indirect { sret } => ABIRetInfoKind::Indirect { sret: *sret },
            ABIRetInfoKind::Ignore => ABIRetInfoKind::Ignore,
        }
    }
}

impl ABIFunctionInfo {
    /// A copy of the signature's lowering.
    pub fn clone_info(&self) -> (r: ABIFunctionInfo)
        ensures
            r@ == self@,
        decreases self,
    {
        let mut params_infos: Vec<ABIArgInfo> = Vec::new();
        let mut i: usize = 0;
        while i < self.params_infos.len()
            invariant
                i <= self.params_infos.len(),
                params_infos@.len() == i,
                forall|j: int| 0 <= j < i ==> #[trigger] params_infos@[j]@ == self.params_infos@[j]@,
            decreases self.params_infos.len() - i,
        {
            params_infos.push(self.params_infos[i].clone_info());
            i = i + 1;
        }
        let ret_info = ABIRetInfo {
            abi_type: clone_abi_type(&self.ret_info.abi_type),
            kind: self.ret_info.kind.clone_kind(),
            cir_ret_type: Box::new((*self.ret_info.cir_ret_type).clone()),
        };
        let r = ABIFunctionInfo { params_infos, params_types: clone_abi_types(&self.params_types), ret_info };
        proof {
            assert(r@.params_infos =~= self@.params_infos);
        }
        r
    }
}

} // verus!
