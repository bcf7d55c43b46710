use crate::abi::target::ABITargetArch;
use crate::abi::targets::x86_64::types::X86_64TargetDependentType;
use crate::abi::types::{spec_abi_views, ABIFloatKind, ABIType, ABITypeView, TargetIntegerType};
use crate::cir::layout_spec::{
    spec_align_offset, spec_enum_layout_in, spec_heights_sum, spec_layout_in, spec_type_height,
    CIRTypeContextView, CIRTypeDefView,
};
use crate::cir::typectx::{CIRTypeContext, CIRTypeDef};
use crate::cir::types::{
    lemma_cir_views_index, spec_cir_views, spec_const_inner, spec_is_packed, spec_is_scalar_optimizable,
    spec_tag_type, CIREnumType, CIREnumTypeView, CIRType, CIRTypeView, PlainType,
};
use vstd::prelude::*;

verus! {

/// `offset` rounded up to the next multiple of `align`.
pub fn align_offset(offset: u32, align: u32) -> (r: u32)
    requires
        spec_align_offset(offset, align) is Some,
    ensures
        Some(r) == spec_align_offset(offset, align),
{
    let rem = offset % align;
    if rem == 0 {
        offset
    } else {
        offset + (align - rem)
    }
}


/// The ABI type of a plain type: integers by bit width (booleans as 1 bit,
/// characters as 8), pointer-sized integers as target integer types on x86-64,
/// floats by kind, `void` as void and `null` as a pointer.
pub open spec fn spec_plain_to_abi(arch: ABITargetArch, p: PlainType) -> ABITypeView {
    let target_int = |t: X86_64TargetDependentType| if arch == ABITargetArch::X86_64 {
        ABITypeView::TargetIntegerType(TargetIntegerType::X86_64(t))
    } else {
        ABITypeView::Integer(if arch == ABITargetArch::Wasm32 { 32 } else { 64 })
    };
    match p {
        PlainType::Int8 | PlainType::UInt8 | PlainType::Char => ABITypeView::Integer(8),
        PlainType::Int16 | PlainType::UInt16 => ABITypeView::Integer(16),
        PlainType::Int32 | PlainType::UInt32 | PlainType::Int | PlainType::UInt => ABITypeView::Integer(32),
        PlainType::Int64 | PlainType::UInt64 => ABITypeView::Integer(64),
        PlainType::Int128 | PlainType::UInt128 => ABITypeView::Integer(128),
        PlainType::Bool => ABITypeView::Integer(1),
        PlainType::IntPtr => target_int(X86_64TargetDependentType::IntPtr),
        PlainType::UIntPtr => target_int(X86_64TargetDependentType::UIntPtr),
        PlainType::ISize => target_int(X86_64TargetDependentType::ISize),
        PlainType::USize => target_int(X86_64TargetDependentType::USize),
        PlainType::Float16 => ABITypeView::Float(ABIFloatKind::F16),
        PlainType::Float32 => ABITypeView::Float(ABIFloatKind::F32),
        PlainType::Float64 => ABITypeView::Float(ABIFloatKind::F64),
        PlainType::Float128 => ABITypeView::Float(ABIFloatKind::F128),
        PlainType::Void => ABITypeView::Void,
        PlainType::Null => ABITypeView::Pointer,
    }
}

/// The ABI type of a type, following at most `bound` references in a row: structs and unions
/// by their lowered fields, arrays element-wise, pointers and functions as
/// pointers, interface objects as two pointers, enums as their tag when they
/// are scalar and otherwise as the tag followed by a byte array filling the
/// rest of the enum.
pub open spec fn spec_to_abi_in(ctx: CIRTypeContextView, t: CIRTypeView, bound: nat) -> Option<ABITypeView>
    decreases bound, 0nat, spec_type_height(t),
{
    match t {
        CIRTypeView::Plain(p) => Some(spec_plain_to_abi(ctx.target_info.arch, p)),
        CIRTypeView::Const(i) => spec_to_abi_in(ctx, *i, bound),
        CIRTypeView::Pointer(_) => Some(ABITypeView::Pointer),
        CIRTypeView::FuncType(..) => Some(ABITypeView::Pointer),
        CIRTypeView::Array(e, len) => match spec_to_abi_in(ctx, *e, bound) {
            Some(el) => Some(ABITypeView::Array { element_ty: Box::new(el), count: len }),
            None => None,
        },
        CIRTypeView::Dynamic(_) => Some(ABITypeView::Struct(seq![ABITypeView::Pointer, ABITypeView::Pointer], false)),
        CIRTypeView::Struct(id) => if bound > 0 && id < ctx.defs.len() {
            match ctx.defs[id as int] {
                CIRTypeDefView::Struct(r) => match spec_fields_to_abi_in(ctx, r.fields, (bound - 1) as nat) {
                    Some(fs) => Some(ABITypeView::Struct(fs, spec_is_packed(r.repr_attr))),
                    None => None,
                },
                _ => None,
            }
        } else {
            None
        },
        CIRTypeView::Union(id) => if bound > 0 && id < ctx.defs.len() {
            match ctx.defs[id as int] {
                CIRTypeDefView::Union(r) => match spec_fields_to_abi_in(ctx, r.fields, (bound - 1) as nat) {
                    Some(fs) => Some(ABITypeView::Union(fs)),
                    None => None,
                },
                _ => None,
            }
        } else {
            None
        },
        CIRTypeView::Enum(id) => if bound > 0 && id < ctx.defs.len() {
            match ctx.defs[id as int] {
                CIRTypeDefView::Enum(e) => spec_enum_to_abi_in(ctx, e, (bound - 1) as nat),
                _ => None,
            }
        } else {
            None
        },
    }
}

/// The ABI type of an enum whose references lie below `bound`.
pub open spec fn spec_enum_to_abi_in(ctx: CIRTypeContextView, e: CIREnumTypeView, bound: nat) -> Option<ABITypeView>
    decreases bound, 2nat, 0nat,
{
    let tag = spec_tag_type(e);
    match spec_to_abi_in(ctx, tag, bound) {
        None => None,
        Some(tag_abi) => if spec_is_scalar_optimizable(e) {
            Some(tag_abi)
        } else {
            match (spec_enum_layout_in(ctx, e, bound), spec_layout_in(ctx, tag, bound)) {
                (Some(el), Some(tl)) => if tl.size <= el.size {
                    Some(ABITypeView::Struct(
                        seq![tag_abi, ABITypeView::Array {
                            element_ty: Box::new(ABITypeView::Integer(8)),
                            count: (el.size - tl.size) as usize,
                        }],
                        false,
                    ))
                } else {
                    None
                },
                _ => None,
            }
        },
    }
}

/// The ABI types of a list of types, `None` when one of them has none.
pub open spec fn spec_fields_to_abi_in(ctx: CIRTypeContextView, s: Seq<CIRTypeView>, bound: nat) -> Option<Seq<ABITypeView>>
    decreases bound, 1nat, spec_heights_sum(s),
{
    if s.len() == 0 {
        Some(Seq::empty())
    } else {
        match spec_fields_to_abi_in(ctx, s.drop_last(), bound) {
            None => None,
            Some(fs) => match spec_to_abi_in(ctx, s.last(), bound) {
                None => None,
                Some(f) => Some(fs.push(f)),
            },
        }
    }
}

/// The ABI type of a type in a context.
pub open spec fn spec_to_abi(ctx: CIRTypeContextView, t: CIRTypeView) -> Option<ABITypeView> {
    spec_to_abi_in(ctx, t, ctx.defs.len())
}

proof fn lemma_fields_to_abi_index(ctx: CIRTypeContextView, s: Seq<CIRTypeView>, bound: nat)
    requires
        spec_fields_to_abi_in(ctx, s, bound) is Some,
    ensures
        spec_fields_to_abi_in(ctx, s, bound).unwrap().len() == s.len(),
        forall|i: int|
            0 <= i < s.len() ==> spec_to_abi_in(ctx, #[trigger] s[i], bound) == Some(
                spec_fields_to_abi_in(ctx, s, bound).unwrap()[i],
            ),
    decreases s.len(),
{
    if s.len() > 0 {
        lemma_fields_to_abi_index(ctx, s.drop_last(), bound);
        assert forall|i: int| 0 <= i < s.len() implies spec_to_abi_in(ctx, #[trigger] s[i], bound) == Some(
            spec_fields_to_abi_in(ctx, s, bound).unwrap()[i],
        ) by {
            if i < s.len() - 1 {
                assert(s[i] == s.drop_last()[i]);
            }
        }
    }
}

fn plain_to_abi(arch: ABITargetArch, p: PlainType) -> (r: ABIType)
    ensures
        r@ == spec_plain_to_abi(arch, p),
{
    let target_int = |t: X86_64TargetDependentType| -> (r: ABIType)
        ensures
            r@ == (if arch == ABITargetArch::X86_64 {
                ABITypeView::TargetIntegerType(TargetIntegerType::X86_64(t))
            } else {
                ABITypeView::Integer(if arch == ABITargetArch::Wasm32 { 32 } else { 64 })
            }),
    {
        match arch {
            ABITargetArch::X86_64 => ABIType::TargetIntegerType(TargetIntegerType::X86_64(t)),
            ABITargetArch::Wasm32 => ABIType::Integer(32),
            _ => ABIType::Integer(64),
        }
    };
    match p {
        PlainType::Int8 | PlainType::UInt8 | PlainType::Char => ABIType::Integer(8),
        PlainType::Int16 | PlainType::UInt16 => ABIType::Integer(16),
        PlainType::Int32 | PlainType::UInt32 | PlainType::Int | PlainType::UInt => ABIType::Integer(32),
        PlainType::Int64 | PlainType::UInt64 => ABIType::Integer(64),
        PlainType::Int128 | PlainType::UInt128 => ABIType::Integer(128),
        PlainType::Bool => ABIType::Integer(1),
        PlainType::IntPtr => target_int(X86_64TargetDependentType::IntPtr),
        PlainType::UIntPtr => target_int(X86_64TargetDependentType::UIntPtr),
        PlainType::ISize => target_int(X86_64TargetDependentType::ISize),
        PlainType::USize => target_int(X86_64TargetDependentType::USize),
        PlainType::Float16 => ABIType::Float(ABIFloatKind::F16),
        PlainType::Float32 => ABIType::Float(ABIFloatKind::F32),
        PlainType::Float64 => ABIType::Float(ABIFloatKind::F64),
        PlainType::Float128 => ABIType::Float(ABIFloatKind::F128),
        PlainType::Void => ABIType::Void,
        PlainType::Null => ABIType::Pointer,
    }
}

pub(crate) fn to_abi_in(tctx: &CIRTypeContext, ty: &CIRType, Ghost(bound): Ghost<nat>) -> (r: ABIType)
    requires
        bound <= tctx@.defs.len(),
        spec_to_abi_in(tctx@, ty@, bound) is Some,
    ensures
        Some(r@) == spec_to_abi_in(tctx@, ty@, bound),
    decreases bound, 0nat, spec_type_height(ty@),
{
    match ty {
        CIRType::Plain(p) => plain_to_abi(tctx.target().arch, *p),
        CIRType::Const(inner) => to_abi_in(tctx, inner, Ghost(bound)),
        CIRType::Pointer(_) => ABIType::Pointer,
        CIRType::FuncType(_) => ABIType::Pointer,
        CIRType::Array(a) => {
            let el = to_abi_in(tctx, &a.element_type, Ghost(bound));
            ABIType::Array { element_ty: Box::new(el), count: a.len }
        },
        CIRType::Dynamic(_) => {
            let mut v: Vec<ABIType> = Vec::new();
            v.push(ABIType::Pointer);
            v.push(ABIType::Pointer);
            proof {
                crate::abi::types::lemma_abi_views_index(v@);
                assert(spec_abi_views(v@) =~= seq![ABITypeView::Pointer, ABITypeView::Pointer]);
            }
            ABIType::Struct(v, false)
        },
        CIRType::Struct(id) => {
            let def = tctx.def_at(id.0);
            match def {
                CIRTypeDef::Struct(s) => {
                    proof { assert(tctx@.defs[id.0 as int] == def@); }
                    let fs = fields_to_abi_in(tctx, &s.fields, Ghost((bound - 1) as nat));
                    ABIType::Struct(fs, s.is_packed())
                },
                _ => {
                    proof { assert(false); }
                    ABIType::Void
                },
            }
        },
        CIRType::Union(id) => {
            let def = tctx.def_at(id.0);
            match def {
                CIRTypeDef::Union(u) => {
                    proof { assert(tctx@.defs[id.0 as int] == def@); }
                    let fs = fields_to_abi_in(tctx, &u.fields, Ghost((bound - 1) as nat));
                    ABIType::Union(fs)
                },
                _ => {
                    proof { assert(false); }
                    ABIType::Void
                },
            }
        },
        CIRType::Enum(id) => {
            let def = tctx.def_at(id.0);
            match def {
                CIRTypeDef::Enum(e) => {
                    proof { assert(tctx@.defs[id.0 as int] == def@); }
                    proof { assert(spec_to_abi_in(tctx@, ty@, bound) == spec_enum_to_abi_in(tctx@, e@, (bound - 1) as nat)); }
                    enum_to_abi_in(tctx, e, Ghost((bound - 1) as nat))
                },
                _ => {
                    proof { assert(false); }
                    ABIType::Void
                },
            }
        },
    }
}

fn enum_to_abi_in(tctx: &CIRTypeContext, e: &CIREnumType, Ghost(bound): Ghost<nat>) -> (r: ABIType)
    requires
        bound <= tctx@.defs.len(),
        spec_enum_to_abi_in(tctx@, e@, bound) is Some,
    ensures
        Some(r@) == spec_enum_to_abi_in(tctx@, e@, bound),
    decreases bound, 2nat, 0nat,
{
    let tag = e.tag_type_or_infer_or_default();
    let tag_abi = to_abi_in(tctx, &tag, Ghost(bound));
    if e.is_scalar_optimizable() {
        tag_abi
    } else {
        let el = tctx.enum_layout_in(e, Ghost(bound));
        let tl = tctx.layout_in(&tag, Ghost(bound));
        let mut v: Vec<ABIType> = Vec::new();
        v.push(tag_abi);
        let byte = ABIType::Integer(8);
        proof { assert(byte@ == ABITypeView::Integer(8)); }
        let count = (el.size - tl.size) as usize;
        let arr = ABIType::Array { element_ty: Box::new(byte), count };
        proof { assert(arr@ == ABITypeView::Array { element_ty: Box::new(ABITypeView::Integer(8)), count }); }
        v.push(arr);
        proof {
            crate::abi::types::lemma_abi_views_index(v@);
            assert(spec_abi_views(v@) =~= seq![v@[0]@, v@[1]@]);
            assert(Some(el@) == spec_enum_layout_in(tctx@, e@, bound));
            assert(Some(tl@) == spec_layout_in(tctx@, spec_tag_type(e@), bound));
            assert(tl.size <= el.size);
        }
        ABIType::Struct(v, false)
    }
}

pub(crate) fn fields_to_abi_in(tctx: &CIRTypeContext, fields: &Vec<CIRType>, Ghost(bound): Ghost<nat>) -> (r: Vec<ABIType>)
    requires
        bound <= tctx@.defs.len(),
        spec_fields_to_abi_in(tctx@, spec_cir_views(fields@), bound) is Some,
    ensures
        Some(spec_abi_views(r@)) == spec_fields_to_abi_in(tctx@, spec_cir_views(fields@), bound),
    decreases bound, 1nat, spec_heights_sum(spec_cir_views(fields@)),
{
    let ghost fs = spec_fields_to_abi_in(tctx@, spec_cir_views(fields@), bound).unwrap();
    proof {
        lemma_fields_to_abi_index(tctx@, spec_cir_views(fields@), bound);
        lemma_cir_views_index(fields@);
        lemma_heights_sum_index(spec_cir_views(fields@));
    }
    let mut out: Vec<ABIType> = Vec::new();
    let mut i: usize = 0;
    while i < fields.len()
        invariant
            i <= fields.len(),
            bound <= tctx@.defs.len(),
            fs.len() == fields.len(),
            spec_cir_views(fields@).len() == fields.len(),
            forall|j: int| 0 <= j < fields.len() ==> #[trigger] spec_cir_views(fields@)[j] == fields@[j]@,
            forall|j: int| 0 <= j < fields.len() ==> spec_to_abi_in(tctx@, #[trigger] spec_cir_views(fields@)[j], bound) == Some(fs[j]),
            forall|j: int| 0 <= j < fields.len() ==> spec_type_height(#[trigger] spec_cir_views(fields@)[j]) <= spec_heights_sum(spec_cir_views(fields@)),
            out@.len() == i,
            forall|j: int| 0 <= j < i ==> out@[j]@ == fs[j],
        decreases fields.len() - i,
    {
        proof {
            assert(spec_cir_views(fields@)[i as int] == fields@[i as int]@);
        }
        let f = to_abi_in(tctx, &fields[i], Ghost(bound));
        out.push(f);
        i = i + 1;
    }
    proof {
        crate::abi::types::lemma_abi_views_index(out@);
        assert(spec_abi_views(out@) =~= fs);
    }
    out
}

proof fn lemma_heights_sum_index(s: Seq<CIRTypeView>)
    ensures
        forall|j: int| 0 <= j < s.len() ==> spec_type_height(#[trigger] s[j]) <= spec_heights_sum(s),
    decreases s.len(),
{
    if s.len() > 0 {
        lemma_heights_sum_index(s.drop_last());
        assert forall|j: int| 0 <= j < s.len() implies spec_type_height(#[trigger] s[j]) <= spec_heights_sum(s) by {
            if j < s.len() - 1 {
                assert(s[j] == s.drop_last()[j]);
            }
        }
    }
}

/// The ABI type of a type in a context.
pub fn cir_type_to_abi_type(tctx: &CIRTypeContext, ty: &CIRType) -> (r: ABIType)
    requires
        spec_to_abi(tctx@, ty@) is Some,
    ensures
        Some(r@) == spec_to_abi(tctx@, ty@),
{
    to_abi_in(tctx, ty, Ghost(tctx@.defs.len()))
}

/// Structs, unions, arrays and interface objects are aggregates for the ABI.
pub open spec fn spec_is_abi_aggregate(t: CIRTypeView) -> bool {
    match spec_const_inner(t) {
        CIRTypeView::Struct(_) | CIRTypeView::Union(_) | CIRTypeView::Array(..) | CIRTypeView::Dynamic(_) => true,
        _ => false,
    }
}

/// Whether a type is passed as an aggregate.
pub fn is_cir_type_abi_aggregate(ty: &CIRType) -> (r: bool)
    ensures
        r == spec_is_abi_aggregate(ty@),
{
    match ty.const_inner() {
        CIRType::Struct(_) | CIRType::Union(_) | CIRType::Array(_) | CIRType::Dynamic(_) => true,
        _ => false,
    }
}

} // verus!
