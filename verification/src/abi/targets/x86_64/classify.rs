//! System V x86-64 argument and return value classification.
use crate::abi::args::Registers;
use crate::abi::target::{ABITargetInfo, RegisterClass};
use crate::abi::targets::x86_64::classify_spec::{
    spec_classify_array_elems, spec_classify_enum_in, spec_classify_fields, spec_classify_in,
    spec_classify_merge, spec_classify_plain, spec_classify_post_merge, spec_classify_record_in,
    spec_initial_classes, spec_plain_record_layout,
};
use crate::cir::layout_spec::{spec_layout_in, spec_layouts_in, spec_type_height};
use crate::cir::typectx::{lemma_layouts_in_index, CIRTypeContext, CIRTypeDef};
use crate::cir::types::{
    lemma_cir_views_index, spec_cir_view, spec_cir_views, CIRArrayType, CIREnumType, CIRType, CIRTypeView, PlainType,
};
use vstd::prelude::*;

verus! {

broadcast use vstd::std_specs::vec::group_vec_axioms;

/// Merges the class of a field into the class of an eightbyte.
pub fn classify_merge(current: RegisterClass, field: RegisterClass) -> (r: RegisterClass)
    ensures
        r == spec_classify_merge(current, field),
{
    if current == field {
        return current;
    }
    if current == RegisterClass::NoClass {
        return field;
    }
    if field == RegisterClass::NoClass {
        return current;
    }
    if current == RegisterClass::Integer || field == RegisterClass::Integer {
        return RegisterClass::Integer;
    }
    if (current == RegisterClass::SSE && field == RegisterClass::SSEUP) || (current == RegisterClass::SSEUP
        && field == RegisterClass::SSE) {
        return RegisterClass::SSE;
    }
    RegisterClass::Memory
}

/// The final clean-up of an aggregate's (low, high) classes.
pub fn classify_post_merge(size: u32, lo_class: RegisterClass, hi_class: RegisterClass) -> (r: (
    RegisterClass,
    RegisterClass,
))
    ensures
        r == spec_classify_post_merge(size, lo_class, hi_class),
{
    if hi_class == RegisterClass::Memory {
        return (RegisterClass::Memory, hi_class);
    }
    if size > 16 && (lo_class != RegisterClass::SSE || hi_class != RegisterClass::SSEUP) {
        return (RegisterClass::Memory, hi_class);
    }
    if hi_class == RegisterClass::SSEUP && lo_class != RegisterClass::SSE && lo_class != RegisterClass::SSEUP {
        return (lo_class, RegisterClass::SSE);
    }
    (lo_class, hi_class)
}

/// Classes of a plain type at `offset_base`.
pub fn classify_plain_type(plain_type: &PlainType, offset_base: u32) -> (r: (RegisterClass, RegisterClass))
    requires
        *plain_type != PlainType::Null,
    ensures
        Some(r) == spec_classify_plain(*plain_type, offset_base),
{
    let (lo, hi) = initial_classes(offset_base);
    match plain_type {
        PlainType::Int128 | PlainType::UInt128 => (RegisterClass::Integer, RegisterClass::Integer),
        PlainType::Float16 | PlainType::Float32 | PlainType::Float64 => {
            if offset_base < 8 {
                (RegisterClass::SSE, hi)
            } else {
                (lo, RegisterClass::SSE)
            }
        },
        PlainType::Float128 => (RegisterClass::SSE, RegisterClass::SSEUP),
        PlainType::Void => {
            if offset_base < 8 {
                (RegisterClass::NoClass, hi)
            } else {
                (lo, RegisterClass::NoClass)
            }
        },
        _ => {
            if offset_base < 8 {
                (RegisterClass::Integer, hi)
            } else {
                (lo, RegisterClass::Integer)
            }
        },
    }
}

/// The classes an eightbyte pair starts from before a type is looked at.
fn initial_classes(offset_base: u32) -> (r: (RegisterClass, RegisterClass))
    ensures
        r == spec_initial_classes(offset_base),
{
    if offset_base < 8 {
        (RegisterClass::Memory, RegisterClass::NoClass)
    } else {
        (RegisterClass::NoClass, RegisterClass::Memory)
    }
}

fn is_memory(lo: RegisterClass, hi: RegisterClass) -> (r: bool)
    ensures
        r == (lo == RegisterClass::Memory || hi == RegisterClass::Memory),
{
    lo == RegisterClass::Memory || hi == RegisterClass::Memory
}

/// The (low, high) eightbyte classes of `ty` placed at `offset_base`.
pub fn classify(info: &ABITargetInfo, tctx: &CIRTypeContext, ty: &CIRType, offset_base: u32) -> (r: (
    RegisterClass,
    RegisterClass,
))
    requires
        spec_classify_in(tctx@, ty@, offset_base, tctx@.defs.len()) is Some,
    ensures
        Some(r) == spec_classify_in(tctx@, ty@, offset_base, tctx@.defs.len()),
{
    classify_in(info, tctx, ty, offset_base, Ghost(tctx@.defs.len()))
}

fn classify_in(info: &ABITargetInfo, tctx: &CIRTypeContext, ty: &CIRType, offset_base: u32, Ghost(bound): Ghost<nat>) -> (r: (
    RegisterClass,
    RegisterClass,
))
    requires
        bound <= tctx@.defs.len(),
        spec_classify_in(tctx@, ty@, offset_base, bound) is Some,
    ensures
        Some(r) == spec_classify_in(tctx@, ty@, offset_base, bound),
    decreases bound, 0nat, spec_type_height(ty@), 1nat,
{
    match ty {
        CIRType::Struct(type_id) => {
            let def = tctx.def_at(type_id.0);
            match def {
                CIRTypeDef::Struct(s) => {
                    proof { lemma_cir_views_index(s.fields@); }
                    classify_record_in(info, tctx, &s.fields, false, offset_base, Ghost((bound - 1) as nat))
                },
                _ => {
                    proof { assert(false); }
                    (RegisterClass::NoClass, RegisterClass::NoClass)
                },
            }
        },
        CIRType::Union(type_id) => {
            let def = tctx.def_at(type_id.0);
            match def {
                CIRTypeDef::Union(u) => classify_record_in(info, tctx, &u.fields, true, offset_base, Ghost((bound - 1) as nat)),
                _ => {
                    proof { assert(false); }
                    (RegisterClass::NoClass, RegisterClass::NoClass)
                },
            }
        },
        CIRType::Enum(type_id) => {
            let def = tctx.def_at(type_id.0);
            match def {
                CIRTypeDef::Enum(e) => classify_enum_in(info, tctx, e, offset_base, Ghost((bound - 1) as nat)),
                _ => {
                    proof { assert(false); }
                    (RegisterClass::NoClass, RegisterClass::NoClass)
                },
            }
        },
        CIRType::Plain(plain_type) => classify_plain_type(plain_type, offset_base),
        CIRType::Const(inner) => classify_in(info, tctx, inner, offset_base, Ghost(bound)),
        CIRType::Pointer(_) | CIRType::FuncType(_) => {
            let (lo, hi) = initial_classes(offset_base);
            if offset_base < 8 {
                (RegisterClass::Integer, hi)
            } else {
                (lo, RegisterClass::Integer)
            }
        },
        CIRType::Array(array_type) => classify_array_in(info, tctx, ty, array_type, offset_base, Ghost(bound)),
        CIRType::Dynamic(_) => {
            let (lo0, hi0) = initial_classes(offset_base);
            let data_ptr = CIRType::Pointer(Box::new(CIRType::Plain(PlainType::Void)));
            assert(data_ptr@ == CIRTypeView::Pointer(Box::new(CIRTypeView::Plain(PlainType::Void)))) by {
                reveal_with_fuel(spec_cir_view, 2);
            }
            assert(spec_type_height(data_ptr@) == 2) by {
                reveal_with_fuel(spec_type_height, 2);
            }
            let (lo1, hi1) = classify_in(info, tctx, &data_ptr, offset_base, Ghost(bound));
            let lo = classify_merge(lo0, lo1);
            let hi = classify_merge(hi0, hi1);
            let (lo2, hi2) = classify_in(info, tctx, &data_ptr, offset_base + 8, Ghost(bound));
            (classify_merge(lo, lo2), classify_merge(hi, hi2))
        },
    }
}

fn classify_array_in(
    info: &ABITargetInfo,
    tctx: &CIRTypeContext,
    ty: &CIRType,
    array_type: &CIRArrayType,
    offset_base: u32,
    Ghost(bound): Ghost<nat>,
) -> (r: (RegisterClass, RegisterClass))
    requires
        bound <= tctx@.defs.len(),
        *ty == CIRType::Array(*array_type),
        spec_classify_in(tctx@, ty@, offset_base, bound) is Some,
    ensures
        Some(r) == spec_classify_in(tctx@, ty@, offset_base, bound),
    decreases bound, 0nat, spec_type_height(ty@), 0nat,
{
    let layout = tctx.layout_in(ty, Ghost(bound));
    let element_layout = tctx.layout_in(&array_type.element_type, Ghost(bound));
    let (lo0, hi0) = initial_classes(offset_base);
    if layout.size > 16 {
        return (lo0, hi0);
    }
    if offset_base % element_layout.align != 0 {
        return classify_post_merge(layout.size, RegisterClass::Memory, hi0);
    }
    let ghost e = (*array_type.element_type)@;
    let ghost target = spec_classify_array_elems(
        tctx@,
        e,
        element_layout.size,
        offset_base,
        array_type.len as nat,
        (RegisterClass::NoClass, RegisterClass::NoClass),
        bound,
    );
    assert(ty@ == CIRTypeView::Array(Box::new(e), array_type.len));
    assert(spec_classify_in(tctx@, ty@, offset_base, bound) == match target {
        Some(st) => Some(spec_classify_post_merge(layout.size, st.0, st.1)),
        None => None,
    });
    let mut lo = RegisterClass::NoClass;
    let mut hi = RegisterClass::NoClass;
    let mut offset = offset_base;
    let mut k: usize = 0;
    while k < array_type.len
        invariant
            k <= array_type.len,
            bound <= tctx@.defs.len(),
            target is Some,
            spec_type_height(e) < spec_type_height(ty@),
            e == (*array_type.element_type)@,
            spec_classify_array_elems(tctx@, e, element_layout.size, offset, (array_type.len - k) as nat, (lo, hi), bound)
                == target,
            spec_classify_in(tctx@, ty@, offset_base, bound) == match target {
                Some(st) => Some(spec_classify_post_merge(layout.size, st.0, st.1)),
                None => None,
            },
        decreases array_type.len - k,
    {
        let (flo, fhi) = classify_in(info, tctx, &array_type.element_type, offset, Ghost(bound));
        offset = offset + element_layout.size;
        lo = classify_merge(lo, flo);
        hi = classify_merge(hi, fhi);
        if is_memory(lo, hi) {
            return classify_post_merge(layout.size, lo, hi);
        }
        k = k + 1;
    }
    classify_post_merge(layout.size, lo, hi)
}

fn classify_record_in(
    info: &ABITargetInfo,
    tctx: &CIRTypeContext,
    fields: &Vec<CIRType>,
    is_union: bool,
    offset_base: u32,
    Ghost(bound): Ghost<nat>,
) -> (r: (RegisterClass, RegisterClass))
    requires
        bound <= tctx@.defs.len(),
        spec_classify_record_in(tctx@, spec_cir_views(fields@), is_union, offset_base, bound) is Some,
    ensures
        Some(r) == spec_classify_record_in(tctx@, spec_cir_views(fields@), is_union, offset_base, bound),
    decreases bound, 2nat, 0nat, 0nat,
{
    let ghost fv = spec_cir_views(fields@);
    let layout = if is_union {
        tctx.union_layout_in(fields, Ghost(bound))
    } else {
        tctx.struct_layout_in(fields, false, None, Ghost(bound))
    };
    assert(Some(layout@) == spec_plain_record_layout(tctx@, fv, is_union, bound));
    let size = layout.size;
    if size > 16 {
        return initial_classes(offset_base);
    }
    let ghost fls = spec_layouts_in(tctx@, fv, bound).unwrap();
    let ghost target = spec_classify_fields(
        tctx@,
        fv,
        fls,
        layout@.field_offsets,
        is_union,
        offset_base,
        0,
        (RegisterClass::NoClass, RegisterClass::NoClass),
        bound,
    );
    proof {
        lemma_layouts_in_index(tctx@, fv, bound);
        lemma_cir_views_index(fields@);
    }
    assert(spec_classify_record_in(tctx@, fv, is_union, offset_base, bound) == match target {
        Some(st) => Some(spec_classify_post_merge(size, st.0, st.1)),
        None => None,
    });
    let mut lo = RegisterClass::NoClass;
    let mut hi = RegisterClass::NoClass;
    let mut i: usize = 0;
    while i < fields.len()
        invariant
            i <= fields.len(),
            fls.len() == fields.len(),
            fv == spec_cir_views(fields@),
            fv.len() == fields.len(),
            bound <= tctx@.defs.len(),
            forall|j: int| 0 <= j < fields.len() ==> #[trigger] fv[j] == fields@[j]@,
            forall|j: int| 0 <= j < fv.len() ==> spec_layout_in(tctx@, #[trigger] fv[j], bound) == Some(fls[j]),
            target is Some,
            spec_classify_fields(tctx@, fv, fls, layout@.field_offsets, is_union, offset_base, i as nat, (lo, hi), bound)
                == target,
            spec_classify_record_in(tctx@, fv, is_union, offset_base, bound) == match target {
                Some(st) => Some(spec_classify_post_merge(size, st.0, st.1)),
                None => None,
            },
        decreases fields.len() - i,
    {
        proof { assert(fv[i as int] == fields@[i as int]@); }
        let field_layout = tctx.layout_in(&fields[i], Ghost(bound));
        let field_offset = if is_union {
            offset_base
        } else {
            offset_base + layout.lookup_field_offset(i)
        };
        assert(fls[i as int] == field_layout@);
        assert(((i as nat) as usize) == i);
        if field_offset % field_layout.align != 0 {
            return classify_post_merge(size, RegisterClass::Memory, hi);
        }
        let (flo, fhi) = classify_in(info, tctx, &fields[i], field_offset, Ghost(bound));
        lo = classify_merge(lo, flo);
        hi = classify_merge(hi, fhi);
        if is_memory(lo, hi) {
            return classify_post_merge(size, lo, hi);
        }
        i = i + 1;
    }
    classify_post_merge(size, lo, hi)
}

fn classify_enum_in(
    info: &ABITargetInfo,
    tctx: &CIRTypeContext,
    enum_type: &CIREnumType,
    offset_base: u32,
    Ghost(bound): Ghost<nat>,
) -> (r: (RegisterClass, RegisterClass))
    requires
        bound <= tctx@.defs.len(),
        spec_classify_enum_in(tctx@, enum_type@, offset_base, bound) is Some,
    ensures
        Some(r) == spec_classify_enum_in(tctx@, enum_type@, offset_base, bound),
    decreases bound, 2nat, 0nat, 0nat,
{
    let tag_ty = enum_type.tag_type_or_infer_or_default();
    if enum_type.is_scalar_optimizable() {
        return classify_in(info, tctx, &tag_ty, offset_base, Ghost(bound));
    }
    let layout = tctx.enum_layout_in(enum_type, Ghost(bound));
    if layout.size > 16 {
        return initial_classes(offset_base);
    }
    let tag_layout = tctx.layout_in(&tag_ty, Ghost(bound));
    let tag_size = tag_layout.size;
    let (tag_lo, tag_hi) = classify_in(info, tctx, &tag_ty, offset_base, Ghost(bound));
    let mut lo = classify_merge(RegisterClass::NoClass, tag_lo);
    let mut hi = classify_merge(RegisterClass::NoClass, tag_hi);
    if is_memory(lo, hi) {
        return classify_post_merge(layout.size, lo, hi);
    }
    let payload_size = layout.size - tag_size;
    let payload_offset = offset_base + tag_size;
    if payload_size > 0 {
        let payload_ty = CIRType::Array(
            CIRArrayType { element_type: Box::new(CIRType::Plain(PlainType::UInt8)), len: payload_size as usize },
        );
        assert(payload_ty@ == CIRTypeView::Array(Box::new(CIRTypeView::Plain(PlainType::UInt8)), payload_size as usize))
            by {
            reveal_with_fuel(spec_cir_view, 2);
        }
        let (payload_lo, payload_hi) = classify_in(info, tctx, &payload_ty, payload_offset, Ghost(bound));
        lo = classify_merge(lo, payload_lo);
        hi = classify_merge(hi, payload_hi);
    }
    classify_post_merge(layout.size, lo, hi)
}


/// Takes the `used` registers from `available_regs` when there are enough
/// of both kinds, and reports whether it did; otherwise leaves them alone.
pub fn try_use_registers(available_regs: &mut Registers, used: &Registers) -> (r: bool)
    ensures
        r == (old(available_regs).sse_regs >= used.sse_regs && old(available_regs).int_regs >= used.int_regs),
        r ==> *final(available_regs) == (Registers {
            int_regs: (old(available_regs).int_regs - used.int_regs) as u32,
            sse_regs: (old(available_regs).sse_regs - used.sse_regs) as u32,
        }),
        !r ==> *final(available_regs) == *old(available_regs),
{
    if available_regs.sse_regs < used.sse_regs {
        return false;
    }
    if available_regs.int_regs < used.int_regs {
        return false;
    }
    available_regs.int_regs = available_regs.int_regs - used.int_regs;
    available_regs.sse_regs = available_regs.sse_regs - used.sse_regs;
    true
}

} // verus!
