//! The System V x86-64 classification of types into eightbyte register classes.
use crate::abi::layout::ABITypeLayoutView;
use crate::abi::layout::spec_lookup_field_offset;
use crate::abi::target::RegisterClass;
use crate::cir::layout_spec::{
    spec_enum_layout_in, spec_layout_in, spec_layouts_in, spec_plain_layout, spec_struct_layout, spec_type_height,
    spec_union_layout, CIRTypeContextView, CIRTypeDefView,
};
use crate::cir::types::{
    spec_is_scalar_optimizable, spec_tag_type, CIREnumTypeView, CIRTypeView, PlainType,
};
use vstd::prelude::*;

verus! {

/// Merging the class of a field into the class of an eightbyte: equal classes
/// stay, `NoClass` yields to the other, `Integer` wins, `SSE` with `SSEUP`
/// gives `SSE`, anything else is `Memory`.
pub open spec fn spec_classify_merge(current: RegisterClass, field: RegisterClass) -> RegisterClass {
    if current == field {
        current
    } else if current == RegisterClass::NoClass {
        field
    } else if field == RegisterClass::NoClass {
        current
    } else if current == RegisterClass::Integer || field == RegisterClass::Integer {
        RegisterClass::Integer
    } else if (current == RegisterClass::SSE && field == RegisterClass::SSEUP) || (current
        == RegisterClass::SSEUP && field == RegisterClass::SSE) {
        RegisterClass::SSE
    } else {
        RegisterClass::Memory
    }
}

/// The final clean-up of an aggregate's classes: a `Memory` high half makes
/// the whole `Memory`; more than 16 bytes is `Memory` unless it is `SSE`
/// followed by `SSEUP`; an `SSEUP` high half not after `SSE` becomes `SSE`.
pub open spec fn spec_classify_post_merge(size: u32, lo: RegisterClass, hi: RegisterClass) -> (RegisterClass, RegisterClass) {
    if hi == RegisterClass::Memory {
        (RegisterClass::Memory, hi)
    } else if size > 16 && (lo != RegisterClass::SSE || hi != RegisterClass::SSEUP) {
        (RegisterClass::Memory, hi)
    } else if hi == RegisterClass::SSEUP && lo != RegisterClass::SSE && lo != RegisterClass::SSEUP {
        (lo, RegisterClass::SSE)
    } else {
        (lo, hi)
    }
}

/// Sets the class of the eightbyte that `offset` falls in.
pub open spec fn spec_set_class(offset: u32, state: (RegisterClass, RegisterClass), c: RegisterClass) -> (RegisterClass, RegisterClass) {
    if offset < 8 {
        (c, state.1)
    } else {
        (state.0, c)
    }
}

/// The classes before an aggregate is looked at: the eightbyte of the offset
/// is `Memory`, the other `NoClass`.
pub open spec fn spec_initial_classes(offset: u32) -> (RegisterClass, RegisterClass) {
    spec_set_class(offset, (RegisterClass::NoClass, RegisterClass::NoClass), RegisterClass::Memory)
}

pub open spec fn spec_is_memory_pair(s: (RegisterClass, RegisterClass)) -> bool {
    s.0 == RegisterClass::Memory || s.1 == RegisterClass::Memory
}

pub open spec fn spec_merge_pair(s: (RegisterClass, RegisterClass), f: (RegisterClass, RegisterClass)) -> (RegisterClass, RegisterClass) {
    (spec_classify_merge(s.0, f.0), spec_classify_merge(s.1, f.1))
}

/// Classes of a plain type at `offset`; `None` for `null`, which has none.
pub open spec fn spec_classify_plain(p: PlainType, offset: u32) -> Option<(RegisterClass, RegisterClass)> {
    let s0 = spec_initial_classes(offset);
    match p {
        PlainType::Int128 | PlainType::UInt128 => Some((RegisterClass::Integer, RegisterClass::Integer)),
        PlainType::Float16 | PlainType::Float32 | PlainType::Float64 => Some(spec_set_class(offset, s0, RegisterClass::SSE)),
        PlainType::Float128 => Some((RegisterClass::SSE, RegisterClass::SSEUP)),
        PlainType::Void => Some(spec_set_class(offset, s0, RegisterClass::NoClass)),
        PlainType::Null => None,
        _ => Some(spec_set_class(offset, s0, RegisterClass::Integer)),
    }
}

/// The classes of the two eightbytes of `t` placed at `offset`, following at
/// most `bound` references to stored definitions in a row; `None` where classification would fail (a
/// `null` type, an arithmetic overflow, a missing layout).
pub open spec fn spec_classify_in(ctx: CIRTypeContextView, t: CIRTypeView, offset: u32, bound: nat) -> Option<(RegisterClass, RegisterClass)>
    decreases bound, 0nat, spec_type_height(t), 0nat,
{
    let s0 = spec_initial_classes(offset);
    match t {
        CIRTypeView::Struct(id) => if bound > 0 && id < ctx.defs.len() {
            match ctx.defs[id as int] {
                CIRTypeDefView::Struct(r) => spec_classify_record_in(ctx, r.fields, false, offset, (bound - 1) as nat),
                _ => None,
            }
        } else {
            None
        },
        CIRTypeView::Union(id) => if bound > 0 && id < ctx.defs.len() {
            match ctx.defs[id as int] {
                CIRTypeDefView::Union(r) => spec_classify_record_in(ctx, r.fields, true, offset, (bound - 1) as nat),
                _ => None,
            }
        } else {
            None
        },
        CIRTypeView::Enum(id) => if bound > 0 && id < ctx.defs.len() {
            match ctx.defs[id as int] {
                CIRTypeDefView::Enum(e) => spec_classify_enum_in(ctx, e, offset, (bound - 1) as nat),
                _ => None,
            }
        } else {
            None
        },
        CIRTypeView::Plain(p) => spec_classify_plain(p, offset),
        CIRTypeView::Const(i) => spec_classify_in(ctx, *i, offset, bound),
        CIRTypeView::Pointer(_) | CIRTypeView::FuncType(..) => Some(spec_set_class(offset, s0, RegisterClass::Integer)),
        CIRTypeView::Array(e, len) => match (spec_layout_in(ctx, t, bound), spec_layout_in(ctx, *e, bound)) {
            (Some(layout), Some(el)) => if layout.size > 16 {
                Some(s0)
            } else if el.align == 0 {
                None
            } else if offset % el.align != 0 {
                Some(spec_classify_post_merge(layout.size, RegisterClass::Memory, s0.1))
            } else {
                match spec_classify_array_elems(ctx, *e, el.size, offset, len as nat, (RegisterClass::NoClass, RegisterClass::NoClass), bound) {
                    None => None,
                    Some(st) => Some(spec_classify_post_merge(layout.size, st.0, st.1)),
                }
            },
            _ => None,
        },
        CIRTypeView::Dynamic(_) => {
            let first = spec_merge_pair(s0, spec_set_class(offset, (RegisterClass::NoClass, RegisterClass::NoClass), RegisterClass::Integer));
            if offset + 8 > u32::MAX {
                None
            } else {
                let off2 = (offset + 8) as u32;
                Some(spec_merge_pair(first, spec_set_class(off2, (RegisterClass::NoClass, RegisterClass::NoClass), RegisterClass::Integer)))
            }
        },
    }
}

/// Classifies `remaining` more array elements starting at `offset`, merging
/// into `state` and stopping once either half is `Memory`.
pub open spec fn spec_classify_array_elems(
    ctx: CIRTypeContextView,
    e: CIRTypeView,
    el_size: u32,
    offset: u32,
    remaining: nat,
    state: (RegisterClass, RegisterClass),
    bound: nat,
) -> Option<(RegisterClass, RegisterClass)>
    decreases bound, 0nat, spec_type_height(e), remaining + 1,
{
    if remaining == 0 {
        Some(state)
    } else {
        match spec_classify_in(ctx, e, offset, bound) {
            None => None,
            Some(f) => if offset + el_size > u32::MAX {
                None
            } else {
                let st = spec_merge_pair(state, f);
                if spec_is_memory_pair(st) {
                    Some(st)
                } else {
                    spec_classify_array_elems(ctx, e, el_size, (offset + el_size) as u32, (remaining - 1) as nat, st, bound)
                }
            },
        }
    }
}

/// The layout a struct (or union) with these fields would have with no
/// `repr` attribute and no explicit alignment.
pub open spec fn spec_plain_record_layout(ctx: CIRTypeContextView, fields: Seq<CIRTypeView>, is_union: bool, bound: nat) -> Option<ABITypeLayoutView> {
    match spec_layouts_in(ctx, fields, bound) {
        None => None,
        Some(fls) => if is_union {
            spec_union_layout(fls)
        } else {
            spec_struct_layout(fls, false, None)
        },
    }
}

/// Classes of a struct or union with the given fields at `offset`.
pub open spec fn spec_classify_record_in(ctx: CIRTypeContextView, fields: Seq<CIRTypeView>, is_union: bool, offset: u32, bound: nat) -> Option<(RegisterClass, RegisterClass)>
    decreases bound, 2nat, 0nat, 0nat,
{
    match (spec_plain_record_layout(ctx, fields, is_union, bound), spec_layouts_in(ctx, fields, bound)) {
        (Some(layout), Some(fls)) => if layout.size > 16 {
            Some(spec_initial_classes(offset))
        } else {
            match spec_classify_fields(ctx, fields, fls, layout.field_offsets, is_union, offset, 0, (RegisterClass::NoClass, RegisterClass::NoClass), bound) {
                None => None,
                Some(st) => Some(spec_classify_post_merge(layout.size, st.0, st.1)),
            }
        },
        _ => None,
    }
}

/// Classifies the fields from position `i` on, merging into `state`; a field
/// that is not aligned within the eightbytes makes the low half `Memory` and
/// stops, as does a `Memory` half.
pub open spec fn spec_classify_fields(
    ctx: CIRTypeContextView,
    fields: Seq<CIRTypeView>,
    fls: Seq<ABITypeLayoutView>,
    offsets: Seq<crate::abi::layout::ABIFieldOffsetInfo>,
    is_union: bool,
    offset: u32,
    i: nat,
    state: (RegisterClass, RegisterClass),
    bound: nat,
) -> Option<(RegisterClass, RegisterClass)>
    decreases bound, 1nat, 0nat, fields.len() - i,
{
    if i >= fields.len() || i >= fls.len() {
        Some(state)
    } else {
        let fl = fls[i as int];
        let field_offset: Option<u32> = if is_union {
            Some(offset)
        } else {
            match spec_lookup_field_offset(offsets, i as usize) {
                None => None,
                Some(o) => if offset + o > u32::MAX { None } else { Some((offset + o) as u32) },
            }
        };
        match field_offset {
            None => None,
            Some(fo) => if fl.align == 0 {
                None
            } else if fo % fl.align != 0 {
                Some((RegisterClass::Memory, state.1))
            } else {
                match spec_classify_in(ctx, fields[i as int], fo, bound) {
                    None => None,
                    Some(f) => {
                        let st = spec_merge_pair(state, f);
                        if spec_is_memory_pair(st) {
                            Some(st)
                        } else {
                            spec_classify_fields(ctx, fields, fls, offsets, is_union, offset, i + 1, st, bound)
                        }
                    },
                }
            },
        }
    }
}

/// Classes of an enum at `offset`: a scalar enum is classified as its tag;
/// otherwise the tag and then the remaining bytes as a byte array.
pub open spec fn spec_classify_enum_in(ctx: CIRTypeContextView, e: CIREnumTypeView, offset: u32, bound: nat) -> Option<(RegisterClass, RegisterClass)>
    decreases bound, 2nat, 0nat, 0nat,
{
    let tag = spec_tag_type(e);
    if spec_is_scalar_optimizable(e) {
        spec_classify_in(ctx, tag, offset, bound)
    } else {
        match (spec_enum_layout_in(ctx, e, bound), spec_layout_in(ctx, tag, bound)) {
            (Some(layout), Some(tl)) => if layout.size > 16 {
                Some(spec_initial_classes(offset))
            } else {
                match spec_classify_in(ctx, tag, offset, bound) {
                    None => None,
                    Some(tc) => {
                        let st = spec_merge_pair((RegisterClass::NoClass, RegisterClass::NoClass), tc);
                        if spec_is_memory_pair(st) {
                            Some(spec_classify_post_merge(layout.size, st.0, st.1))
                        } else if layout.size < tl.size || offset + tl.size > u32::MAX {
                            None
                        } else {
                            let payload_size = (layout.size - tl.size) as u32;
                            let payload_offset = (offset + tl.size) as u32;
                            if payload_size > 0 {
                                let payload = CIRTypeView::Array(Box::new(CIRTypeView::Plain(PlainType::UInt8)), payload_size as usize);
                                match spec_classify_in(ctx, payload, payload_offset, bound) {
                                    None => None,
                                    Some(pc) => {
                                        let st2 = spec_merge_pair(st, pc);
                                        Some(spec_classify_post_merge(layout.size, st2.0, st2.1))
                                    },
                                }
                            } else {
                                Some(spec_classify_post_merge(layout.size, st.0, st.1))
                            }
                        }
                    },
                }
            },
            _ => None,
        }
    }
}

/// The classes of a type in a context, placed at offset 0.
pub open spec fn spec_classify(ctx: CIRTypeContextView, t: CIRTypeView) -> Option<(RegisterClass, RegisterClass)> {
    spec_classify_in(ctx, t, 0, ctx.defs.len())
}


/// Merging classes is commutative.
pub proof fn lemma_classify_merge_commutative(a: RegisterClass, b: RegisterClass)
    ensures
        spec_classify_merge(a, b) == spec_classify_merge(b, a),
{
}

/// Merging classes is associative, so the fields of an eightbyte may be
/// merged in any grouping.
pub proof fn lemma_classify_merge_associative(a: RegisterClass, b: RegisterClass, c: RegisterClass)
    ensures
        spec_classify_merge(spec_classify_merge(a, b), c) == spec_classify_merge(a, spec_classify_merge(b, c)),
{
}

/// `NoClass` is the neutral class of merging, and merging a class with
/// itself gives it back.
pub proof fn lemma_classify_merge_identity(a: RegisterClass)
    ensures
        spec_classify_merge(RegisterClass::NoClass, a) == a,
        spec_classify_merge(a, RegisterClass::NoClass) == a,
        spec_classify_merge(a, a) == a,
{
}

/// A class pair the argument and return lowering accept: a `Memory` high
/// half only with a `Memory` low half, an `SSEUP` high half only after
/// `SSE`, and never an `SSEUP` low half.
pub open spec fn spec_valid_classes(r: (RegisterClass, RegisterClass)) -> bool {
    &&& r.0 != RegisterClass::SSEUP
    &&& (r.1 == RegisterClass::Memory ==> r.0 == RegisterClass::Memory)
    &&& (r.1 == RegisterClass::SSEUP ==> r.0 == RegisterClass::SSE)
}

/// The clean-up of an aggregate of at most 16 bytes always leaves a valid
/// class pair, whatever its fields merged to (short of an `SSEUP` low half).
pub proof fn lemma_post_merge_valid(size: u32, lo: RegisterClass, hi: RegisterClass)
    requires
        size <= 16,
        lo != RegisterClass::SSEUP,
    ensures
        spec_valid_classes(spec_classify_post_merge(size, lo, hi)),
{
}

/// No classification has an `SSEUP` low half, and a classification at the
/// start of the first eightbyte is always a valid class pair: the checks of
/// the argument and return lowering never fail on a classified type.
pub proof fn lemma_classify_valid(ctx: CIRTypeContextView, t: CIRTypeView, offset: u32, bound: nat)
    ensures
        spec_classify_in(ctx, t, offset, bound) matches Some(r) ==> r.0 != RegisterClass::SSEUP && (offset < 8
            ==> spec_valid_classes(r)),
    decreases bound, 0nat, spec_type_height(t), 0nat,
{
    match t {
        CIRTypeView::Struct(id) => if bound > 0 && id < ctx.defs.len() {
            if let CIRTypeDefView::Struct(r) = ctx.defs[id as int] {
                lemma_classify_record_valid(ctx, r.fields, false, offset, (bound - 1) as nat);
            }
        },
        CIRTypeView::Union(id) => if bound > 0 && id < ctx.defs.len() {
            if let CIRTypeDefView::Union(r) = ctx.defs[id as int] {
                lemma_classify_record_valid(ctx, r.fields, true, offset, (bound - 1) as nat);
            }
        },
        CIRTypeView::Enum(id) => if bound > 0 && id < ctx.defs.len() {
            if let CIRTypeDefView::Enum(e) = ctx.defs[id as int] {
                lemma_classify_enum_valid(ctx, e, offset, (bound - 1) as nat);
            }
        },
        CIRTypeView::Const(i) => lemma_classify_valid(ctx, *i, offset, bound),
        CIRTypeView::Array(e, len) => {
            if let (Some(layout), Some(el)) = (spec_layout_in(ctx, t, bound), spec_layout_in(ctx, *e, bound)) {
                if layout.size <= 16 && el.align != 0 && offset % el.align == 0 {
                    lemma_classify_elems_valid(
                        ctx,
                        *e,
                        el.size,
                        offset,
                        len as nat,
                        (RegisterClass::NoClass, RegisterClass::NoClass),
                        bound,
                    );
                    if let Some(st) = spec_classify_array_elems(
                        ctx,
                        *e,
                        el.size,
                        offset,
                        len as nat,
                        (RegisterClass::NoClass, RegisterClass::NoClass),
                        bound,
                    ) {
                        lemma_post_merge_valid(layout.size, st.0, st.1);
                    }
                }
                if layout.size <= 16 {
                    lemma_post_merge_valid(layout.size, RegisterClass::Memory, spec_initial_classes(offset).1);
                }
            }
        },
        _ => {},
    }
}

proof fn lemma_classify_elems_valid(
    ctx: CIRTypeContextView,
    e: CIRTypeView,
    el_size: u32,
    offset: u32,
    remaining: nat,
    state: (RegisterClass, RegisterClass),
    bound: nat,
)
    requires
        state.0 != RegisterClass::SSEUP,
    ensures
        spec_classify_array_elems(ctx, e, el_size, offset, remaining, state, bound) matches Some(r) ==> r.0
            != RegisterClass::SSEUP,
    decreases bound, 0nat, spec_type_height(e), remaining + 1,
{
    if remaining > 0 {
        lemma_classify_valid(ctx, e, offset, bound);
        if let Some(f) = spec_classify_in(ctx, e, offset, bound) {
            if offset + el_size <= u32::MAX {
                let st = spec_merge_pair(state, f);
                if !spec_is_memory_pair(st) {
                    lemma_classify_elems_valid(ctx, e, el_size, (offset + el_size) as u32, (remaining - 1) as nat, st, bound);
                }
            }
        }
    }
}

proof fn lemma_classify_record_valid(ctx: CIRTypeContextView, fields: Seq<CIRTypeView>, is_union: bool, offset: u32, bound: nat)
    ensures
        spec_classify_record_in(ctx, fields, is_union, offset, bound) matches Some(r) ==> r.0 != RegisterClass::SSEUP
            && (offset < 8 ==> spec_valid_classes(r)),
    decreases bound, 2nat, 0nat, 0nat,
{
    if let (Some(layout), Some(fls)) = (spec_plain_record_layout(ctx, fields, is_union, bound), spec_layouts_in(ctx, fields, bound)) {
        if layout.size <= 16 {
            lemma_classify_fields_valid(
                ctx,
                fields,
                fls,
                layout.field_offsets,
                is_union,
                offset,
                0,
                (RegisterClass::NoClass, RegisterClass::NoClass),
                bound,
            );
            if let Some(st) = spec_classify_fields(
                ctx,
                fields,
                fls,
                layout.field_offsets,
                is_union,
                offset,
                0,
                (RegisterClass::NoClass, RegisterClass::NoClass),
                bound,
            ) {
                lemma_post_merge_valid(layout.size, st.0, st.1);
            }
        }
    }
}

proof fn lemma_classify_fields_valid(
    ctx: CIRTypeContextView,
    fields: Seq<CIRTypeView>,
    fls: Seq<ABITypeLayoutView>,
    offsets: Seq<crate::abi::layout::ABIFieldOffsetInfo>,
    is_union: bool,
    offset: u32,
    i: nat,
    state: (RegisterClass, RegisterClass),
    bound: nat,
)
    requires
        state.0 != RegisterClass::SSEUP,
    ensures
        spec_classify_fields(ctx, fields, fls, offsets, is_union, offset, i, state, bound) matches Some(r) ==> r.0
            != RegisterClass::SSEUP,
    decreases bound, 1nat, 0nat, fields.len() - i,
{
    if i < fields.len() && i < fls.len() {
        let fl = fls[i as int];
        let field_offset: Option<u32> = if is_union {
            Some(offset)
        } else {
            match spec_lookup_field_offset(offsets, i as usize) {
                None => None,
                Some(o) => if offset + o > u32::MAX { None } else { Some((offset + o) as u32) },
            }
        };
        if let Some(fo) = field_offset {
            if fl.align != 0 && fo % fl.align == 0 {
                lemma_classify_valid(ctx, fields[i as int], fo, bound);
                if let Some(f) = spec_classify_in(ctx, fields[i as int], fo, bound) {
                    let st = spec_merge_pair(state, f);
                    if !spec_is_memory_pair(st) {
                        lemma_classify_fields_valid(ctx, fields, fls, offsets, is_union, offset, i + 1, st, bound);
                    }
                }
            }
        }
    }
}

proof fn lemma_classify_enum_valid(ctx: CIRTypeContextView, e: CIREnumTypeView, offset: u32, bound: nat)
    ensures
        spec_classify_enum_in(ctx, e, offset, bound) matches Some(r) ==> r.0 != RegisterClass::SSEUP && (offset < 8
            ==> spec_valid_classes(r)),
    decreases bound, 2nat, 0nat, 0nat,
{
    let tag = spec_tag_type(e);
    lemma_classify_valid(ctx, tag, offset, bound);
    if !spec_is_scalar_optimizable(e) {
        if let (Some(layout), Some(tl)) = (spec_enum_layout_in(ctx, e, bound), spec_layout_in(ctx, tag, bound)) {
            if layout.size <= 16 {
                if let Some(tc) = spec_classify_in(ctx, tag, offset, bound) {
                    let st = spec_merge_pair((RegisterClass::NoClass, RegisterClass::NoClass), tc);
                    lemma_post_merge_valid(layout.size, st.0, st.1);
                    if !spec_is_memory_pair(st) && layout.size >= tl.size && offset + tl.size <= u32::MAX {
                        let payload_size = (layout.size - tl.size) as u32;
                        let payload_offset = (offset + tl.size) as u32;
                        let payload = CIRTypeView::Array(Box::new(CIRTypeView::Plain(PlainType::UInt8)), payload_size as usize);
                        lemma_classify_valid(ctx, payload, payload_offset, bound);
                        if let Some(pc) = spec_classify_in(ctx, payload, payload_offset, bound) {
                            let st2 = spec_merge_pair(st, pc);
                            lemma_post_merge_valid(layout.size, st2.0, st2.1);
                        }
                    }
                }
            }
        }
    }
}

proof fn lemma_byte_elems_classes(
    ctx: CIRTypeContextView,
    offset: u32,
    remaining: nat,
    state: (RegisterClass, RegisterClass),
    bound: nat,
)
    requires
        !spec_is_memory_pair(state),
        offset + remaining <= 16,
    ensures
        spec_classify_array_elems(ctx, CIRTypeView::Plain(PlainType::UInt8), 1, offset, remaining, state, bound) matches Some(r)
            && !spec_is_memory_pair(r) && ((state.1 == RegisterClass::Integer || (remaining > 0 && offset + remaining > 8))
            ==> r.1 == RegisterClass::Integer),
    decreases remaining,
{
    if remaining > 0 {
        let f = spec_classify_plain(PlainType::UInt8, offset).unwrap();
        assert(spec_classify_in(ctx, CIRTypeView::Plain(PlainType::UInt8), offset, bound) == Some(f));
        let st = spec_merge_pair(state, f);
        lemma_byte_elems_classes(ctx, (offset + 1) as u32, (remaining - 1) as nat, st, bound);
    }
}

/// A byte array of at most 16 bytes placed at `offset` (ending within the
/// two eightbytes) is integer data: its classes hold no `Memory`, and its
/// high eightbyte is `Integer` as soon as it reaches past the first eight
/// bytes.
pub proof fn lemma_byte_array_classes(ctx: CIRTypeContextView, len: usize, offset: u32, bound: nat)
    requires
        offset + len <= 16,
    ensures
        spec_classify_in(ctx, CIRTypeView::Array(Box::new(CIRTypeView::Plain(PlainType::UInt8)), len), offset, bound)
            matches Some(r) && !spec_is_memory_pair(r) && (len > 0 && offset + len > 8 ==> r.1 == RegisterClass::Integer),
{
    let el = spec_plain_layout(ctx.target_info, PlainType::UInt8);
    assert(spec_layout_in(ctx, CIRTypeView::Plain(PlainType::UInt8), bound) == Some(el));
    assert forall|i: int| 0 <= i < len implies #[trigger] (el.align * (i as u32)) <= u32::MAX by {}
    assert(el.size * (len as u32) == len);
    lemma_byte_elems_classes(ctx, offset, len as nat, (RegisterClass::NoClass, RegisterClass::NoClass), bound);
}

/// An enum that is not reduced to its tag, of more than 8 and at most 16
/// bytes, with bytes after its tag and a tag that classifies without
/// `Memory`, has every byte classified: its payload reaches the high
/// eightbyte, which is therefore `Integer`, never empty.
pub proof fn lemma_enum_payload_reaches_high_eightbyte(ctx: CIRTypeContextView, e: CIREnumTypeView, bound: nat)
    requires
        !spec_is_scalar_optimizable(e),
        spec_enum_layout_in(ctx, e, bound) matches Some(l) && 8 < l.size <= 16,
        spec_layout_in(ctx, spec_tag_type(e), bound) matches Some(tl) && tl.size < spec_enum_layout_in(ctx, e, bound).unwrap().size,
        spec_classify_in(ctx, spec_tag_type(e), 0, bound) matches Some(tc) && !spec_is_memory_pair(tc),
    ensures
        spec_classify_enum_in(ctx, e, 0, bound) matches Some(r) && r.1 == RegisterClass::Integer,
{
    let l = spec_enum_layout_in(ctx, e, bound).unwrap();
    let tl = spec_layout_in(ctx, spec_tag_type(e), bound).unwrap();
    let payload_size = (l.size - tl.size) as u32;
    lemma_byte_array_classes(ctx, payload_size as usize, tl.size, bound);
}

} // verus!
