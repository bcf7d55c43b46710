//! What the layout of each type is, over the values of types and of a type context.
use crate::abi::layout::{ABIFieldOffsetInfo, ABITypeLayoutView};
use crate::abi::target::{spec_pointer_size, ABITargetArch, ABITargetInfo};
use crate::cir::types::{
    spec_includes_payload, spec_is_packed, spec_is_scalar_optimizable, spec_tag_type, CIREnumTypeView,
    CIREnumVariantView, CIRRecordView, CIRTypeView, PlainType,
};
use vstd::prelude::*;

verus! {

/// A stored type definition.
pub enum CIRTypeDefView {
    Struct(CIRRecordView),
    Union(CIRRecordView),
    Enum(CIREnumTypeView),
}

/// The value of a type context: the target and the stored definitions; a
/// definition is referred to by its position.
pub struct CIRTypeContextView {
    pub target_info: ABITargetInfo,
    pub defs: Seq<CIRTypeDefView>,
}

/// Nesting depth used to order recursive definitions over types.
pub open spec fn spec_type_height(t: CIRTypeView) -> nat
    decreases t,
{
    match t {
        CIRTypeView::Const(i) => 1 + spec_type_height(*i),
        CIRTypeView::Pointer(i) => 1 + spec_type_height(*i),
        CIRTypeView::Array(e, _) => 1 + spec_type_height(*e),
        CIRTypeView::Dynamic(_) => 3,
        _ => 1,
    }
}

pub open spec fn spec_heights_sum(s: Seq<CIRTypeView>) -> nat
    decreases s.len(),
{
    if s.len() == 0 {
        0
    } else {
        spec_heights_sum(s.drop_last()) + spec_type_height(s.last())
    }
}

pub open spec fn spec_layout(size: u32, align: u32, field_offsets: Seq<ABIFieldOffsetInfo>, is_aggregate: bool) -> ABITypeLayoutView {
    ABITypeLayoutView { size, align, field_offsets, is_aggregate }
}

/// Layout of a plain type: pointer-sized kinds and `null` follow the target,
/// 128-bit kinds are 16-aligned except on wasm32, `void` is empty.
pub open spec fn spec_plain_layout(info: ABITargetInfo, p: PlainType) -> ABITypeLayoutView {
    let ps = spec_pointer_size(info.arch);
    let wide_align: u32 = if info.arch == ABITargetArch::Wasm32 { 8 } else { 16 };
    let (size, align) = match p {
        PlainType::UIntPtr | PlainType::IntPtr | PlainType::ISize | PlainType::USize | PlainType::Null => (ps, ps),
        PlainType::Int8 | PlainType::UInt8 | PlainType::Bool | PlainType::Char => (1u32, 1u32),
        PlainType::Int16 | PlainType::UInt16 | PlainType::Float16 => (2, 2),
        PlainType::Int32 | PlainType::UInt32 | PlainType::Int | PlainType::UInt | PlainType::Float32 => (4, 4),
        PlainType::Int64 | PlainType::UInt64 | PlainType::Float64 => (8, 8),
        PlainType::Int128 | PlainType::UInt128 | PlainType::Float128 => (16, wide_align),
        PlainType::Void => (0, 1),
    };
    spec_layout(size, align, Seq::empty(), false)
}

/// `offset` rounded up to a multiple of `align` (`align` at least 1), `None`
/// when the result does not fit in 32 bits.
pub open spec fn spec_align_offset(offset: u32, align: u32) -> Option<u32> {
    if align == 0 {
        None
    } else if offset % align == 0 {
        Some(offset)
    } else if offset + (align - offset % align) <= u32::MAX {
        Some((offset + (align - offset % align)) as u32)
    } else {
        None
    }
}

/// Array layout: `len` (truncated to 32 bits) elements back to back, with an
/// entry per element recorded at `align * i`; `None` on 32-bit overflow.
pub open spec fn spec_array_layout(el: ABITypeLayoutView, len: usize) -> Option<ABITypeLayoutView> {
    let total = el.size * (len as u32);
    if total <= u32::MAX && (forall|i: int| 0 <= i < len ==> #[trigger] (el.align * (i as u32)) <= u32::MAX) {
        Some(spec_layout(
            total as u32,
            el.align,
            Seq::new(len as nat, |i: int| ABIFieldOffsetInfo::Normal {
                index: i as u32,
                offset: (el.align * (i as u32)) as u32,
                original_index: i as usize,
            }),
            true,
        ))
    } else {
        None
    }
}

/// Running state of struct layout: next offset, largest alignment, entries
/// so far, next entry index.
pub struct StructLayoutState {
    pub offset: u32,
    pub max_align: u32,
    pub field_offsets: Seq<ABIFieldOffsetInfo>,
    pub next_index: u32,
}

/// Lays out the fields one after another: unless packed, each field is
/// preceded by the padding its alignment needs (recorded as a padding entry);
/// `None` on 32-bit overflow or a zero alignment.
pub open spec fn spec_struct_fold(fls: Seq<ABITypeLayoutView>, packed: bool) -> Option<StructLayoutState>
    decreases fls.len(),
{
    if fls.len() == 0 {
        Some(StructLayoutState { offset: 0, max_align: 1, field_offsets: Seq::empty(), next_index: 0 })
    } else {
        match spec_struct_fold(fls.drop_last(), packed) {
            None => None,
            Some(st) => {
                let fl = fls.last();
                let oi = (fls.len() - 1) as usize;
                let eff: u32 = if packed { 1 } else { fl.align };
                if eff == 0 {
                    None
                } else {
                    let padding: u32 = if packed { 0 } else { ((eff as int - (st.offset % eff) as int) % (eff as int)) as u32 };
                    let (fo1, idx1, off1) = if padding > 0 {
                        (
                            st.field_offsets.push(ABIFieldOffsetInfo::Padding { index: st.next_index, offset: st.offset, size: padding }),
                            st.next_index + 1,
                            st.offset + padding,
                        )
                    } else {
                        (st.field_offsets, st.next_index as int, st.offset as int)
                    };
                    if idx1 + 1 > u32::MAX || off1 + fl.size > u32::MAX {
                        None
                    } else {
                        Some(StructLayoutState {
                            offset: (off1 + fl.size) as u32,
                            max_align: if st.max_align >= fl.align { st.max_align } else { fl.align },
                            field_offsets: fo1.push(ABIFieldOffsetInfo::Normal {
                                index: idx1 as u32,
                                offset: off1 as u32,
                                original_index: oi,
                            }),
                            next_index: (idx1 + 1) as u32,
                        })
                    }
                }
            },
        }
    }
}

/// Struct layout from the layouts of its fields: the folded fields, the
/// alignment raised to an explicit one, 1 when packed, the size rounded up to
/// the alignment with the tail recorded as padding.
pub open spec fn spec_struct_layout(fls: Seq<ABITypeLayoutView>, packed: bool, align: Option<usize>) -> Option<ABITypeLayoutView> {
    match spec_struct_fold(fls, packed) {
        None => None,
        Some(st) => {
            let ma2: u32 = match align {
                Some(a) => if st.max_align >= (a as u32) { st.max_align } else { a as u32 },
                None => st.max_align,
            };
            let ma3: u32 = if packed { 1 } else { ma2 };
            match spec_align_offset(st.offset, ma3) {
                None => None,
                Some(total) => {
                    let fo = if total > st.offset {
                        st.field_offsets.push(ABIFieldOffsetInfo::Padding {
                            index: st.field_offsets.len() as u32,
                            offset: st.offset,
                            size: (total - st.offset) as u32,
                        })
                    } else {
                        st.field_offsets
                    };
                    Some(spec_layout(total, ma3, fo, true))
                },
            }
        },
    }
}

/// Largest size and alignment over some layouts (alignment at least 1).
pub open spec fn spec_max_size_align(fls: Seq<ABITypeLayoutView>) -> (u32, u32)
    decreases fls.len(),
{
    if fls.len() == 0 {
        (0, 1)
    } else {
        let (s, a) = spec_max_size_align(fls.drop_last());
        let l = fls.last();
        (if s >= l.size { s } else { l.size }, if a >= l.align { a } else { l.align })
    }
}

/// Union layout: every field at offset 0, size the largest field rounded up to
/// the largest alignment.
pub open spec fn spec_union_layout(fls: Seq<ABITypeLayoutView>) -> Option<ABITypeLayoutView> {
    let (ms, ma) = spec_max_size_align(fls);
    match spec_align_offset(ms, ma) {
        None => None,
        Some(total) => Some(spec_layout(
            total,
            ma,
            Seq::new(fls.len(), |i: int| ABIFieldOffsetInfo::Normal { index: i as u32, offset: 0, original_index: i as usize }),
            true,
        )),
    }
}

/// `x` rounded up to a multiple of `a` as `((x + a - 1) / a) * a`, `None` when
/// a step leaves 32 bits or `a` is 0.
pub open spec fn spec_round_up(x: u32, a: u32) -> Option<u32> {
    let xi: int = x as int;
    let ai: int = a as int;
    if ai == 0 || xi + (ai - 1) > u32::MAX {
        None
    } else if ((xi + (ai - 1)) / ai) * ai > u32::MAX {
        None
    } else {
        Some((((xi + (ai - 1)) / ai) * ai) as u32)
    }
}

/// Enum layout from its tag layout and the (size, alignment) of each variant's
/// payload: the payload follows the tag at the payload alignment, and the whole
/// is rounded up to the larger of both alignments.
pub open spec fn spec_enum_layout(tag: ABITypeLayoutView, payloads: Seq<ABITypeLayoutView>, includes_payload: bool, align: Option<usize>) -> Option<ABITypeLayoutView> {
    let (mps0, mpa0) = spec_max_size_align(payloads);
    let (mps, mpa1) = if mps0 == 0 && includes_payload { (1u32, 1u32) } else { (mps0, mpa0) };
    let mpa: u32 = match align {
        Some(a) => if mpa1 >= (a as u32) { mpa1 } else { a as u32 },
        None => mpa1,
    };
    match spec_round_up(tag.size, mpa) {
        None => None,
        Some(payload_offset) => {
            let ta1: u32 = if tag.align >= mpa { tag.align } else { mpa };
            let ta: u32 = match align {
                Some(a) => if ta1 >= (a as u32) { ta1 } else { a as u32 },
                None => ta1,
            };
            if payload_offset + mps > u32::MAX {
                None
            } else {
                match spec_round_up((payload_offset + mps) as u32, ta) {
                    None => None,
                    Some(total) => Some(spec_layout(total, ta, Seq::empty(), true)),
                }
            }
        },
    }
}

/// The layout of `t` in a context, following at most `bound` references to
/// stored definitions in a row; `None` when a size leaves 32 bits, a reference
/// is dangling or names a definition of another kind, or a chain of by-value
/// references is longer than `bound` (as a cycle is).
pub open spec fn spec_layout_in(ctx: CIRTypeContextView, t: CIRTypeView, bound: nat) -> Option<ABITypeLayoutView>
    decreases bound, 0nat, spec_type_height(t),
{
    let ps = spec_pointer_size(ctx.target_info.arch);
    match t {
        CIRTypeView::Struct(id) => if bound > 0 && id < ctx.defs.len() {
            match ctx.defs[id as int] {
                CIRTypeDefView::Struct(r) => spec_struct_layout_in(ctx, r, (bound - 1) as nat),
                _ => None,
            }
        } else {
            None
        },
        CIRTypeView::Union(id) => if bound > 0 && id < ctx.defs.len() {
            match ctx.defs[id as int] {
                CIRTypeDefView::Union(r) => spec_union_layout_in(ctx, r, (bound - 1) as nat),
                _ => None,
            }
        } else {
            None
        },
        CIRTypeView::Enum(id) => if bound > 0 && id < ctx.defs.len() {
            match ctx.defs[id as int] {
                CIRTypeDefView::Enum(e) => spec_enum_layout_in(ctx, e, (bound - 1) as nat),
                _ => None,
            }
        } else {
            None
        },
        CIRTypeView::Plain(p) => Some(spec_plain_layout(ctx.target_info, p)),
        CIRTypeView::Const(i) => spec_layout_in(ctx, *i, bound),
        CIRTypeView::Pointer(_) => Some(spec_layout(ps, ps, Seq::empty(), false)),
        CIRTypeView::FuncType(..) => Some(spec_layout(ps, ps, Seq::empty(), false)),
        CIRTypeView::Array(e, len) => match spec_layout_in(ctx, *e, bound) {
            Some(el) => spec_array_layout(el, len),
            None => None,
        },
        CIRTypeView::Dynamic(_) => if ps * 2 <= u32::MAX {
            Some(spec_layout((ps * 2) as u32, ps, Seq::empty(), false))
        } else {
            None
        },
    }
}

/// The layouts of a list of types, `None` when one of them has none.
pub open spec fn spec_layouts_in(ctx: CIRTypeContextView, s: Seq<CIRTypeView>, bound: nat) -> Option<Seq<ABITypeLayoutView>>
    decreases bound, 1nat, spec_heights_sum(s),
{
    if s.len() == 0 {
        Some(Seq::empty())
    } else {
        match spec_layouts_in(ctx, s.drop_last(), bound) {
            None => None,
            Some(ls) => match spec_layout_in(ctx, s.last(), bound) {
                None => None,
                Some(l) => Some(ls.push(l)),
            },
        }
    }
}

pub open spec fn spec_struct_layout_in(ctx: CIRTypeContextView, r: CIRRecordView, bound: nat) -> Option<ABITypeLayoutView>
    decreases bound, 2nat, 0nat,
{
    match spec_layouts_in(ctx, r.fields, bound) {
        None => None,
        Some(fls) => spec_struct_layout(fls, spec_is_packed(r.repr_attr), r.align),
    }
}

pub open spec fn spec_union_layout_in(ctx: CIRTypeContextView, r: CIRRecordView, bound: nat) -> Option<ABITypeLayoutView>
    decreases bound, 2nat, 0nat,
{
    match spec_layouts_in(ctx, r.fields, bound) {
        None => None,
        Some(fls) => spec_union_layout(fls),
    }
}

/// The (size, alignment) layouts of the variants' payloads: nothing for a unit
/// variant, the value's layout, or the payload struct's layout.
pub open spec fn spec_payload_layouts_in(ctx: CIRTypeContextView, vs: Seq<CIREnumVariantView>, bound: nat) -> Option<Seq<ABITypeLayoutView>>
    decreases bound, 3nat, vs.len(),
{
    if vs.len() == 0 {
        Some(Seq::empty())
    } else {
        match spec_payload_layouts_in(ctx, vs.drop_last(), bound) {
            None => None,
            Some(ls) => {
                let l = match vs.last() {
                    CIREnumVariantView::Unit(_, _) => Some(spec_layout(0, 1, Seq::empty(), false)),
                    CIREnumVariantView::Valued(_, ty, _) => spec_layout_in(ctx, ty, bound),
                    CIREnumVariantView::Payload(_, r, _) => spec_struct_layout_in(ctx, r, bound),
                };
                match l {
                    None => None,
                    Some(l) => Some(ls.push(l)),
                }
            },
        }
    }
}

pub open spec fn spec_enum_layout_in(ctx: CIRTypeContextView, e: CIREnumTypeView, bound: nat) -> Option<ABITypeLayoutView>
    decreases bound, 4nat, 0nat,
{
    let tag = spec_tag_type(e);
    if spec_is_scalar_optimizable(e) {
        spec_layout_in(ctx, tag, bound)
    } else {
        match spec_layout_in(ctx, tag, bound) {
            None => None,
            Some(tl) => match spec_payload_layouts_in(ctx, e.variants, bound) {
                None => None,
                Some(pls) => spec_enum_layout(tl, pls, spec_includes_payload(e), e.align),
            },
        }
    }
}

/// The layout of a type in a context.
pub open spec fn spec_layout_of(ctx: CIRTypeContextView, t: CIRTypeView) -> Option<ABITypeLayoutView> {
    spec_layout_in(ctx, t, ctx.defs.len())
}


/// Rounding up to an alignment of at least 1 gives a multiple of it, no
/// smaller than the start.
pub proof fn lemma_align_offset_multiple(offset: u32, align: u32)
    requires
        align >= 1,
        spec_align_offset(offset, align) is Some,
    ensures
        spec_align_offset(offset, align).unwrap() % align == 0,
        spec_align_offset(offset, align).unwrap() >= offset,
{
    let a = align as int;
    let x = offset as int;
    if x % a != 0 {
        vstd::arithmetic::div_mod::lemma_fundamental_div_mod(x, a);
        let q = x / a;
        assert(x + (a - x % a) == a * (q + 1)) by (nonlinear_arith)
            requires
                x == a * q + x % a,
        ;
        vstd::arithmetic::div_mod::lemma_mod_multiples_basic(q + 1, a);
        assert((a * (q + 1)) % a == 0) by (nonlinear_arith)
            requires
                ((q + 1) * a) % a == 0,
        ;
    }
}

proof fn lemma_struct_fold_max_align(fls: Seq<ABITypeLayoutView>, packed: bool)
    requires
        spec_struct_fold(fls, packed) is Some,
    ensures
        spec_struct_fold(fls, packed).unwrap().max_align >= 1,
    decreases fls.len(),
{
    if fls.len() > 0 {
        lemma_struct_fold_max_align(fls.drop_last(), packed);
    }
}

/// A struct's alignment is at least 1 and its size a multiple of it, so
/// that arrays of it keep every element aligned.
pub proof fn lemma_struct_layout_size_aligned(fls: Seq<ABITypeLayoutView>, packed: bool, align: Option<usize>)
    requires
        spec_struct_layout(fls, packed, align) is Some,
    ensures
        spec_struct_layout(fls, packed, align).unwrap().align >= 1,
        spec_struct_layout(fls, packed, align).unwrap().size % spec_struct_layout(fls, packed, align).unwrap().align == 0,
{
    lemma_struct_fold_max_align(fls, packed);
    let st = spec_struct_fold(fls, packed).unwrap();
    let ma2: u32 = match align {
        Some(a) => if st.max_align >= (a as u32) { st.max_align } else { a as u32 },
        None => st.max_align,
    };
    let ma3: u32 = if packed { 1 } else { ma2 };
    lemma_align_offset_multiple(st.offset, ma3);
}

proof fn lemma_max_size_align_bounds(fls: Seq<ABITypeLayoutView>)
    ensures
        spec_max_size_align(fls).1 >= 1,
        forall|i: int| 0 <= i < fls.len() ==> (#[trigger] fls[i]).size <= spec_max_size_align(fls).0,
    decreases fls.len(),
{
    if fls.len() > 0 {
        lemma_max_size_align_bounds(fls.drop_last());
        assert forall|i: int| 0 <= i < fls.len() implies (#[trigger] fls[i]).size <= spec_max_size_align(fls).0 by {
            if i < fls.len() - 1 {
                assert(fls[i] == fls.drop_last()[i]);
            }
        }
    }
}

/// A union is large enough for each of its fields, its alignment is at least
/// 1 and its size a multiple of it.
pub proof fn lemma_union_layout_fits_fields(fls: Seq<ABITypeLayoutView>)
    requires
        spec_union_layout(fls) is Some,
    ensures
        spec_union_layout(fls).unwrap().align >= 1,
        spec_union_layout(fls).unwrap().size % spec_union_layout(fls).unwrap().align == 0,
        forall|i: int| 0 <= i < fls.len() ==> (#[trigger] fls[i]).size <= spec_union_layout(fls).unwrap().size,
{
    lemma_max_size_align_bounds(fls);
    let (ms, ma) = spec_max_size_align(fls);
    lemma_align_offset_multiple(ms, ma);
}


/// Every field entry names a field and sits at an offset that is a multiple
/// of that field's alignment.
pub open spec fn spec_fields_aligned(entries: Seq<ABIFieldOffsetInfo>, fls: Seq<ABITypeLayoutView>) -> bool {
    forall|k: int|
        0 <= k < entries.len() ==> match #[trigger] entries[k] {
            ABIFieldOffsetInfo::Normal { offset, original_index, .. } => original_index < fls.len() && fls[original_index as int].align
                != 0 && offset % fls[original_index as int].align == 0,
            ABIFieldOffsetInfo::Padding { .. } => true,
        }
}

proof fn lemma_pad_to_multiple(x: u32, a: u32)
    requires
        a != 0,
    ensures
        (x + ((a as int - (x % a) as int) % (a as int))) % (a as int) == 0,
{
    let ai = a as int;
    let xi = x as int;
    let r = xi % ai;
    if r == 0 {
        assert((ai - r) % ai == 0) by {
            vstd::arithmetic::div_mod::lemma_mod_self_0(ai);
        }
    } else {
        assert((ai - r) % ai == ai - r) by {
            vstd::arithmetic::div_mod::lemma_small_mod((ai - r) as nat, ai as nat);
        }
        vstd::arithmetic::div_mod::lemma_fundamental_div_mod(xi, ai);
        let q = xi / ai;
        assert(xi + (ai - r) == ai * (q + 1)) by (nonlinear_arith)
            requires
                xi == ai * q + r,
        ;
        vstd::arithmetic::div_mod::lemma_mod_multiples_basic(q + 1, ai);
        assert((ai * (q + 1)) % ai == 0) by (nonlinear_arith)
            requires
                ((q + 1) * ai) % ai == 0,
        ;
    }
}

proof fn lemma_struct_fold_fields_aligned(fls: Seq<ABITypeLayoutView>)
    requires
        spec_struct_fold(fls, false) is Some,
        fls.len() <= usize::MAX,
    ensures
        spec_fields_aligned(spec_struct_fold(fls, false).unwrap().field_offsets, fls),
    decreases fls.len(),
{
    if fls.len() > 0 {
        let prev = fls.drop_last();
        lemma_struct_fold_fields_aligned(prev);
        let st = spec_struct_fold(prev, false).unwrap();
        let fl = fls.last();
        lemma_pad_to_multiple(st.offset, fl.align);
        let entries = spec_struct_fold(fls, false).unwrap().field_offsets;
        assert forall|k: int| 0 <= k < entries.len() implies match #[trigger] entries[k] {
            ABIFieldOffsetInfo::Normal { offset, original_index, .. } => original_index < fls.len() && fls[original_index as int].align
                != 0 && offset % fls[original_index as int].align == 0,
            ABIFieldOffsetInfo::Padding { .. } => true,
        } by {
            if k < st.field_offsets.len() {
                assert(entries[k] == st.field_offsets[k]);
                if let ABIFieldOffsetInfo::Normal { original_index, .. } = st.field_offsets[k] {
                    assert(prev[original_index as int] == fls[original_index as int]);
                }
            } else {
                let eff = fl.align;
                let pi: int = (eff as int - (st.offset % eff) as int) % (eff as int);
                assert(0 <= pi < eff);
                let padding = pi as u32;
                assert(padding as int == pi);
                assert((st.offset + pi) % (eff as int) == 0);
                assert(fls[fls.len() - 1] == fl);
                let fo1 = if padding > 0 {
                    st.field_offsets.push(ABIFieldOffsetInfo::Padding { index: st.next_index, offset: st.offset, size: padding })
                } else {
                    st.field_offsets
                };
                let off1: int = st.offset + pi;
                assert(entries.len() == fo1.len() + 1);
                if k == entries.len() - 1 {
                    assert(entries[k] matches ABIFieldOffsetInfo::Normal { offset, original_index, .. } && offset == off1
                        as u32 && original_index == (fls.len() - 1) as usize);
                } else {
                    assert(entries[k] == fo1[k]);
                    assert(entries[k] is Padding);
                }
            }
        }
    }
}

/// In a struct that is not packed every field sits at an offset that is a
/// multiple of its own alignment.
pub proof fn lemma_struct_layout_fields_aligned(fls: Seq<ABITypeLayoutView>, align: Option<usize>)
    requires
        spec_struct_layout(fls, false, align) is Some,
        fls.len() <= usize::MAX,
    ensures
        spec_fields_aligned(spec_struct_layout(fls, false, align).unwrap().field_offsets, fls),
{
    lemma_struct_fold_fields_aligned(fls);
    let entries = spec_struct_layout(fls, false, align).unwrap().field_offsets;
    let st = spec_struct_fold(fls, false).unwrap();
    assert forall|k: int| 0 <= k < entries.len() implies match #[trigger] entries[k] {
        ABIFieldOffsetInfo::Normal { offset, original_index, .. } => original_index < fls.len() && fls[original_index as int].align
            != 0 && offset % fls[original_index as int].align == 0,
        ABIFieldOffsetInfo::Padding { .. } => true,
    } by {
        if k < st.field_offsets.len() {
            assert(entries[k] == st.field_offsets[k]);
        }
    }
}

/// The largest size and alignment of some layouts, characterized: every
/// layout is within them, each is reached by some layout (the alignment
/// floor of 1 aside), and they are 0 and 1 for no layouts.
pub proof fn lemma_max_size_align_is_largest(fls: Seq<ABITypeLayoutView>)
    ensures
        spec_max_size_align(fls).1 >= 1,
        forall|i: int| 0 <= i < fls.len() ==> (#[trigger] fls[i]).size <= spec_max_size_align(fls).0 && fls[i].align
            <= spec_max_size_align(fls).1,
        fls.len() == 0 ==> spec_max_size_align(fls) == (0u32, 1u32),
        fls.len() > 0 ==> exists|i: int| 0 <= i < fls.len() && (#[trigger] fls[i]).size == spec_max_size_align(fls).0,
        spec_max_size_align(fls).1 == 1 || exists|i: int| 0 <= i < fls.len() && (#[trigger] fls[i]).align == spec_max_size_align(fls).1,
    decreases fls.len(),
{
    if fls.len() > 0 {
        let prev = fls.drop_last();
        let last = fls.len() - 1;
        lemma_max_size_align_is_largest(prev);
        let (ps, pa) = spec_max_size_align(prev);
        let (ms, ma) = spec_max_size_align(fls);
        assert(fls[last] == fls.last());
        assert forall|i: int| 0 <= i < fls.len() implies (#[trigger] fls[i]).size <= ms && fls[i].align <= ma by {
            if i < last {
                assert(fls[i] == prev[i]);
            }
        }
        if fls[last].size >= ps {
            assert(fls[last].size == ms);
        } else {
            let j = choose|j: int| 0 <= j < prev.len() && (#[trigger] prev[j]).size == ps;
            assert(fls[j] == prev[j]);
            assert(fls[j].size == ms);
        }
        if fls[last].align >= pa {
            assert(fls[last].align == ma);
        } else if pa != 1 {
            let j = choose|j: int| 0 <= j < prev.len() && (#[trigger] prev[j]).align == pa;
            assert(fls[j] == prev[j]);
            assert(fls[j].align == ma);
        }
    }
}

/// Rounding up to an alignment gives the least multiple of it that is no
/// smaller than the start.
pub proof fn lemma_align_offset_least(offset: u32, align: u32)
    requires
        align >= 1,
        spec_align_offset(offset, align) is Some,
    ensures
        spec_align_offset(offset, align).unwrap() % align == 0,
        offset <= spec_align_offset(offset, align).unwrap() < offset + align,
{
    lemma_align_offset_multiple(offset, align);
}

/// A union's layout exactly: every field at offset 0 in field order, the
/// alignment the largest field alignment (at least 1), and the size the least
/// multiple of that alignment that holds the largest field.
pub proof fn lemma_union_layout_exact(fls: Seq<ABITypeLayoutView>)
    requires
        spec_union_layout(fls) is Some,
    ensures
        ({
            let l = spec_union_layout(fls).unwrap();
            let (ms, ma) = spec_max_size_align(fls);
            &&& l.field_offsets.len() == fls.len()
            &&& forall|k: int| 0 <= k < fls.len() ==> #[trigger] l.field_offsets[k] == (ABIFieldOffsetInfo::Normal {
                index: k as u32,
                offset: 0,
                original_index: k as usize,
            })
            &&& l.align == ma
            &&& l.size % l.align == 0
            &&& ms <= l.size < ms + l.align
        }),
{
    let (ms, ma) = spec_max_size_align(fls);
    lemma_max_size_align_is_largest(fls);
    lemma_align_offset_least(ms, ma);
}

/// The sum of the sizes of some layouts.
pub open spec fn spec_sizes_sum(fls: Seq<ABITypeLayoutView>) -> int
    decreases fls.len(),
{
    if fls.len() == 0 {
        0
    } else {
        spec_sizes_sum(fls.drop_last()) + fls.last().size
    }
}

proof fn lemma_packed_fold(fls: Seq<ABITypeLayoutView>)
    requires
        spec_struct_fold(fls, true) is Some,
    ensures
        ({
            let st = spec_struct_fold(fls, true).unwrap();
            &&& st.offset == spec_sizes_sum(fls)
            &&& st.next_index == fls.len()
            &&& st.field_offsets.len() == fls.len()
            &&& forall|k: int| 0 <= k < fls.len() ==> #[trigger] st.field_offsets[k] == (ABIFieldOffsetInfo::Normal {
                index: k as u32,
                offset: spec_sizes_sum(fls.take(k)) as u32,
                original_index: k as usize,
            })
        }),
    decreases fls.len(),
{
    if fls.len() > 0 {
        let prev = fls.drop_last();
        lemma_packed_fold(prev);
        let st = spec_struct_fold(fls, true).unwrap();
        let sp = spec_struct_fold(prev, true).unwrap();
        let n = fls.len() - 1;
        assert(fls.take(n) =~= prev);
        assert forall|k: int| 0 <= k < fls.len() implies #[trigger] st.field_offsets[k] == (ABIFieldOffsetInfo::Normal {
            index: k as u32,
            offset: spec_sizes_sum(fls.take(k)) as u32,
            original_index: k as usize,
        }) by {
            if k < n {
                assert(st.field_offsets[k] == sp.field_offsets[k]);
                assert(fls.take(k) =~= prev.take(k));
            }
        }
    }
}

/// A packed struct: alignment 1, no padding anywhere, each field right after
/// the one before it (field `k` at the sum of the sizes before it), and the
/// size the sum of the field sizes.
pub proof fn lemma_packed_struct_layout(fls: Seq<ABITypeLayoutView>, align: Option<usize>)
    requires
        spec_struct_layout(fls, true, align) is Some,
    ensures
        ({
            let l = spec_struct_layout(fls, true, align).unwrap();
            &&& l.align == 1
            &&& l.size == spec_sizes_sum(fls)
            &&& l.field_offsets.len() == fls.len()
            &&& forall|k: int| 0 <= k < fls.len() ==> #[trigger] l.field_offsets[k] == (ABIFieldOffsetInfo::Normal {
                index: k as u32,
                offset: spec_sizes_sum(fls.take(k)) as u32,
                original_index: k as usize,
            })
        }),
{
    lemma_packed_fold(fls);
}

/// Where an entry starts.
pub open spec fn spec_entry_offset(e: ABIFieldOffsetInfo) -> int {
    match e {
        ABIFieldOffsetInfo::Normal { offset, .. } => offset as int,
        ABIFieldOffsetInfo::Padding { offset, .. } => offset as int,
    }
}

/// The position number an entry carries.
pub open spec fn spec_entry_index(e: ABIFieldOffsetInfo) -> int {
    match e {
        ABIFieldOffsetInfo::Normal { index, .. } => index as int,
        ABIFieldOffsetInfo::Padding { index, .. } => index as int,
    }
}

/// Where an entry ends: padding after its size, a field after its field's size.
pub open spec fn spec_entry_end(e: ABIFieldOffsetInfo, fls: Seq<ABITypeLayoutView>) -> int {
    match e {
        ABIFieldOffsetInfo::Normal { offset, original_index, .. } => offset + fls[original_index as int].size,
        ABIFieldOffsetInfo::Padding { offset, size, .. } => offset + size,
    }
}

/// The entries cover `[0, end)` without gap or overlap: each carries its
/// position, the first starts at 0, each next one where the one before
/// ends, and the last ends at `end`.
pub open spec fn spec_entries_tile(entries: Seq<ABIFieldOffsetInfo>, fls: Seq<ABITypeLayoutView>, end: int) -> bool {
    &&& forall|k: int| 0 <= k < entries.len() ==> spec_entry_index(#[trigger] entries[k]) == k
    &&& forall|k: int| 0 <= k < entries.len() ==> spec_entry_offset(#[trigger] entries[k]) == if k == 0 {
        0
    } else {
        spec_entry_end(entries[k - 1], fls)
    }
    &&& end == if entries.len() == 0 {
        0
    } else {
        spec_entry_end(entries[entries.len() - 1], fls)
    }
}

/// The fields the field entries name, in the order of the entries.
pub open spec fn spec_entry_fields(entries: Seq<ABIFieldOffsetInfo>) -> Seq<usize>
    decreases entries.len(),
{
    if entries.len() == 0 {
        Seq::empty()
    } else {
        let rest = spec_entry_fields(entries.drop_last());
        match entries.last() {
            ABIFieldOffsetInfo::Normal { original_index, .. } => rest.push(original_index),
            ABIFieldOffsetInfo::Padding { .. } => rest,
        }
    }
}

/// Field entries name fields that exist.
pub open spec fn spec_entries_name_fields(entries: Seq<ABIFieldOffsetInfo>, n: int) -> bool {
    forall|k: int| 0 <= k < entries.len() ==> (#[trigger] entries[k] matches ABIFieldOffsetInfo::Normal { original_index, .. }
        ==> original_index < n)
}

proof fn lemma_entry_end_prefix(e: ABIFieldOffsetInfo, fls: Seq<ABITypeLayoutView>, m: int)
    requires
        0 <= m <= fls.len(),
        e matches ABIFieldOffsetInfo::Normal { original_index, .. } ==> original_index < m,
    ensures
        spec_entry_end(e, fls.take(m)) == spec_entry_end(e, fls),
{
}

proof fn lemma_tiles_extend(entries: Seq<ABIFieldOffsetInfo>, fls: Seq<ABITypeLayoutView>, end: int)
    requires
        fls.len() > 0,
        spec_entries_name_fields(entries, fls.len() - 1),
        spec_entries_tile(entries, fls.drop_last(), end),
    ensures
        spec_entries_name_fields(entries, fls.len() as int),
        spec_entries_tile(entries, fls, end),
{
    let prev = fls.drop_last();
    assert forall|k: int| 0 <= k < entries.len() implies spec_entry_end(#[trigger] entries[k], prev) == spec_entry_end(
        entries[k],
        fls,
    ) by {
        if let ABIFieldOffsetInfo::Normal { original_index, .. } = entries[k] {
            assert(prev[original_index as int] == fls[original_index as int]);
        }
    }
    assert forall|k: int| 0 <= k < entries.len() implies spec_entry_offset(#[trigger] entries[k]) == if k == 0 {
        0
    } else {
        spec_entry_end(entries[k - 1], fls)
    } by {
        if k > 0 {
            assert(spec_entry_end(entries[k - 1], prev) == spec_entry_end(entries[k - 1], fls));
        }
    }
    if entries.len() > 0 {
        assert(spec_entry_end(entries[entries.len() - 1], prev) == spec_entry_end(entries[entries.len() - 1], fls));
    }
}

proof fn lemma_tiles_push(entries: Seq<ABIFieldOffsetInfo>, fls: Seq<ABITypeLayoutView>, end: int, e: ABIFieldOffsetInfo)
    requires
        spec_entries_tile(entries, fls, end),
        spec_entries_name_fields(entries, fls.len() as int),
        spec_entry_index(e) == entries.len(),
        spec_entry_offset(e) == end,
        e matches ABIFieldOffsetInfo::Normal { original_index, .. } ==> original_index < fls.len(),
    ensures
        spec_entries_tile(entries.push(e), fls, spec_entry_end(e, fls)),
        spec_entries_name_fields(entries.push(e), fls.len() as int),
        spec_entry_fields(entries.push(e)) == match e {
            ABIFieldOffsetInfo::Normal { original_index, .. } => spec_entry_fields(entries).push(original_index),
            ABIFieldOffsetInfo::Padding { .. } => spec_entry_fields(entries),
        },
{
    let e2 = entries.push(e);
    assert(e2.drop_last() == entries);
    assert forall|k: int| 0 <= k < e2.len() implies spec_entry_index(#[trigger] e2[k]) == k by {
        if k < entries.len() {
            assert(e2[k] == entries[k]);
        }
    }
    assert forall|k: int| 0 <= k < e2.len() implies spec_entry_offset(#[trigger] e2[k]) == if k == 0 {
        0
    } else {
        spec_entry_end(e2[k - 1], fls)
    } by {
        if k < entries.len() {
            assert(e2[k] == entries[k]);
        }
        if 0 < k {
            assert(e2[k - 1] == entries[k - 1]);
        }
    }
    assert forall|k: int| 0 <= k < e2.len() implies (#[trigger] e2[k] matches ABIFieldOffsetInfo::Normal { original_index, .. }
        ==> original_index < fls.len()) by {
        if k < entries.len() {
            assert(e2[k] == entries[k]);
        }
    }
}

proof fn lemma_struct_fold_tiles(fls: Seq<ABITypeLayoutView>, packed: bool)
    requires
        spec_struct_fold(fls, packed) is Some,
        fls.len() <= usize::MAX,
    ensures
        ({
            let st = spec_struct_fold(fls, packed).unwrap();
            &&& st.next_index == st.field_offsets.len()
            &&& spec_entries_name_fields(st.field_offsets, fls.len() as int)
            &&& spec_entries_tile(st.field_offsets, fls, st.offset as int)
            &&& spec_entry_fields(st.field_offsets) == Seq::new(fls.len(), |i: int| i as usize)
            &&& st.max_align == spec_max_size_align(fls).1
        }),
    decreases fls.len(),
{
    if fls.len() > 0 {
        let prev = fls.drop_last();
        lemma_struct_fold_tiles(prev, packed);
        let sp = spec_struct_fold(prev, packed).unwrap();
        let fl = fls.last();
        let n = fls.len() - 1;
        let eff: u32 = if packed { 1 } else { fl.align };
        let padding: u32 = if packed { 0 } else { ((eff as int - (sp.offset % eff) as int) % (eff as int)) as u32 };
        lemma_tiles_extend(sp.field_offsets, fls, sp.offset as int);
        let fo1 = if padding > 0 {
            let pe = ABIFieldOffsetInfo::Padding { index: sp.next_index, offset: sp.offset, size: padding };
            lemma_tiles_push(sp.field_offsets, fls, sp.offset as int, pe);
            sp.field_offsets.push(pe)
        } else {
            sp.field_offsets
        };
        let off1: int = if padding > 0 { sp.offset + padding } else { sp.offset as int };
        let ne = ABIFieldOffsetInfo::Normal { index: fo1.len() as u32, offset: off1 as u32, original_index: n as usize };
        assert(fls[n] == fl);
        lemma_tiles_push(fo1, fls, off1, ne);
        assert(spec_struct_fold(fls, packed).unwrap().field_offsets == fo1.push(ne));
        assert(spec_entry_fields(fo1.push(ne)) =~= Seq::new(fls.len(), |i: int| i as usize));
        let st = spec_struct_fold(fls, packed).unwrap();
        assert(off1 + fl.size <= u32::MAX);
        assert(st.offset as int == off1 + fl.size);
        assert(spec_entry_end(ne, fls) == off1 + fl.size);
        assert(spec_entries_tile(fo1, fls, off1));
        assert(st.next_index == st.field_offsets.len());
        assert(spec_entries_tile(st.field_offsets, fls, st.offset as int));
        assert(st.max_align == spec_max_size_align(fls).1);
    } else {
        assert(spec_entry_fields(Seq::<ABIFieldOffsetInfo>::empty()) =~= Seq::new(0, |i: int| i as usize));
    }
}

/// The layout of a struct that is not packed: the entries cover the whole
/// struct in order without gap or overlap, the fields appear in field order,
/// the alignment is the largest of the fields' alignments (at least 1) and
/// the explicit one, and the size is a multiple of it.
pub proof fn lemma_struct_layout_tiles(fls: Seq<ABITypeLayoutView>, align: Option<usize>)
    requires
        spec_struct_layout(fls, false, align) is Some,
        fls.len() <= usize::MAX,
    ensures
        ({
            let l = spec_struct_layout(fls, false, align).unwrap();
            let ma = spec_max_size_align(fls).1;
            &&& spec_entries_tile(l.field_offsets, fls, l.size as int)
            &&& spec_entry_fields(l.field_offsets) == Seq::new(fls.len(), |i: int| i as usize)
            &&& l.align == match align {
                Some(a) => if ma >= (a as u32) { ma } else { a as u32 },
                None => ma,
            }
            &&& l.align >= 1
            &&& l.size % l.align == 0
        }),
{
    lemma_struct_fold_tiles(fls, false);
    lemma_struct_layout_size_aligned(fls, false, align);
    let st = spec_struct_fold(fls, false).unwrap();
    let l = spec_struct_layout(fls, false, align).unwrap();
    if l.size > st.offset {
        let e = l.field_offsets;
        assert(e.drop_last() == st.field_offsets);
        assert forall|k: int| 0 <= k < e.len() implies spec_entry_index(#[trigger] e[k]) == k by {
            if k < st.field_offsets.len() {
                assert(e[k] == st.field_offsets[k]);
            }
        }
        assert forall|k: int| 0 <= k < e.len() implies spec_entry_offset(#[trigger] e[k]) == if k == 0 {
            0
        } else {
            spec_entry_end(e[k - 1], fls)
        } by {
            if k < st.field_offsets.len() {
                assert(e[k] == st.field_offsets[k]);
            }
            if 0 < k {
                assert(e[k - 1] == st.field_offsets[k - 1]);
            }
        }
    }
}

/// Rounding up with `spec_round_up` gives the least multiple of the
/// alignment no smaller than the start.
pub proof fn lemma_round_up_least(x: u32, a: u32)
    requires
        spec_round_up(x, a) is Some,
    ensures
        a >= 1,
        spec_round_up(x, a).unwrap() % a == 0,
        x <= spec_round_up(x, a).unwrap() < x + a,
{
    let xi = x as int;
    let ai = a as int;
    let q = (xi + (ai - 1)) / ai;
    vstd::arithmetic::div_mod::lemma_fundamental_div_mod(xi + (ai - 1), ai);
    let rem = (xi + (ai - 1)) % ai;
    assert(0 <= rem < ai) by {
        vstd::arithmetic::div_mod::lemma_mod_bound(xi + (ai - 1), ai);
    }
    assert(q * ai == xi + (ai - 1) - rem) by (nonlinear_arith)
        requires
            xi + (ai - 1) == ai * q + rem,
    ;
    vstd::arithmetic::div_mod::lemma_mod_multiples_basic(q, ai);
}

/// The layout of an enum with payloads from its tag's layout and its
/// payloads' layouts: no field entries, an alignment no smaller than the
/// tag's (nor than any payload's, unless all payloads are empty while the
/// enum carries payloads, when they count as one byte aligned to 1), and a
/// size that is a multiple of it and holds the tag followed by any payload
/// (by at least one byte when the enum carries payloads).
pub proof fn lemma_enum_layout_holds_tag_and_payload(
    tag: ABITypeLayoutView,
    payloads: Seq<ABITypeLayoutView>,
    includes_payload: bool,
    align: Option<usize>,
)
    requires
        spec_enum_layout(tag, payloads, includes_payload, align) is Some,
    ensures
        ({
            let l = spec_enum_layout(tag, payloads, includes_payload, align).unwrap();
            &&& l.field_offsets.len() == 0
            &&& l.align >= 1
            &&& l.align >= tag.align
            &&& l.size % l.align == 0
            &&& forall|i: int| 0 <= i < payloads.len() ==> l.size >= tag.size + (#[trigger] payloads[i]).size
            &&& (spec_max_size_align(payloads).0 > 0 || !includes_payload) ==> forall|i: int| 0 <= i < payloads.len()
                ==> l.align >= (#[trigger] payloads[i]).align
            &&& includes_payload ==> l.size >= tag.size + 1
        }),
{
    lemma_max_size_align_is_largest(payloads);
    let (mps0, mpa0) = spec_max_size_align(payloads);
    let (mps, mpa1): (u32, u32) = if mps0 == 0 && includes_payload { (1u32, 1u32) } else { (mps0, mpa0) };
    let mpa: u32 = match align {
        Some(a) => if mpa1 >= (a as u32) { mpa1 } else { a as u32 },
        None => mpa1,
    };
    let payload_offset = spec_round_up(tag.size, mpa).unwrap();
    lemma_round_up_least(tag.size, mpa);
    let ta1: u32 = if tag.align >= mpa { tag.align } else { mpa };
    let ta: u32 = match align {
        Some(a) => if ta1 >= (a as u32) { ta1 } else { a as u32 },
        None => ta1,
    };
    lemma_round_up_least((payload_offset + mps) as u32, ta);
}

/// An enum's layout in a context: a scalar-optimizable enum is laid out as
/// its tag; any other follows from its tag's and payloads' layouts as
/// `lemma_enum_layout_holds_tag_and_payload` states.
pub proof fn lemma_enum_layout_in_parts(ctx: CIRTypeContextView, e: CIREnumTypeView, bound: nat)
    requires
        spec_enum_layout_in(ctx, e, bound) is Some,
    ensures
        spec_layout_in(ctx, spec_tag_type(e), bound) is Some,
        spec_is_scalar_optimizable(e) ==> spec_enum_layout_in(ctx, e, bound) == spec_layout_in(ctx, spec_tag_type(e), bound),
        !spec_is_scalar_optimizable(e) ==> ({
            let l = spec_enum_layout_in(ctx, e, bound).unwrap();
            let tl = spec_layout_in(ctx, spec_tag_type(e), bound).unwrap();
            let pls = spec_payload_layouts_in(ctx, e.variants, bound).unwrap();
            &&& spec_payload_layouts_in(ctx, e.variants, bound) is Some
            &&& l == spec_enum_layout(tl, pls, spec_includes_payload(e), e.align).unwrap()
            &&& l.field_offsets.len() == 0
            &&& l.align >= tl.align
            &&& l.size % l.align == 0
            &&& forall|i: int| 0 <= i < pls.len() ==> l.size >= tl.size + (#[trigger] pls[i]).size
            &&& spec_includes_payload(e) ==> l.size >= tl.size + 1
        }),
{
    if !spec_is_scalar_optimizable(e) {
        let tl = spec_layout_in(ctx, spec_tag_type(e), bound).unwrap();
        let pls = spec_payload_layouts_in(ctx, e.variants, bound).unwrap();
        lemma_enum_layout_holds_tag_and_payload(tl, pls, spec_includes_payload(e), e.align);
    }
}

/// A plain type takes as many bytes in memory as its ABI type does (`null`
/// on wasm32 aside, whose 4-byte pointer the ABI counts as 8), and is aligned
/// to its size, except `void` (aligned to 1) and the 128-bit kinds (aligned
/// to 16, 8 on wasm32): so one-byte kinds (`i8`, `u8`, `bool`, `char`) are
/// one byte aligned to 1 on every target.
pub proof fn lemma_plain_layout_matches_abi(info: ABITargetInfo, p: PlainType)
    ensures
        !(p == PlainType::Null && info.arch == ABITargetArch::Wasm32) ==> spec_plain_layout(info, p).size
            == crate::abi::types::spec_abi_size(info, crate::abi::helpers::spec_plain_to_abi(info.arch, p)),
        p != PlainType::Void && p != PlainType::Int128 && p != PlainType::UInt128 && p != PlainType::Float128 ==> spec_plain_layout(
            info,
            p,
        ).align == spec_plain_layout(info, p).size,
        p == PlainType::Void ==> spec_plain_layout(info, p).size == 0 && spec_plain_layout(info, p).align == 1,
        (p == PlainType::Int128 || p == PlainType::UInt128 || p == PlainType::Float128) ==> spec_plain_layout(info, p).size
            == 16 && spec_plain_layout(info, p).align == if info.arch == ABITargetArch::Wasm32 {
            8u32
        } else {
            16u32
        },
        (p == PlainType::Int8 || p == PlainType::UInt8 || p == PlainType::Bool || p == PlainType::Char) ==> spec_plain_layout(
            info,
            p,
        ).size == 1 && spec_plain_layout(info, p).align == 1,
{
}

} // verus!
