//! What the System V x86-64 lowering of arguments and return values computes:
//! the member of an aggregate at an offset, the register type picked for an
//! eightbyte, and the argument and return value descriptions built from the
//! register classes.
use crate::abi::args::{
    ABIArgAttrs, ABIArgInfoView, ABIArgKindView, ABIFunctionInfoView, ABIRetInfoKindView, ABIRetInfoView, Registers,
};
use crate::abi::callconv::CallConv;
use crate::abi::args::{spec_arg, spec_direct, spec_no_attrs};
use crate::abi::helpers::{spec_fields_to_abi_in, spec_is_abi_aggregate, spec_to_abi};
use crate::abi::layout::ABITypeLayoutView;
use crate::abi::target::{ABITargetInfo, ABITargetOS, RegisterClass};
use crate::abi::targets::x86_64::classify_spec::spec_classify;
use crate::abi::types::{spec_as_integer_bits, spec_float_size, ABIFloatKind, ABITypeView};
use crate::cir::layout_spec::{
    spec_layout_in, spec_layout_of, spec_layouts_in, spec_plain_layout, spec_struct_layout_in,
    spec_type_height, spec_union_layout_in, CIRTypeContextView, CIRTypeDefView,
};
use crate::cir::types::{
    spec_const_inner, spec_is_float, spec_is_integer_or_bool, spec_is_scalar_optimizable,
    spec_is_signed_integer, spec_is_void, spec_plain_is_signed, spec_tag_type, CIRRecordView, CIRTypeView, PlainType,
};
use vstd::prelude::*;

verus! {

/// Removing `const` wrappers never makes a type taller.
pub proof fn lemma_const_inner_height(t: CIRTypeView)
    ensures
        spec_type_height(spec_const_inner(t)) <= spec_type_height(t),
    decreases t,
{
    if let CIRTypeView::Const(i) = t {
        lemma_const_inner_height(*i);
    }
}

/// Scans the struct fields from position `i`, the previous field ending at
/// `cur`: each field starts at `cur` rounded up to its alignment, and the first
/// field whose span holds `offset` is found with its start. `Some(None)` when
/// no field holds it; `None` when an offset leaves 32 bits or an alignment is 0.
pub open spec fn spec_struct_member_from(
    fields: Seq<CIRTypeView>,
    fls: Seq<ABITypeLayoutView>,
    offset: u32,
    i: nat,
    cur: u32,
) -> Option<Option<(CIRTypeView, u32)>>
    decreases fields.len() - i,
{
    if i >= fields.len() || i >= fls.len() {
        Some(None)
    } else {
        let fl = fls[i as int];
        if fl.align == 0 {
            None
        } else {
            let padding = (fl.align - cur % fl.align) % (fl.align as int);
            if cur + padding > u32::MAX {
                None
            } else {
                let c = (cur + padding) as u32;
                if c > offset {
                    Some(None)
                } else if c + fl.size > u32::MAX {
                    None
                } else if offset < c + fl.size {
                    Some(Some((fields[i as int], c)))
                } else {
                    spec_struct_member_from(fields, fls, offset, i + 1, (c + fl.size) as u32)
                }
            }
        }
    }
}

/// The field of a struct that holds byte `offset`, with the field's start;
/// `Some(None)` when `offset` is past the struct or between fields.
pub open spec fn spec_struct_member_at(ctx: CIRTypeContextView, r: CIRRecordView, offset: u32, bound: nat) -> Option<
    Option<(CIRTypeView, u32)>,
> {
    match (spec_struct_layout_in(ctx, r, bound), spec_layouts_in(ctx, r.fields, bound)) {
        (Some(layout), Some(fls)) => if layout.size < offset {
            Some(None)
        } else {
            spec_struct_member_from(r.fields, fls, offset, 0, 0)
        },
        _ => None,
    }
}

/// The first union field from position `i` on that is larger than `offset`.
pub open spec fn spec_union_member_from(fields: Seq<CIRTypeView>, fls: Seq<ABITypeLayoutView>, offset: u32, i: nat) -> Option<
    (CIRTypeView, u32),
>
    decreases fields.len() - i,
{
    if i >= fields.len() || i >= fls.len() {
        None
    } else if offset < fls[i as int].size {
        Some((fields[i as int], 0))
    } else {
        spec_union_member_from(fields, fls, offset, i + 1)
    }
}

/// The field of a union that covers byte `offset` (every field starts at 0).
pub open spec fn spec_union_member_at(ctx: CIRTypeContextView, r: CIRRecordView, offset: u32, bound: nat) -> Option<
    Option<(CIRTypeView, u32)>,
> {
    match (spec_union_layout_in(ctx, r, bound), spec_layouts_in(ctx, r.fields, bound)) {
        (Some(layout), Some(fls)) => if layout.size < offset {
            Some(None)
        } else {
            Some(spec_union_member_from(r.fields, fls, offset, 0))
        },
        _ => None,
    }
}

/// The floating-point type found at byte `offset` of `t`, descending through
/// struct and union members and array elements; `Some(None)` when there is
/// none, `None` where the search fails (a division by zero, a missing or
/// mistyped definition, an overflow).
pub open spec fn spec_fp_type_at_in(ctx: CIRTypeContextView, t: CIRTypeView, offset: u32, bound: nat) -> Option<Option<ABITypeView>>
    decreases bound, spec_type_height(t),
{
    if offset == 0 && spec_is_float(t) {
        match spec_to_abi(ctx, t) {
            Some(a) => Some(Some(a)),
            None => None,
        }
    } else {
        match t {
            CIRTypeView::Struct(id) => if bound > 0 && id < ctx.defs.len() {
                match ctx.defs[id as int] {
                    CIRTypeDefView::Struct(r) => match spec_struct_member_at(ctx, r, offset, (bound - 1) as nat) {
                        None => None,
                        Some(None) => Some(None),
                        Some(Some((f, fo))) => spec_fp_type_at_in(ctx, f, (offset - fo) as u32, (bound - 1) as nat),
                    },
                    _ => None,
                }
            } else {
                None
            },
            CIRTypeView::Union(id) => if bound > 0 && id < ctx.defs.len() {
                match ctx.defs[id as int] {
                    CIRTypeDefView::Union(r) => match spec_union_member_at(ctx, r, offset, (bound - 1) as nat) {
                        None => None,
                        Some(None) => Some(None),
                        Some(Some((f, fo))) => spec_fp_type_at_in(ctx, f, (offset - fo) as u32, (bound - 1) as nat),
                    },
                    _ => None,
                }
            } else {
                None
            },
            _ => match spec_const_inner(t) {
                CIRTypeView::Array(e, _) => {
                    proof {
                        lemma_const_inner_height(t);
                    }
                    match spec_layout_in(ctx, *e, bound) {
                        None => None,
                        Some(el) => if el.size == 0 {
                            None
                        } else {
                            spec_fp_type_at_in(ctx, *e, (offset % el.size) as u32, bound)
                        },
                    }
                },
                _ => Some(None),
            },
        }
    }
}

/// The SSE register type for the eightbyte of `t` at `offset`, where `t` sits
/// at `src_off` of `src`: a lone double stays a double; two floats become a
/// two-lane float vector; halves become a vector of halves (four lanes when a
/// further half follows); any other mix becomes a double.
pub open spec fn spec_sse_type_at(
    ctx: CIRTypeContextView,
    t: CIRTypeView,
    offset: u32,
    src: CIRTypeView,
    src_off: u32,
    bound: nat,
) -> Option<Option<ABITypeView>> {
    let f64t = ABITypeView::Float(ABIFloatKind::F64);
    match spec_fp_type_at_in(ctx, t, offset, bound) {
        None => None,
        Some(None) => Some(None),
        Some(Some(first)) => match first {
            ABITypeView::Float(kind) => if kind == ABIFloatKind::F64 {
                Some(Some(f64t))
            } else {
                match spec_layout_of(ctx, src) {
                    None => None,
                    Some(sl) => if sl.size < src_off {
                        None
                    } else {
                        let source_size = sl.size - src_off;
                        let fsize = spec_float_size(kind);
                        let second0: Option<Option<ABITypeView>> = if source_size > fsize {
                            if offset + fsize > u32::MAX {
                                None
                            } else {
                                spec_fp_type_at_in(ctx, t, (offset + fsize) as u32, bound)
                            }
                        } else {
                            Some(None)
                        };
                        let second: Option<Option<ABITypeView>> = match second0 {
                            Some(None) => if kind == ABIFloatKind::F16 && source_size > 4 {
                                if offset + 4 > u32::MAX {
                                    None
                                } else {
                                    spec_fp_type_at_in(ctx, t, (offset + 4) as u32, bound)
                                }
                            } else {
                                Some(None)
                            },
                            other => other,
                        };
                        match second {
                            None => None,
                            Some(None) => Some(Some(ABITypeView::Float(kind))),
                            Some(Some(ABITypeView::Float(kind2))) => if kind == ABIFloatKind::F32 && kind2
                                == ABIFloatKind::F32 {
                                Some(Some(ABITypeView::Vector { element_ty: Box::new(ABITypeView::Float(ABIFloatKind::F32)), lanes: 2 }))
                            } else if kind == ABIFloatKind::F16 && kind2 == ABIFloatKind::F16 {
                                if source_size > 4 && offset + 4 > u32::MAX {
                                    None
                                } else {
                                    let following: Option<bool> = if source_size > 4 {
                                        match spec_fp_type_at_in(ctx, t, (offset + 4) as u32, bound) {
                                            None => None,
                                            Some(x) => Some(x is Some),
                                        }
                                    } else {
                                        Some(false)
                                    };
                                    match following {
                                        None => None,
                                        Some(fl) => Some(Some(ABITypeView::Vector {
                                            element_ty: Box::new(ABITypeView::Float(ABIFloatKind::F16)),
                                            lanes: if fl { 4 } else { 2 },
                                        })),
                                    }
                                }
                            } else if kind == ABIFloatKind::F16 || kind2 == ABIFloatKind::F16 {
                                Some(Some(ABITypeView::Vector { element_ty: Box::new(ABITypeView::Float(ABIFloatKind::F16)), lanes: 4 }))
                            } else {
                                Some(Some(f64t))
                            },
                            Some(Some(_)) => Some(Some(f64t)),
                        }
                    },
                }
            },
            _ => Some(Some(f64t)),
        },
    }
}

/// Whether bytes `[start, end)` of `t` hold no user data (they lie past the
/// type, or only in padding); `None` where the check fails.
pub open spec fn spec_no_user_data_in(ctx: CIRTypeContextView, t: CIRTypeView, start: u32, end: u32, bound: nat) -> Option<bool>
    decreases bound, 0nat, spec_type_height(t), 0nat,
{
    match spec_layout_in(ctx, t, bound) {
        None => None,
        Some(layout) => if layout.size <= start {
            Some(true)
        } else {
            match spec_const_inner(t) {
                CIRTypeView::Array(e, len) => {
                    proof {
                        lemma_const_inner_height(t);
                    }
                    match spec_layout_in(ctx, *e, bound) {
                        None => None,
                        Some(el) => spec_no_user_data_elems(ctx, *e, el.size, start, end, 0, len as nat, bound),
                    }
                },
                _ => match t {
                    CIRTypeView::Struct(id) => if bound > 0 && id < ctx.defs.len() {
                        match ctx.defs[id as int] {
                            CIRTypeDefView::Struct(r) => spec_no_user_data_fields(ctx, r.fields, false, start, end, 0, 0, (bound - 1) as nat),
                            _ => None,
                        }
                    } else {
                        None
                    },
                    CIRTypeView::Union(id) => if bound > 0 && id < ctx.defs.len() {
                        match ctx.defs[id as int] {
                            CIRTypeDefView::Union(r) => spec_no_user_data_fields(ctx, r.fields, true, start, end, 0, 0, (bound - 1) as nat),
                            _ => None,
                        }
                    } else {
                        None
                    },
                    _ => Some(false),
                },
            }
        },
    }
}

/// The element check of an array, from element `i` of `len` on: elements
/// starting at or after `end` end the scan.
pub open spec fn spec_no_user_data_elems(
    ctx: CIRTypeContextView,
    e: CIRTypeView,
    el_size: u32,
    start: u32,
    end: u32,
    i: nat,
    len: nat,
    bound: nat,
) -> Option<bool>
    decreases bound, 0nat, spec_type_height(e), len - i + 1,
{
    if i >= len {
        Some(true)
    } else if ((i as usize) as u32) * el_size > u32::MAX {
        None
    } else {
        let off = (((i as usize) as u32) * el_size) as u32;
        if off >= end {
            Some(true)
        } else {
            let es: u32 = if off < start { (start - off) as u32 } else { 0 };
            match spec_no_user_data_in(ctx, e, es, (end - off) as u32, bound) {
                None => None,
                Some(false) => Some(false),
                Some(true) => spec_no_user_data_elems(ctx, e, el_size, start, end, i + 1, len, bound),
            }
        }
    }
}

/// The field check of a struct or union, from field `i` on, the previous
/// field ending at `cur`: struct fields are aligned first; fields starting at
/// or after `end` end the scan.
pub open spec fn spec_no_user_data_fields(
    ctx: CIRTypeContextView,
    fields: Seq<CIRTypeView>,
    is_union: bool,
    start: u32,
    end: u32,
    i: nat,
    cur: u32,
    bound: nat,
) -> Option<bool>
    decreases bound, 1nat, 0nat, fields.len() - i,
{
    if i >= fields.len() {
        Some(true)
    } else {
        match spec_layout_in(ctx, fields[i as int], bound) {
            None => None,
            Some(fl) => {
                let c: Option<u32> = if is_union {
                    Some(cur)
                } else if fl.align == 0 {
                    None
                } else {
                    let padding = (fl.align - cur % fl.align) % (fl.align as int);
                    if cur + padding > u32::MAX {
                        None
                    } else {
                        Some((cur + padding) as u32)
                    }
                };
                match c {
                    None => None,
                    Some(fo) => if fo >= end {
                        Some(true)
                    } else {
                        let fs: u32 = if fo < start { (start - fo) as u32 } else { 0 };
                        match spec_no_user_data_in(ctx, fields[i as int], fs, (end - fo) as u32, bound) {
                            None => None,
                            Some(false) => Some(false),
                            Some(true) => if fo + fl.size > u32::MAX {
                                None
                            } else {
                                spec_no_user_data_fields(ctx, fields, is_union, start, end, i + 1, (fo + fl.size) as u32, bound)
                            },
                        }
                    },
                }
            },
        }
    }
}

/// The integer type used when nothing narrower fits: a whole eightbyte when
/// more than 8 bytes of `src` remain after `src_off`, else exactly the rest.
pub open spec fn spec_int_fallback(ctx: CIRTypeContextView, src: CIRTypeView, src_off: u32) -> Option<ABITypeView> {
    match spec_layout_of(ctx, src) {
        None => None,
        Some(sl) => if sl.size == src_off || sl.size < src_off {
            None
        } else if sl.size - src_off > 8 {
            Some(ABITypeView::Integer(64))
        } else {
            Some(ABITypeView::Integer(((sl.size - src_off) * 8) as u32))
        },
    }
}

/// The integer register type for the eightbyte of `t` at `offset`, where `t`
/// sits at `src_off` of `src`: a pointer-sized value or pointer at its start
/// keeps its own type, as does a smaller integer whose following bytes up to
/// the eightbyte's end hold no user data; members and elements are
/// descended into; an interface object gives pointers; everything else takes
/// the fallback integer.
pub open spec fn spec_int_type_at_in(
    ctx: CIRTypeContextView,
    t: CIRTypeView,
    offset: u32,
    src: CIRTypeView,
    src_off: u32,
    bound: nat,
) -> Option<ABITypeView>
    decreases bound, spec_type_height(t),
{
    let fallback = spec_int_fallback(ctx, src, src_off);
    match t {
        CIRTypeView::Plain(p) => match p {
            PlainType::UIntPtr | PlainType::IntPtr | PlainType::ISize | PlainType::USize | PlainType::Int64
            | PlainType::UInt64 => if offset != 0 {
                spec_to_abi(ctx, t)
            } else {
                fallback
            },
            PlainType::Bool | PlainType::Char | PlainType::UInt8 | PlainType::Int8 | PlainType::UInt16
            | PlainType::Int16 | PlainType::UInt32 | PlainType::Int32 | PlainType::UInt | PlainType::Int => if offset
                != 0 {
                fallback
            } else {
                let size = spec_plain_layout(ctx.target_info, p).size;
                if src_off + size > u32::MAX || src_off + 8 > u32::MAX {
                    None
                } else {
                    match spec_no_user_data_in(ctx, src, (src_off + size) as u32, (src_off + 8) as u32, ctx.defs.len()) {
                        None => None,
                        Some(true) => spec_to_abi(ctx, t),
                        Some(false) => fallback,
                    }
                }
            },
            PlainType::Null | PlainType::Void => None,
            _ => fallback,
        },
        CIRTypeView::Const(i) => spec_int_type_at_in(ctx, *i, offset, src, src_off, bound),
        CIRTypeView::Pointer(_) | CIRTypeView::FuncType(..) => if offset == 0 {
            spec_to_abi(ctx, t)
        } else {
            fallback
        },
        CIRTypeView::Struct(id) => if bound > 0 && id < ctx.defs.len() {
            match ctx.defs[id as int] {
                CIRTypeDefView::Struct(r) => match spec_struct_member_at(ctx, r, offset, (bound - 1) as nat) {
                    None => None,
                    Some(None) => fallback,
                    Some(Some((f, fo))) => spec_int_type_at_in(ctx, f, (offset - fo) as u32, src, src_off, (bound - 1) as nat),
                },
                _ => None,
            }
        } else {
            None
        },
        CIRTypeView::Array(e, _) => match spec_layout_in(ctx, *e, bound) {
            None => None,
            Some(el) => if el.size == 0 {
                None
            } else {
                spec_int_type_at_in(ctx, *e, (offset % el.size) as u32, src, src_off, bound)
            },
        },
        CIRTypeView::Dynamic(_) => if offset < 16 {
            Some(ABITypeView::Pointer)
        } else {
            fallback
        },
        CIRTypeView::Union(_) | CIRTypeView::Enum(_) => fallback,
    }
}

/// The 128-bit integer kinds, under `const` wrappers.
pub open spec fn spec_is_int128(t: CIRTypeView) -> bool {
    spec_const_inner(t) == CIRTypeView::Plain(PlainType::Int128) || spec_const_inner(t) == CIRTypeView::Plain(PlainType::UInt128)
}

/// How an argument goes on the stack when it cannot go in registers: a scalar
/// integer is extended to its register type, another scalar is passed as it
/// is; an aggregate of at most 8 bytes and alignment takes an integer
/// register when none are free, and is otherwise passed by value behind a
/// pointer aligned to at least 8.
pub open spec fn spec_indirect_result(ctx: CIRTypeContextView, t: CIRTypeView, free_int_regs: u32) -> Option<ABIArgInfoView> {
    if !spec_is_abi_aggregate(t) {
        if spec_is_integer_or_bool(t) {
            match spec_to_abi(ctx, t) {
                None => None,
                Some(a) => {
                    let signed = spec_is_signed_integer(t);
                    Some(spec_arg(ABIArgKindView::DirectCoerce { ty: a }, ABIArgAttrs { zero_ext: !signed, sign_ext: signed, by_val: false }))
                },
            }
        } else {
            Some(spec_direct())
        }
    } else {
        match spec_layout_of(ctx, t) {
            None => None,
            Some(layout) => if free_int_regs == 0 && layout.align <= 8 && layout.size <= 8 {
                Some(spec_arg(ABIArgKindView::DirectCoerce { ty: ABITypeView::Integer(64) }, spec_no_attrs()))
            } else {
                match spec_to_abi(ctx, t) {
                    None => None,
                    Some(a) => Some(spec_arg(
                        ABIArgKindView::Indirect { align: if layout.align < 8 { 8 } else { layout.align }, ty: a },
                        ABIArgAttrs { zero_ext: false, sign_ext: false, by_val: true },
                    )),
                }
            },
        }
    }
}

/// The C default argument promotions for a variadic argument: small integers,
/// `char` and `bool` widen to 32 bits, small floats to doubles, an array
/// decays to a pointer to its elements; `None` for `void` and `null`.
pub open spec fn spec_variadic_promote(t: CIRTypeView) -> Option<CIRTypeView>
    decreases t,
{
    match t {
        CIRTypeView::Const(i) => spec_variadic_promote(*i),
        CIRTypeView::Plain(p) => match p {
            PlainType::Int8 | PlainType::Int16 => if spec_plain_is_signed(p) {
                Some(CIRTypeView::Plain(PlainType::Int))
            } else {
                Some(CIRTypeView::Plain(PlainType::UInt32))
            },
            PlainType::UInt8 | PlainType::UInt16 => Some(CIRTypeView::Plain(PlainType::UInt32)),
            PlainType::Float16 | PlainType::Float32 => Some(CIRTypeView::Plain(PlainType::Float64)),
            PlainType::Char | PlainType::Bool => Some(CIRTypeView::Plain(PlainType::Int)),
            PlainType::Void | PlainType::Null => None,
            _ => Some(t),
        },
        CIRTypeView::Array(e, _) => Some(CIRTypeView::Pointer(e)),
        _ => Some(t),
    }
}

/// Variadic promotion is idempotent, and what it gives is never `const`,
/// never an array, and never one of the narrow kinds it promotes (8- and
/// 16-bit integers, booleans, characters, 16- and 32-bit floats).
pub proof fn lemma_variadic_promote_idempotent(t: CIRTypeView)
    requires
        spec_variadic_promote(t) is Some,
    ensures
        ({
            let q = spec_variadic_promote(t).unwrap();
            &&& spec_variadic_promote(q) == Some(q)
            &&& !(q is Const)
            &&& !(q is Array)
            &&& !(q matches CIRTypeView::Plain(p) && (p == PlainType::Int8 || p == PlainType::Int16 || p == PlainType::UInt8
                || p == PlainType::UInt16 || p == PlainType::Bool || p == PlainType::Char || p == PlainType::Float16
                || p == PlainType::Float32))
        }),
    decreases t,
{
    if let CIRTypeView::Const(i) = t {
        lemma_variadic_promote_idempotent(*i);
    }
}

/// The register type of the low eightbyte for an argument whose low class is
/// `Integer`: the type itself for a scalar integer, the tag for a scalar
/// enum, nothing for another enum, else the integer type at offset 0.
pub open spec fn spec_arg_int_lo(ctx: CIRTypeContextView, t: CIRTypeView) -> Option<Option<ABITypeView>> {
    if spec_is_integer_or_bool(t) {
        match spec_to_abi(ctx, t) {
            None => None,
            Some(a) => Some(Some(a)),
        }
    } else {
        match t {
            CIRTypeView::Enum(id) => if id < ctx.defs.len() {
                match ctx.defs[id as int] {
                    CIRTypeDefView::Enum(e) => if spec_is_scalar_optimizable(e) {
                        match spec_to_abi(ctx, spec_tag_type(e)) {
                            None => None,
                            Some(a) => Some(Some(a)),
                        }
                    } else {
                        Some(None)
                    },
                    _ => None,
                }
            } else {
                None
            },
            _ => match spec_int_type_at_in(ctx, t, 0, t, 0, ctx.defs.len()) {
                None => None,
                Some(a) => Some(Some(a)),
            },
        }
    }
}

/// The register type of the high eightbyte and the registers it takes.
pub open spec fn spec_hi_part(ctx: CIRTypeContextView, t: CIRTypeView, hi: RegisterClass, for_return: bool) -> Option<(Option<ABITypeView>, Registers)> {
    match hi {
        RegisterClass::NoClass => Some((None, Registers { int_regs: 0, sse_regs: 0 })),
        RegisterClass::Integer => match spec_int_type_at_in(ctx, t, 8, t, 8, ctx.defs.len()) {
            None => None,
            Some(a) => Some((Some(a), Registers { int_regs: 1, sse_regs: 0 })),
        },
        RegisterClass::SSE => match spec_sse_type_at(ctx, t, 8, t, 8, ctx.defs.len()) {
            None => None,
            Some(None) => if for_return {
                None
            } else {
                Some((Some(ABITypeView::Float(ABIFloatKind::F64)), Registers { int_regs: 0, sse_regs: 1 }))
            },
            Some(Some(a)) => Some((Some(a), Registers { int_regs: 0, sse_regs: 1 })),
        },
        RegisterClass::Memory => if for_return {
            Some((None, Registers { int_regs: 0, sse_regs: 0 }))
        } else {
            None
        },
        RegisterClass::SSEUP => None,
    }
}

/// How an argument of type `t` is passed and the registers it needs, the
/// argument being promoted first when it is variadic; `None` on the inputs
/// where the classification cannot be completed (an `f128` high half, an
/// inconsistent class pair, a failed lookup or an overflow).
pub open spec fn spec_classify_argument(ctx: CIRTypeContextView, info: ABITargetInfo, t0: CIRTypeView, free_int_regs: u32, is_named: bool) -> Option<
    (ABIArgInfoView, Registers),
> {
    let ot = if is_named { Some(t0) } else { spec_variadic_promote(t0) };
    match ot {
        None => None,
        Some(t) => match spec_classify(ctx, t) {
            None => None,
            Some((lo, hi)) => if (hi == RegisterClass::Memory && lo != RegisterClass::Memory) || (hi
                == RegisterClass::SSEUP && lo != RegisterClass::SSE) {
                None
            } else if lo == RegisterClass::NoClass {
                if hi == RegisterClass::NoClass {
                    Some((spec_arg(ABIArgKindView::Ignore, spec_no_attrs()), Registers { int_regs: 0, sse_regs: 0 }))
                } else {
                    None
                }
            } else if lo == RegisterClass::Memory {
                match spec_indirect_result(ctx, t, free_int_regs) {
                    None => None,
                    Some(a) => Some((a, Registers { int_regs: 0, sse_regs: 0 })),
                }
            } else if lo == RegisterClass::SSEUP {
                None
            } else {
                let lo_part: Option<Option<ABITypeView>> = if lo == RegisterClass::Integer {
                    spec_arg_int_lo(ctx, t)
                } else {
                    match spec_sse_type_at(ctx, t, 0, t, 0, ctx.defs.len()) {
                        None => None,
                        Some(None) => None,
                        Some(Some(a)) => Some(Some(a)),
                    }
                };
                let lo_regs = if lo == RegisterClass::Integer {
                    Registers { int_regs: 1, sse_regs: 0 }
                } else {
                    Registers { int_regs: 0, sse_regs: 1 }
                };
                match lo_part {
                    None => None,
                    Some(result) => if lo == RegisterClass::Integer && hi == RegisterClass::NoClass
                        && spec_is_integer_or_bool(t) {
                        let signed = spec_is_signed_integer(t);
                        let attrs = ABIArgAttrs { zero_ext: !signed, sign_ext: signed, by_val: false };
                        let regs = if spec_is_int128(t) { Registers { int_regs: 2, sse_regs: 0 } } else { lo_regs };
                        Some((spec_arg(ABIArgKindView::DirectCoerce { ty: result.unwrap() }, attrs), regs))
                    } else {
                        match spec_hi_part(ctx, t, hi, false) {
                            None => None,
                            Some((high, hregs)) => {
                                let regs = Registers {
                                    int_regs: (lo_regs.int_regs + hregs.int_regs) as u32,
                                    sse_regs: (lo_regs.sse_regs + hregs.sse_regs) as u32,
                                };
                                match (result, high) {
                                    (Some(l), Some(h)) => Some(
                                        (spec_arg(ABIArgKindView::DirectPair { lo: l, hi: h }, spec_no_attrs()), regs),
                                    ),
                                    (Some(l), None) => match spec_to_abi(ctx, t) {
                                        None => None,
                                        Some(a) => if l == a || (spec_is_integer_or_bool(t) && spec_as_integer_bits(l, info)
                                            == spec_as_integer_bits(a, info)) {
                                            Some((spec_direct(), regs))
                                        } else {
                                            Some((spec_arg(ABIArgKindView::DirectCoerce { ty: l }, spec_no_attrs()), regs))
                                        },
                                    },
                                    (None, _) => Some((spec_direct(), regs)),
                                }
                            },
                        }
                    },
                }
            },
        },
    }
}

pub open spec fn spec_ret(abi_type: ABITypeView, kind: ABIRetInfoKindView, t: CIRTypeView) -> ABIRetInfoView {
    ABIRetInfoView { abi_type, kind, cir_ret_type: t }
}

/// How a value of type `t` is returned: nothing for an empty type, through a
/// hidden pointer for a memory-class type, a register pair when both
/// eightbytes are used, else directly, coerced to the register type when it
/// differs from the type's own ABI type; `None` on the inputs where the
/// classification cannot be completed.
pub open spec fn spec_classify_return(ctx: CIRTypeContextView, t: CIRTypeView) -> Option<ABIRetInfoView> {
    match spec_classify(ctx, t) {
        None => None,
        Some((lo, hi)) => if (hi == RegisterClass::Memory && lo != RegisterClass::Memory) || (hi == RegisterClass::SSEUP
            && lo != RegisterClass::SSE) {
            None
        } else if lo == RegisterClass::NoClass {
            if hi == RegisterClass::NoClass {
                match spec_to_abi(ctx, t) {
                    None => None,
                    Some(own) => Some(spec_ret(own, ABIRetInfoKindView::Ignore, t)),
                }
            } else {
                None
            }
        } else if lo == RegisterClass::Memory {
            match spec_to_abi(ctx, t) {
                None => None,
                Some(own) => Some(spec_ret(own, ABIRetInfoKindView::Indirect { sret: true }, t)),
            }
        } else if lo == RegisterClass::SSEUP {
            None
        } else {
            let result: Option<ABITypeView> = if lo == RegisterClass::Integer {
                spec_int_type_at_in(ctx, t, 0, t, 0, ctx.defs.len())
            } else {
                match spec_sse_type_at(ctx, t, 0, t, 0, ctx.defs.len()) {
                    None => None,
                    Some(x) => x,
                }
            };
            match result {
                None => None,
                Some(r) => if lo == RegisterClass::Integer && hi == RegisterClass::NoClass && spec_is_integer_or_bool(t) {
                    Some(spec_ret(r, ABIRetInfoKindView::Direct { coerce_to: Some(r) }, t))
                } else {
                    match spec_hi_part(ctx, t, hi, true) {
                        None => None,
                        Some((Some(h), _)) => Some(spec_ret(
                            ABITypeView::Struct(seq![r, h], false),
                            ABIRetInfoKindView::DirectPair { lo: r, hi: h },
                            t,
                        )),
                        Some((None, _)) => match spec_to_abi(ctx, t) {
                            None => None,
                            Some(own) => if r == own {
                                Some(spec_ret(r, ABIRetInfoKindView::Direct { coerce_to: None }, t))
                            } else {
                                Some(spec_ret(r, ABIRetInfoKindView::Direct { coerce_to: Some(r) }, t))
                            },
                        },
                    }
                },
            }
        },
    }
}


/// How one parameter is passed given the free registers: as `t` is
/// classified when its registers are free, which then become taken, and
/// otherwise as on the stack with the registers left as they were.
pub open spec fn spec_classify_parameter(ctx: CIRTypeContextView, info: ABITargetInfo, t: CIRTypeView, regs: Registers, is_named: bool) -> Option<
    (ABIArgInfoView, Registers),
> {
    match spec_classify_argument(ctx, info, t, regs.int_regs, is_named) {
        None => None,
        Some((a, need)) => if regs.sse_regs >= need.sse_regs && regs.int_regs >= need.int_regs {
            Some((a, Registers { int_regs: (regs.int_regs - need.int_regs) as u32, sse_regs: (regs.sse_regs - need.sse_regs) as u32 }))
        } else {
            match spec_indirect_result(ctx, t, regs.int_regs) {
                None => None,
                Some(b) => Some((b, regs)),
            }
        },
    }
}

/// The lowered parameter types one argument expands to.
pub open spec fn spec_param_types(ctx: CIRTypeContextView, a: ABIArgInfoView, t: CIRTypeView) -> Option<Seq<ABITypeView>> {
    match a.kind {
        ABIArgKindView::Direct { coerce_to } => match coerce_to {
            Some(x) => Some(seq![x]),
            None => match spec_to_abi(ctx, t) {
                Some(x) => Some(seq![x]),
                None => None,
            },
        },
        ABIArgKindView::DirectCoerce { ty } => Some(seq![ty]),
        ABIArgKindView::DirectPair { lo, hi } => Some(seq![lo, hi]),
        ABIArgKindView::Indirect { ty, .. } => Some(seq![ty]),
        ABIArgKindView::Ignore => Some(Seq::empty()),
    }
}

/// Lowers the parameters from position `i` on with the registers left in
/// `regs`, each argument recording the range of lowered types it expands to.
pub open spec fn spec_sysv_params(
    ctx: CIRTypeContextView,
    info: ABITargetInfo,
    params: Seq<CIRTypeView>,
    i: nat,
    regs: Registers,
    infos: Seq<ABIArgInfoView>,
    types: Seq<ABITypeView>,
) -> Option<(Seq<ABIArgInfoView>, Seq<ABITypeView>)>
    decreases params.len() - i,
{
    if i >= params.len() {
        Some((infos, types))
    } else {
        match spec_classify_parameter(ctx, info, params[i as int], regs, true) {
            None => None,
            Some((a, regs2)) => match spec_param_types(ctx, a, params[i as int]) {
                None => None,
                Some(ts) => {
                    let types2 = types + ts;
                    let a2 = ABIArgInfoView { param_index_start: types.len() as u16, param_index_end: types2.len() as u16, ..a };
                    spec_sysv_params(ctx, info, params, i + 1, regs2, infos.push(a2), types2)
                },
            },
        }
    }
}

/// The arguments' ranges cover the lowered parameters `[0, total)` in order:
/// each starts where the one before ends, and none ends before it starts.
pub open spec fn spec_param_ranges_tile(infos: Seq<ABIArgInfoView>, total: int) -> bool {
    &&& forall|k: int| 0 <= k < infos.len() ==> (#[trigger] infos[k]).param_index_start <= infos[k].param_index_end
    &&& forall|k: int| 0 <= k < infos.len() ==> (#[trigger] infos[k]).param_index_start == if k == 0 {
        0
    } else {
        infos[k - 1].param_index_end as int
    }
    &&& total == if infos.len() == 0 {
        0
    } else {
        infos[infos.len() - 1].param_index_end as int
    }
}

proof fn lemma_sysv_params_grow(
    ctx: CIRTypeContextView,
    info: ABITargetInfo,
    params: Seq<CIRTypeView>,
    i: nat,
    regs: Registers,
    infos: Seq<ABIArgInfoView>,
    types: Seq<ABITypeView>,
)
    requires
        spec_sysv_params(ctx, info, params, i, regs, infos, types) is Some,
    ensures
        spec_sysv_params(ctx, info, params, i, regs, infos, types).unwrap().1.len() >= types.len(),
        spec_sysv_params(ctx, info, params, i, regs, infos, types).unwrap().0.len() == infos.len() + if i >= params.len() {
            0
        } else {
            params.len() - i
        },
    decreases params.len() - i,
{
    if i < params.len() {
        let (a, regs2) = spec_classify_parameter(ctx, info, params[i as int], regs, true).unwrap();
        let ts = spec_param_types(ctx, a, params[i as int]).unwrap();
        let types2 = types + ts;
        let a2 = ABIArgInfoView { param_index_start: types.len() as u16, param_index_end: types2.len() as u16, ..a };
        lemma_sysv_params_grow(ctx, info, params, i + 1, regs2, infos.push(a2), types2);
    }
}

proof fn lemma_sysv_params_tile(
    ctx: CIRTypeContextView,
    info: ABITargetInfo,
    params: Seq<CIRTypeView>,
    i: nat,
    regs: Registers,
    infos: Seq<ABIArgInfoView>,
    types: Seq<ABITypeView>,
)
    requires
        spec_sysv_params(ctx, info, params, i, regs, infos, types) is Some,
        spec_sysv_params(ctx, info, params, i, regs, infos, types).unwrap().1.len() < 0x10000,
        spec_param_ranges_tile(infos, types.len() as int),
    ensures
        spec_param_ranges_tile(
            spec_sysv_params(ctx, info, params, i, regs, infos, types).unwrap().0,
            spec_sysv_params(ctx, info, params, i, regs, infos, types).unwrap().1.len() as int,
        ),
    decreases params.len() - i,
{
    if i < params.len() {
        let (a, regs2) = spec_classify_parameter(ctx, info, params[i as int], regs, true).unwrap();
        let ts = spec_param_types(ctx, a, params[i as int]).unwrap();
        let types2 = types + ts;
        let a2 = ABIArgInfoView { param_index_start: types.len() as u16, param_index_end: types2.len() as u16, ..a };
        lemma_sysv_params_grow(ctx, info, params, i + 1, regs2, infos.push(a2), types2);
        assert(types2.len() < 0x10000);
        let infos2 = infos.push(a2);
        assert(infos2.drop_last() == infos);
        assert forall|k: int| 0 <= k < infos2.len() implies (#[trigger] infos2[k]).param_index_start <= infos2[k].param_index_end by {
            if k < infos.len() {
                assert(infos2[k] == infos[k]);
            }
        }
        assert forall|k: int| 0 <= k < infos2.len() implies (#[trigger] infos2[k]).param_index_start == if k == 0 {
            0
        } else {
            infos2[k - 1].param_index_end as int
        } by {
            if k < infos.len() {
                assert(infos2[k] == infos[k]);
            }
            if 0 < k {
                assert(infos2[k - 1] == if k - 1 < infos.len() { infos[k - 1] } else { a2 });
            }
        }
        lemma_sysv_params_tile(ctx, info, params, i + 1, regs2, infos2, types2);
    }
}

/// The System V lowering of a signature lowers the return value as
/// `spec_classify_return` does and gives one argument lowering per
/// parameter, whose ranges cover the lowered parameter list in order, without
/// gap or overlap (the ranges are 16-bit, so the lowered list is taken
/// shorter than 65536).
pub proof fn lemma_sysv_param_ranges_tile(ctx: CIRTypeContextView, info: ABITargetInfo, params: Seq<CIRTypeView>, ret: CIRTypeView)
    requires
        spec_classify_func_sysv(ctx, info, params, ret) is Some,
        spec_classify_func_sysv(ctx, info, params, ret).unwrap().params_types.len() < 0x10000,
    ensures
        ({
            let f = spec_classify_func_sysv(ctx, info, params, ret).unwrap();
            &&& Some(f.ret_info) == spec_classify_return(ctx, ret)
            &&& f.params_infos.len() == params.len()
            &&& spec_param_ranges_tile(f.params_infos, f.params_types.len() as int)
        }),
{
    let ri = spec_classify_return(ctx, ret).unwrap();
    let regs = if ri.kind is Indirect {
        Registers { int_regs: 5, sse_regs: 8 }
    } else {
        Registers { int_regs: 6, sse_regs: 8 }
    };
    lemma_sysv_params_grow(ctx, info, params, 0, regs, Seq::empty(), Seq::empty());
    lemma_sysv_params_tile(ctx, info, params, 0, regs, Seq::empty(), Seq::empty());
}

/// The System V lowering of a signature: the return value first (a hidden
/// return pointer takes one of the six integer registers), then each
/// parameter with the eight SSE and the remaining integer registers.
pub open spec fn spec_classify_func_sysv(ctx: CIRTypeContextView, info: ABITargetInfo, params: Seq<CIRTypeView>, ret: CIRTypeView) -> Option<
    ABIFunctionInfoView,
> {
    match spec_classify_return(ctx, ret) {
        None => None,
        Some(ri) => {
            let regs = if ri.kind is Indirect {
                Registers { int_regs: 5, sse_regs: 8 }
            } else {
                Registers { int_regs: 6, sse_regs: 8 }
            };
            match spec_sysv_params(ctx, info, params, 0, regs, Seq::empty(), Seq::empty()) {
                None => None,
                Some((infos, types)) => Some(ABIFunctionInfoView { params_infos: infos, params_types: types, ret_info: ri }),
            }
        },
    }
}

/// The registers of a System V call: a return value passed in memory takes
/// its hidden pointer from the six integer registers, so the parameters are
/// lowered, in order, from exactly 5 integer and 8 SSE registers; any other
/// return leaves them all 6 integer and 8 SSE registers.
pub proof fn lemma_sysv_sret_takes_an_integer_register(
    ctx: CIRTypeContextView,
    info: ABITargetInfo,
    params: Seq<CIRTypeView>,
    ret: CIRTypeView,
)
    requires
        spec_classify_func_sysv(ctx, info, params, ret) is Some,
    ensures
        ({
            let f = spec_classify_func_sysv(ctx, info, params, ret).unwrap();
            let free = if f.ret_info.kind is Indirect {
                Registers { int_regs: 5, sse_regs: 8 }
            } else {
                Registers { int_regs: 6, sse_regs: 8 }
            };
            &&& Some(f.ret_info) == spec_classify_return(ctx, ret)
            &&& spec_sysv_params(ctx, info, params, 0, free, Seq::empty(), Seq::empty()) == Some((f.params_infos, f.params_types))
        }),
{
}

/// The lowering of a naked function: every parameter passed directly as its
/// own ABI type, the return value directly unless it is `void`.
pub open spec fn spec_classify_func_naked(ctx: CIRTypeContextView, params: Seq<CIRTypeView>, ret: CIRTypeView) -> Option<ABIFunctionInfoView> {
    match (spec_fields_to_abi_in(ctx, params, ctx.defs.len()), spec_to_abi(ctx, ret)) {
        (Some(types), Some(rt)) => Some(ABIFunctionInfoView {
            params_infos: Seq::new(params.len(), |i: int| spec_direct()),
            params_types: types,
            ret_info: spec_ret(
                rt,
                if spec_is_void(ret) { ABIRetInfoKindView::Ignore } else { ABIRetInfoKindView::Direct { coerce_to: None } },
                ret,
            ),
        }),
        _ => None,
    }
}

/// What a calling convention is lowered as on an operating system:
/// `Ok(false)` for the System V rules, `Ok(true)` for a naked function, or
/// the error reported for it; `None` for the conventions not implemented
/// there (the Windows ones, and the platform default with no known system).
pub open spec fn spec_callconv_plan(os: ABITargetOS, cc: CallConv) -> Option<Result<bool, Seq<char>>> {
    let unix = os == ABITargetOS::Linux || os == ABITargetOS::MacOS;
    match cc {
        CallConv::SysV64 => Some(Ok(false)),
        CallConv::System | CallConv::C | CallConv::Fast | CallConv::Cold => if unix {
            Some(Ok(false))
        } else {
            None
        },
        CallConv::Win64 => None,
        CallConv::Naked => Some(Ok(true)),
        CallConv::Interrupt => Some(Err("Interrupt calling convention not supported yet."@)),
        CallConv::Aapcs => Some(Err("AAPCS is ARM-only and not supported on x86-64."@)),
        CallConv::Stdcall => Some(Err("Stdcall is a 32-bit x86 convention, not supported on x86-64."@)),
        CallConv::Fastcall => Some(Err("Fastcall is a 32-bit x86 convention, not supported on x86-64."@)),
        CallConv::Thiscall => Some(Err("Thiscall is a 32-bit x86 convention, not supported on x86-64."@)),
        CallConv::Vectorcall => if os == ABITargetOS::Windows {
            None
        } else {
            Some(Ok(false))
        },
    }
}

/// The lowering of a function type: by its calling convention, the System V
/// or naked lowering, or the convention's error message.
pub open spec fn spec_classify_func(ctx: CIRTypeContextView, info: ABITargetInfo, params: Seq<CIRTypeView>, ret: CIRTypeView, cc: CallConv) -> Option<
    Result<ABIFunctionInfoView, Seq<char>>,
> {
    match spec_callconv_plan(info.os, cc) {
        None => None,
        Some(Err(msg)) => Some(Err(msg)),
        Some(Ok(naked)) => {
            let r = if naked {
                spec_classify_func_naked(ctx, params, ret)
            } else {
                spec_classify_func_sysv(ctx, info, params, ret)
            };
            match r {
                None => None,
                Some(f) => Some(Ok(f)),
            }
        },
    }
}

} // verus!
