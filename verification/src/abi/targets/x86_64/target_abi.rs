//! The System V x86-64 lowering of function signatures.
use crate::abi::layout::ABITypeLayoutView;
use crate::abi::target::ABITargetInfo;
use crate::abi::targets::x86_64::lowering_spec::{
    lemma_const_inner_height, spec_struct_member_at, spec_struct_member_from, spec_union_member_at,
    spec_union_member_from,
};
use crate::abi::args::{
    spec_direct, ABIArgAttrs, ABIArgInfo, ABIArgInfoView, ABIArgKind, ABIFunctionInfo, ABIRetInfo, ABIRetInfoKind, Registers,
};
use crate::abi::callconv::CallConv;
use crate::abi::helpers::{cir_type_to_abi_type, fields_to_abi_in, is_cir_type_abi_aggregate};
use crate::abi::target::RegisterClass;
use crate::abi::targets::x86_64::classify::{classify, try_use_registers};
use crate::abi::types::{abi_type_eq, clone_abi_type, lemma_abi_views_index, spec_abi_views};
use crate::abi::targets::x86_64::lowering_spec::{
    spec_fp_type_at_in, spec_int_type_at_in, spec_no_user_data_elems, spec_no_user_data_fields, spec_no_user_data_in,
    spec_sse_type_at, spec_indirect_result, spec_variadic_promote, spec_classify_argument, spec_is_int128,
    spec_classify_return, spec_classify_parameter, spec_param_types, spec_classify_func_naked,
    spec_classify_func_sysv, spec_sysv_params, spec_classify_func,
};
use crate::abi::types::{spec_float_size, ABIFloatKind, ABIType, ABITypeView};
use crate::cir::layout_spec::{spec_layout_in, spec_layouts_in, spec_type_height, CIRTypeContextView};
use crate::cir::typectx::CIRTypeDef;
use crate::cir::typectx::{lemma_layouts_in_index, CIRTypeContext};
use crate::cir::types::{
    lemma_cir_views_index, spec_cir_views, CIRFuncType, CIRStructType, CIRType, CIRTypeView, CIRUnionType, PlainType,
};
use vstd::prelude::*;
use vstd::string::StringExecFns;

verus! {

broadcast use vstd::std_specs::vec::group_vec_axioms;

/// The least stack alignment the System V x86-64 ABI keeps.
pub const MIN_ABI_STACK_ALIGN: u32 = 16;

/// The System V x86-64 ABI over a type context.
pub struct X86_64 {
    info: ABITargetInfo,
}

/// A found member, as a view.
pub open spec fn spec_member_view(r: Option<(CIRType, u32)>) -> Option<(CIRTypeView, u32)> {
    match r {
        Some((f, o)) => Some((f@, o)),
        None => None,
    }
}

/// Whether a type is, under its `const` wrappers, a 128-bit integer.
fn is_int128(ty: &CIRType) -> (r: bool)
    ensures
        r == spec_is_int128(ty@),
{
    match ty.const_inner() {
        CIRType::Plain(PlainType::Int128) | CIRType::Plain(PlainType::UInt128) => true,
        _ => false,
    }
}

/// A found ABI type, as a view.
pub open spec fn spec_abi_opt(r: Option<ABIType>) -> Option<ABITypeView> {
    match r {
        Some(t) => Some(t@),
        None => None,
    }
}

/// `(x / d) * d` is the largest multiple of `d` not above `x`, `x % d` below it.
proof fn lemma_div_mul_le(x: u32, d: u32)
    requires
        d > 0,
    ensures
        (x / d) * d <= x,
        x - (x / d) * d == x % d,
{
    assert((x / d) * d <= x && x - (x / d) * d == x % d) by (nonlinear_arith)
        requires
            d > 0,
    {
        vstd::arithmetic::div_mod::lemma_fundamental_div_mod(x as int, d as int);
    }
}

impl X86_64 {
    /// The target this ABI lowers for.
    pub closed spec fn spec_info(&self) -> ABITargetInfo {
        self.info
    }

    pub fn new(info: ABITargetInfo) -> (r: Self)
        ensures
            r.spec_info() == info,
    {
        Self { info }
    }

    fn get_struct_member_at_offset(
        &self,
        tctx: &CIRTypeContext, struct_type: &CIRStructType, offset: u32, Ghost(bound): Ghost<nat>) -> (r:
        Option<(CIRType, u32)>)
        requires
            bound <= tctx@.defs.len(),
            spec_struct_member_at(tctx@, struct_type@, offset, bound) is Some,
        ensures
            Some(spec_member_view(r)) == spec_struct_member_at(tctx@, struct_type@, offset, bound),
            r matches Some((_, o)) ==> o <= offset,
    {
        let fields = &struct_type.fields;
        let layout = tctx.struct_layout_in(fields, struct_type.is_packed(), struct_type.align, Ghost(bound));
        if layout.size < offset {
            return None;
        }
        let ghost fv = spec_cir_views(fields@);
        let ghost fls = spec_layouts_in(tctx@, fv, bound).unwrap();
        let ghost target = spec_struct_member_from(fv, fls, offset, 0, 0);
        proof {
            lemma_layouts_in_index(tctx@, fv, bound);
            lemma_cir_views_index(fields@);
        }
        let mut current_offset: u32 = 0;
        let mut i: usize = 0;
        while i < fields.len()
            invariant
                i <= fields.len(),
                fv == spec_cir_views(fields@),
                fv.len() == fields.len(),
                fls.len() == fields.len(),
                bound <= tctx@.defs.len(),
                forall|j: int| 0 <= j < fields.len() ==> #[trigger] fv[j] == fields@[j]@,
                forall|j: int| 0 <= j < fv.len() ==> crate::cir::layout_spec::spec_layout_in(tctx@, #[trigger] fv[j], bound) == Some(fls[j]),
                target is Some,
                spec_struct_member_from(fv, fls, offset, i as nat, current_offset) == target,
                spec_struct_member_at(tctx@, struct_type@, offset, bound) == target,
            decreases fields.len() - i,
        {
            proof { assert(fv[i as int] == fields@[i as int]@); }
            let field_layout = tctx.layout_in(&fields[i], Ghost(bound));
            let align = field_layout.align;
            let padding = (align - (current_offset % align)) % align;
            current_offset = current_offset + padding;
            if current_offset > offset {
                return None;
            }
            if current_offset <= offset && offset < current_offset + field_layout.size {
                let field_type = fields[i].clone();
                assert(field_type@ == fv[i as int]);
                return Some((field_type, current_offset));
            }
            current_offset = current_offset + field_layout.size;
            i = i + 1;
        }
        None
    }

    fn get_union_member_at_offset(
        &self,
        tctx: &CIRTypeContext, union_type: &CIRUnionType, offset: u32, Ghost(bound): Ghost<nat>) -> (r:
        Option<(CIRType, u32)>)
        requires
            bound <= tctx@.defs.len(),
            spec_union_member_at(tctx@, union_type@, offset, bound) is Some,
        ensures
            Some(spec_member_view(r)) == spec_union_member_at(tctx@, union_type@, offset, bound),
            r matches Some((_, o)) ==> o <= offset,
    {
        let fields = &union_type.fields;
        let layout = tctx.union_layout_in(fields, Ghost(bound));
        if layout.size < offset {
            return None;
        }
        let ghost fv = spec_cir_views(fields@);
        let ghost fls = spec_layouts_in(tctx@, fv, bound).unwrap();
        proof {
            lemma_layouts_in_index(tctx@, fv, bound);
            lemma_cir_views_index(fields@);
        }
        let mut i: usize = 0;
        while i < fields.len()
            invariant
                i <= fields.len(),
                fv == spec_cir_views(fields@),
                fv.len() == fields.len(),
                fls.len() == fields.len(),
                bound <= tctx@.defs.len(),
                forall|j: int| 0 <= j < fields.len() ==> #[trigger] fv[j] == fields@[j]@,
                forall|j: int| 0 <= j < fv.len() ==> spec_layout_in(tctx@, #[trigger] fv[j], bound) == Some(fls[j]),
                spec_union_member_at(tctx@, union_type@, offset, bound) == Some(spec_union_member_from(fv, fls, offset, i as nat)),
            decreases fields.len() - i,
        {
            proof { assert(fv[i as int] == fields@[i as int]@); }
            let field_layout = tctx.layout_in(&fields[i], Ghost(bound));
            if offset < field_layout.size {
                let field_type = fields[i].clone();
                assert(field_type@ == fv[i as int]);
                return Some((field_type, 0));
            }
            i = i + 1;
        }
        None
    }

    fn get_fp_type_at_offset(
        &self,
        tctx: &CIRTypeContext, ty: &CIRType, offset: u32, Ghost(bound): Ghost<nat>) -> (r: Option<ABIType>)
        requires
            bound <= tctx@.defs.len(),
            spec_fp_type_at_in(tctx@, ty@, offset, bound) is Some,
        ensures
            Some(spec_abi_opt(r)) == spec_fp_type_at_in(tctx@, ty@, offset, bound),
        decreases bound, spec_type_height(ty@),
    {
        if offset == 0 && ty.is_float() {
            return Some(cir_type_to_abi_type(tctx, ty));
        }
        if let CIRType::Struct(id) = ty {
            match tctx.def_at(id.0) {
                CIRTypeDef::Struct(struct_type) => {
                    if let Some((field_type, field_offset)) = self.get_struct_member_at_offset(tctx, 
                        struct_type,
                        offset,
                        Ghost((bound - 1) as nat),
                    ) {
                        return self.get_fp_type_at_offset(tctx, &field_type, offset - field_offset, Ghost((bound - 1) as nat));
                    }
                    return None;
                },
                _ => {
                    proof { assert(false); }
                    return None;
                },
            }
        }
        if let CIRType::Union(id) = ty {
            match tctx.def_at(id.0) {
                CIRTypeDef::Union(union_type) => {
                    if let Some((field_type, field_offset)) = self.get_union_member_at_offset(tctx, 
                        union_type,
                        offset,
                        Ghost((bound - 1) as nat),
                    ) {
                        return self.get_fp_type_at_offset(tctx, &field_type, offset - field_offset, Ghost((bound - 1) as nat));
                    }
                    return None;
                },
                _ => {
                    proof { assert(false); }
                    return None;
                },
            }
        }
        if let Some(array_type) = ty.as_array() {
            proof { lemma_const_inner_height(ty@); }
            let element_layout = tctx.layout_in(&array_type.element_type, Ghost(bound));
            let size = element_layout.size;
            proof { lemma_div_mul_le(offset, size); }
            let element_start = (offset / size) * size;
            let element_offset = offset - element_start;
            return self.get_fp_type_at_offset(tctx, &array_type.element_type, element_offset, Ghost(bound));
        }
        None
    }

    fn float_size(&self, float_kind: &ABIFloatKind) -> (r: u32)
        ensures
            r == spec_float_size(*float_kind),
    {
        match float_kind {
            ABIFloatKind::F16 => 2,
            ABIFloatKind::F32 => 4,
            ABIFloatKind::F64 => 8,
            ABIFloatKind::F128 => 16,
        }
    }

    fn get_sse_type_at_offset(
        &self,
        tctx: &CIRTypeContext,
        ty: &CIRType,
        offset: u32,
        source_type: &CIRType,
        source_offset: u32,
        Ghost(bound): Ghost<nat>,
    ) -> (r: Option<ABIType>)
        requires
            bound <= tctx@.defs.len(),
            spec_sse_type_at(tctx@, ty@, offset, source_type@, source_offset, bound) is Some,
        ensures
            Some(spec_abi_opt(r)) == spec_sse_type_at(tctx@, ty@, offset, source_type@, source_offset, bound),
    {
        let abi_float_type = match self.get_fp_type_at_offset(tctx, ty, offset, Ghost(bound)) {
            Some(t) => t,
            None => return None,
        };
        let float_kind = match abi_float_type {
            ABIType::Float(kind) => kind,
            _ => return Some(ABIType::Float(ABIFloatKind::F64)),
        };
        if float_kind == ABIFloatKind::F64 {
            return Some(ABIType::Float(ABIFloatKind::F64));
        }
        let source_layout = tctx.layout_of(source_type);
        let source_size = source_layout.size - source_offset;
        let float_size = self.float_size(&float_kind);
        let mut float_type2 = if source_size > float_size {
            self.get_fp_type_at_offset(tctx, ty, offset + float_size, Ghost(bound))
        } else {
            None
        };
        if float_type2.is_none() {
            if float_kind == ABIFloatKind::F16 && source_size > 4 {
                float_type2 = self.get_fp_type_at_offset(tctx, ty, offset + 4, Ghost(bound));
            }
            if float_type2.is_none() {
                return Some(ABIType::Float(float_kind));
            }
        }
        let float_kind2 = match float_type2 {
            Some(ABIType::Float(kind)) => kind,
            _ => return Some(ABIType::Float(ABIFloatKind::F64)),
        };
        if float_kind == ABIFloatKind::F32 && float_kind2 == ABIFloatKind::F32 {
            return Some(ABIType::Vector { element_ty: Box::new(ABIType::Float(ABIFloatKind::F32)), lanes: 2 });
        }
        if float_kind == ABIFloatKind::F16 && float_kind2 == ABIFloatKind::F16 {
            let has_following_float = source_size > 4 && self.get_fp_type_at_offset(tctx, ty, offset + 4, Ghost(bound)).is_some();
            return Some(
                ABIType::Vector {
                    element_ty: Box::new(ABIType::Float(ABIFloatKind::F16)),
                    lanes: if has_following_float { 4 } else { 2 },
                },
            );
        }
        if float_kind == ABIFloatKind::F16 || float_kind2 == ABIFloatKind::F16 {
            return Some(ABIType::Vector { element_ty: Box::new(ABIType::Float(ABIFloatKind::F16)), lanes: 4 });
        }
        Some(ABIType::Float(ABIFloatKind::F64))
    }


    fn bits_contain_no_user_data(
        &self,
        tctx: &CIRTypeContext, ty: &CIRType, start: u32, end: u32, Ghost(bound): Ghost<nat>) -> (r: bool)
        requires
            bound <= tctx@.defs.len(),
            spec_no_user_data_in(tctx@, ty@, start, end, bound) is Some,
        ensures
            Some(r) == spec_no_user_data_in(tctx@, ty@, start, end, bound),
        decreases bound, 0nat, spec_type_height(ty@), 0nat,
    {
        let layout = tctx.layout_in(ty, Ghost(bound));
        if layout.size <= start {
            return true;
        }
        if let Some(array_type) = ty.as_array() {
            proof { lemma_const_inner_height(ty@); }
            let element_ty = &array_type.element_type;
            let element_layout = tctx.layout_in(element_ty, Ghost(bound));
            let element_size = element_layout.size;
            let ghost e = (**element_ty)@;
            let ghost target = spec_no_user_data_elems(tctx@, e, element_size, start, end, 0, array_type.len as nat, bound);
            let mut i: usize = 0;
            while i < array_type.len
                invariant
                    i <= array_type.len,
                    bound <= tctx@.defs.len(),
                    e == (*array_type.element_type)@,
                    spec_type_height(e) < spec_type_height(ty@),
                    target is Some,
                    spec_no_user_data_in(tctx@, ty@, start, end, bound) == target,
                    spec_no_user_data_elems(tctx@, e, element_size, start, end, i as nat, array_type.len as nat, bound)
                        == target,
                decreases array_type.len - i,
            {
                assert(((i as nat) as usize) == i);
                let offset = (i as u32) * element_size;
                if offset >= end {
                    return true;
                }
                let element_start = if offset < start {
                    start - offset
                } else {
                    0
                };
                if !self.bits_contain_no_user_data(tctx, &array_type.element_type, element_start, end - offset, Ghost(bound)) {
                    return false;
                }
                i = i + 1;
            }
            return true;
        }
        match ty {
            CIRType::Struct(id) => match tctx.def_at(id.0) {
                CIRTypeDef::Struct(struct_type) => self.no_user_data_in_fields(tctx, 
                    &struct_type.fields,
                    false,
                    start,
                    end,
                    Ghost((bound - 1) as nat),
                ),
                _ => {
                    proof { assert(false); }
                    false
                },
            },
            CIRType::Union(id) => match tctx.def_at(id.0) {
                CIRTypeDef::Union(union_type) => self.no_user_data_in_fields(tctx, 
                    &union_type.fields,
                    true,
                    start,
                    end,
                    Ghost((bound - 1) as nat),
                ),
                _ => {
                    proof { assert(false); }
                    false
                },
            },
            _ => false,
        }
    }

    fn no_user_data_in_fields(
        &self,
        tctx: &CIRTypeContext, fields: &Vec<CIRType>, is_union: bool, start: u32, end: u32, Ghost(bound): Ghost<nat>) -> (r: bool)
        requires
            bound <= tctx@.defs.len(),
            spec_no_user_data_fields(tctx@, spec_cir_views(fields@), is_union, start, end, 0, 0, bound) is Some,
        ensures
            Some(r) == spec_no_user_data_fields(tctx@, spec_cir_views(fields@), is_union, start, end, 0, 0, bound),
        decreases bound, 1nat, 0nat, 0nat,
    {
        let ghost fv = spec_cir_views(fields@);
        let ghost target = spec_no_user_data_fields(tctx@, fv, is_union, start, end, 0, 0, bound);
        proof { lemma_cir_views_index(fields@); }
        let mut current_offset: u32 = 0;
        let mut i: usize = 0;
        while i < fields.len()
            invariant
                i <= fields.len(),
                fv == spec_cir_views(fields@),
                fv.len() == fields.len(),
                bound <= tctx@.defs.len(),
                forall|j: int| 0 <= j < fields.len() ==> #[trigger] fv[j] == fields@[j]@,
                target is Some,
                target == spec_no_user_data_fields(tctx@, fv, is_union, start, end, 0, 0, bound),
                spec_no_user_data_fields(tctx@, fv, is_union, start, end, i as nat, current_offset, bound) == target,
            decreases fields.len() - i,
        {
            proof { assert(fv[i as int] == fields@[i as int]@); }
            let field_layout = tctx.layout_in(&fields[i], Ghost(bound));
            let align = field_layout.align;
            if !is_union {
                let padding = (align - (current_offset % align)) % align;
                current_offset = current_offset + padding;
            }
            let field_offset = current_offset;
            if field_offset >= end {
                return true;
            }
            let field_start = if field_offset < start {
                start - field_offset
            } else {
                0
            };
            if !self.bits_contain_no_user_data(tctx, &fields[i], field_start, end - field_offset, Ghost(bound)) {
                return false;
            }
            current_offset = current_offset + field_layout.size;
            i = i + 1;
        }
        true
    }

    fn get_int_type_at_offset(
        &self,
        tctx: &CIRTypeContext,
        ty: &CIRType,
        offset: u32,
        source_type: &CIRType,
        source_offset: u32,
        Ghost(bound): Ghost<nat>,
    ) -> (r: ABIType)
        requires
            bound <= tctx@.defs.len(),
            spec_int_type_at_in(tctx@, ty@, offset, source_type@, source_offset, bound) is Some,
        ensures
            Some(r@) == spec_int_type_at_in(tctx@, ty@, offset, source_type@, source_offset, bound),
        decreases bound, spec_type_height(ty@),
    {
        match ty {
            CIRType::Plain(plain_type) => match plain_type {
                PlainType::UIntPtr | PlainType::IntPtr | PlainType::ISize | PlainType::USize | PlainType::Int64
                | PlainType::UInt64 => {
                    if offset != 0 {
                        return cir_type_to_abi_type(tctx, ty);
                    }
                },
                PlainType::Bool | PlainType::Char | PlainType::UInt8 | PlainType::Int8 | PlainType::UInt16
                | PlainType::Int16 | PlainType::UInt32 | PlainType::Int32 | PlainType::UInt | PlainType::Int => {
                    if offset == 0 {
                        let layout = tctx.layout_of(ty);
                        if self.bits_contain_no_user_data(tctx, 
                            source_type,
                            source_offset + layout.size,
                            source_offset + 8,
                            Ghost(tctx@.defs.len()),
                        ) {
                            return cir_type_to_abi_type(tctx, ty);
                        }
                    }
                },
                PlainType::Null | PlainType::Void => {
                    proof { assert(false); }
                },
                _ => {},
            },
            CIRType::Const(inner) => {
                return self.get_int_type_at_offset(tctx, inner, offset, source_type, source_offset, Ghost(bound));
            },
            CIRType::Pointer(_) | CIRType::FuncType(_) => {
                if offset == 0 {
                    return cir_type_to_abi_type(tctx, ty);
                }
            },
            CIRType::Struct(type_id) => match tctx.def_at(type_id.0) {
                CIRTypeDef::Struct(struct_type) => {
                    if let Some((field_type, field_offset)) = self.get_struct_member_at_offset(tctx, 
                        struct_type,
                        offset,
                        Ghost((bound - 1) as nat),
                    ) {
                        return self.get_int_type_at_offset(tctx, 
                            &field_type,
                            offset - field_offset,
                            source_type,
                            source_offset,
                            Ghost((bound - 1) as nat),
                        );
                    }
                },
                _ => {
                    proof { assert(false); }
                },
            },
            CIRType::Array(array_type) => {
                let element_ty = &array_type.element_type;
                let element_layout = tctx.layout_in(element_ty, Ghost(bound));
                let size = element_layout.size;
                proof { lemma_div_mul_le(offset, size); }
                let element_offset = (offset / size) * size;
                return self.get_int_type_at_offset(tctx, element_ty, offset - element_offset, source_type, source_offset, Ghost(bound));
            },
            CIRType::Dynamic(_) => {
                if offset < 8 {
                    return ABIType::Pointer;
                }
                if offset < 16 {
                    return ABIType::Pointer;
                }
            },
            CIRType::Union(_) | CIRType::Enum(_) => {},
        }
        let layout = tctx.layout_of(source_type);
        let remaining_bytes = layout.size - source_offset;
        if remaining_bytes > 8 {
            ABIType::Integer(64)
        } else {
            ABIType::Integer((layout.size - source_offset) * 8)
        }
    }


    fn abi_arg_info_indirect_result(
        &self,
        tctx: &CIRTypeContext, ty: &CIRType, free_int_regs: u32) -> (r: ABIArgInfo)
        requires
            spec_indirect_result(tctx@, ty@, free_int_regs) is Some,
        ensures
            Some(r@) == spec_indirect_result(tctx@, ty@, free_int_regs),
    {
        if !is_cir_type_abi_aggregate(ty) {
            if ty.is_integer_or_bool() {
                let abi_ty = cir_type_to_abi_type(tctx, ty);
                let is_signed = ty.is_signed_integer();
                return ABIArgInfo {
                    kind: ABIArgKind::DirectCoerce { ty: abi_ty },
                    attrs: ABIArgAttrs { zero_ext: !is_signed, sign_ext: is_signed, by_val: false },
                    param_index_start: 0,
                    param_index_end: 0,
                };
            }
            return ABIArgInfo::direct();
        }
        let layout = tctx.layout_of(ty);
        let align = layout.align;
        let size = layout.size;
        if free_int_regs == 0 {
            if align <= 8 && size <= 8 {
                return ABIArgInfo {
                    kind: ABIArgKind::DirectCoerce { ty: ABIType::Integer(64) },
                    attrs: ABIArgAttrs::none(),
                    param_index_start: 0,
                    param_index_end: 0,
                };
            }
        }
        if align < 8 {
            let abi_type = cir_type_to_abi_type(tctx, ty);
            ABIArgInfo {
                kind: ABIArgKind::Indirect { align: 8, ty: abi_type },
                attrs: ABIArgAttrs { zero_ext: false, sign_ext: false, by_val: true },
                param_index_start: 0,
                param_index_end: 0,
            }
        } else {
            let abi_type = cir_type_to_abi_type(tctx, ty);
            ABIArgInfo {
                kind: ABIArgKind::Indirect { align, ty: abi_type },
                attrs: ABIArgAttrs { zero_ext: false, sign_ext: false, by_val: true },
                param_index_start: 0,
                param_index_end: 0,
            }
        }
    }

    /// The C default argument promotions applied to a variadic argument.
    pub fn apply_variadic_argument_promote(&self, ty: &CIRType) -> (r: CIRType)
        requires
            spec_variadic_promote(ty@) is Some,
        ensures
            Some(r@) == spec_variadic_promote(ty@),
        decreases ty,
    {
        match ty {
            CIRType::Const(inner) => self.apply_variadic_argument_promote(inner),
            CIRType::Plain(plain_type) => match plain_type {
                PlainType::UIntPtr | PlainType::IntPtr | PlainType::ISize | PlainType::USize => ty.clone(),
                PlainType::Int8 | PlainType::Int16 => {
                    if plain_type.is_signed() {
                        CIRType::Plain(PlainType::Int)
                    } else {
                        CIRType::Plain(PlainType::UInt32)
                    }
                },
                PlainType::UInt8 | PlainType::UInt16 => CIRType::Plain(PlainType::UInt32),
                PlainType::Int | PlainType::Int32 => ty.clone(),
                PlainType::UInt | PlainType::UInt32 => ty.clone(),
                PlainType::Int64 | PlainType::UInt64 => ty.clone(),
                PlainType::Int128 | PlainType::UInt128 => ty.clone(),
                PlainType::Float16 => CIRType::Plain(PlainType::Float64),
                PlainType::Float32 => CIRType::Plain(PlainType::Float64),
                PlainType::Float64 | PlainType::Float128 => ty.clone(),
                PlainType::Char => CIRType::Plain(PlainType::Int),
                PlainType::Bool => CIRType::Plain(PlainType::Int),
                PlainType::Void | PlainType::Null => {
                    proof { assert(false); }
                    ty.clone()
                },
            },
            CIRType::Array(array_type) => CIRType::Pointer(Box::new((*array_type.element_type).clone())),
            CIRType::Pointer(_) | CIRType::FuncType(_) => ty.clone(),
            CIRType::Struct(_) | CIRType::Dynamic(_) | CIRType::Enum(_) | CIRType::Union(_) => ty.clone(),
        }
    }

    /// How an argument of type `ty` is passed and the registers it needs;
    /// `free_int_regs` integer registers are still free.
    pub fn classify_argument(
        &self,
        tctx: &CIRTypeContext, ty: &CIRType, free_int_regs: u32, is_named: bool) -> (r: (ABIArgInfo, Registers))
        requires
            spec_classify_argument(tctx@, self.spec_info(), ty@, free_int_regs, is_named) is Some,
        ensures
            Some((r.0@, r.1)) == spec_classify_argument(tctx@, self.spec_info(), ty@, free_int_regs, is_named),
    {
        let owned = if !is_named {
            self.apply_variadic_argument_promote(ty)
        } else {
            ty.clone()
        };
        let ty = &owned;
        let (lo_class, hi_class) = classify(&self.info, tctx, ty, 0);
        let mut result_type: Option<ABIType> = None;
        let mut needed_regs = Registers::new();
        match lo_class {
            RegisterClass::NoClass => {
                return (ABIArgInfo::ignore(), needed_regs);
            },
            RegisterClass::Integer => {
                needed_regs.int_regs = needed_regs.int_regs + 1;
                if ty.is_integer_or_bool() {
                    result_type = Some(cir_type_to_abi_type(tctx, ty));
                } else if let Some(enum_type) = ty.as_enum(tctx) {
                    if enum_type.is_scalar_optimizable() {
                        let tag_type = enum_type.tag_type_or_infer_or_default();
                        result_type = Some(cir_type_to_abi_type(tctx, &tag_type));
                    }
                } else {
                    result_type = Some(self.get_int_type_at_offset(tctx, ty, 0, ty, 0, Ghost(tctx@.defs.len())));
                }
                if hi_class == RegisterClass::NoClass && ty.is_integer_or_bool() {
                    let is_signed = ty.is_signed_integer();
                    let attrs = ABIArgAttrs { zero_ext: !is_signed, sign_ext: is_signed, by_val: false };
                    if is_int128(ty) {
                        needed_regs.int_regs = needed_regs.int_regs + 1;
                    }
                    let result = match result_type {
                        Some(t) => t,
                        None => {
                            proof { assert(false); }
                            ABIType::Void
                        },
                    };
                    return (ABIArgInfo::direct_coerce(result).with_attrs(attrs), needed_regs);
                }
            },
            RegisterClass::Memory => {
                return (self.abi_arg_info_indirect_result(tctx, ty, free_int_regs), needed_regs);
            },
            RegisterClass::SSE => {
                needed_regs.sse_regs = needed_regs.sse_regs + 1;
                result_type = self.get_sse_type_at_offset(tctx, ty, 0, ty, 0, Ghost(tctx@.defs.len()));
            },
            RegisterClass::SSEUP => {
                proof { assert(false); }
            },
        }
        let mut high_part: Option<ABIType> = None;
        match hi_class {
            RegisterClass::NoClass => {},
            RegisterClass::Integer => {
                needed_regs.int_regs = needed_regs.int_regs + 1;
                high_part = Some(self.get_int_type_at_offset(tctx, ty, 8, ty, 8, Ghost(tctx@.defs.len())));
            },
            RegisterClass::SSE => {
                needed_regs.sse_regs = needed_regs.sse_regs + 1;
                let sse_ty = match self.get_sse_type_at_offset(tctx, ty, 8, ty, 8, Ghost(tctx@.defs.len())) {
                    Some(t) => t,
                    None => ABIType::Float(ABIFloatKind::F64),
                };
                high_part = Some(sse_ty);
            },
            RegisterClass::Memory | RegisterClass::SSEUP => {
                proof { assert(false); }
            },
        }
        match (result_type, high_part) {
            (Some(lo), Some(hi)) => (ABIArgInfo::direct_pair(lo, hi), needed_regs),
            (Some(result), None) => {
                let abi_type = cir_type_to_abi_type(tctx, ty);
                if abi_type_eq(&result, &abi_type) {
                    return (ABIArgInfo::direct(), needed_regs);
                }
                if ty.is_integer_or_bool() {
                    if result.as_integer_bits(&self.info) == abi_type.as_integer_bits(&self.info) {
                        return (ABIArgInfo::direct(), needed_regs);
                    }
                }
                (ABIArgInfo::direct_coerce(result), needed_regs)
            },
            _ => (ABIArgInfo::direct(), needed_regs),
        }
    }


    /// How a value of type `cir_ret_type` is returned.
    pub fn classify_return(
        &self,
        tctx: &CIRTypeContext, cir_ret_type: &CIRType) -> (r: ABIRetInfo)
        requires
            spec_classify_return(tctx@, cir_ret_type@) is Some,
        ensures
            Some(r@) == spec_classify_return(tctx@, cir_ret_type@),
    {
        let (lo_class, hi_class) = classify(&self.info, tctx, cir_ret_type, 0);
        let mut result_type: Option<ABIType> = None;
        match lo_class {
            RegisterClass::NoClass => {
                if hi_class == RegisterClass::NoClass {
                    return ABIRetInfo {
                        abi_type: cir_type_to_abi_type(tctx, cir_ret_type),
                        kind: ABIRetInfoKind::Ignore,
                        cir_ret_type: Box::new(cir_ret_type.clone()),
                    };
                }
                proof { assert(false); }
            },
            RegisterClass::SSEUP => {
                proof { assert(false); }
            },
            RegisterClass::Memory => {
                return ABIRetInfo {
                    abi_type: cir_type_to_abi_type(tctx, cir_ret_type),
                    kind: ABIRetInfoKind::Indirect { sret: true },
                    cir_ret_type: Box::new(cir_ret_type.clone()),
                };
            },
            RegisterClass::Integer => {
                let lo = self.get_int_type_at_offset(tctx, cir_ret_type, 0, cir_ret_type, 0, Ghost(tctx@.defs.len()));
                if hi_class == RegisterClass::NoClass && cir_ret_type.is_integer_or_bool() {
                    return ABIRetInfo {
                        abi_type: clone_abi_type(&lo),
                        kind: ABIRetInfoKind::Direct { coerce_to: Some(lo) },
                        cir_ret_type: Box::new(cir_ret_type.clone()),
                    };
                }
                result_type = Some(lo);
            },
            RegisterClass::SSE => {
                result_type = self.get_sse_type_at_offset(tctx, cir_ret_type, 0, cir_ret_type, 0, Ghost(tctx@.defs.len()));
            },
        }
        let mut high_part: Option<ABIType> = None;
        match hi_class {
            RegisterClass::Memory | RegisterClass::NoClass => {},
            RegisterClass::Integer => {
                high_part = Some(self.get_int_type_at_offset(tctx, cir_ret_type, 8, cir_ret_type, 8, Ghost(tctx@.defs.len())));
            },
            RegisterClass::SSE => {
                high_part = self.get_sse_type_at_offset(tctx, cir_ret_type, 8, cir_ret_type, 8, Ghost(tctx@.defs.len()));
            },
            RegisterClass::SSEUP => {
                proof { assert(false); }
            },
        }
        match (result_type, high_part) {
            (Some(lo), Some(hi)) => {
                let pair = vec![clone_abi_type(&lo), clone_abi_type(&hi)];
                proof {
                    assert(spec_abi_views(pair@) =~= seq![lo@, hi@]) by {
                        lemma_abi_views_index(pair@);
                    }
                }
                ABIRetInfo {
                    abi_type: ABIType::Struct(pair, false),
                    kind: ABIRetInfoKind::DirectPair { lo, hi },
                    cir_ret_type: Box::new(cir_ret_type.clone()),
                }
            },
            (Some(result), None) => {
                let abi_type = cir_type_to_abi_type(tctx, cir_ret_type);
                if abi_type_eq(&result, &abi_type) {
                    return ABIRetInfo {
                        abi_type: result,
                        kind: ABIRetInfoKind::Direct { coerce_to: None },
                        cir_ret_type: Box::new(cir_ret_type.clone()),
                    };
                }
                ABIRetInfo {
                    abi_type: clone_abi_type(&result),
                    kind: ABIRetInfoKind::Direct { coerce_to: Some(result) },
                    cir_ret_type: Box::new(cir_ret_type.clone()),
                }
            },
            _ => {
                proof { assert(false); }
                ABIRetInfo {
                    abi_type: cir_type_to_abi_type(tctx, cir_ret_type),
                    kind: ABIRetInfoKind::Direct { coerce_to: None },
                    cir_ret_type: Box::new(cir_ret_type.clone()),
                }
            },
        }
    }

    fn classify_parameter(
        &self,
        tctx: &CIRTypeContext, ty: &CIRType, available_regs: &mut Registers, is_named: bool) -> (r: ABIArgInfo)
        requires
            spec_classify_parameter(tctx@, self.spec_info(), ty@, *old(available_regs), is_named) is Some,
        ensures
            Some((r@, *final(available_regs))) == spec_classify_parameter(
                tctx@,
                self.spec_info(),
                ty@,
                *old(available_regs),
                is_named,
            ),
    {
        let (abi_arg_info, needed_regs) = self.classify_argument(tctx, ty, available_regs.int_regs, is_named);
        if try_use_registers(available_regs, &needed_regs) {
            abi_arg_info
        } else {
            self.abi_arg_info_indirect_result(tctx, ty, available_regs.int_regs)
        }
    }

    fn param_types_from_arg_info(
        &self,
        tctx: &CIRTypeContext, abi_arg: &ABIArgInfo, param_type: &CIRType) -> (r: Vec<ABIType>)
        requires
            spec_param_types(tctx@, abi_arg@, param_type@) is Some,
        ensures
            Some(spec_abi_views(r@)) == spec_param_types(tctx@, abi_arg@, param_type@),
    {
        let mut types: Vec<ABIType> = Vec::new();
        match &abi_arg.kind {
            ABIArgKind::Direct { coerce_to } => {
                if let Some(ty) = coerce_to {
                    types.push(clone_abi_type(ty));
                } else {
                    types.push(cir_type_to_abi_type(tctx, param_type));
                }
            },
            ABIArgKind::DirectCoerce { ty } => {
                types.push(clone_abi_type(ty));
            },
            ABIArgKind::DirectPair { lo, hi } => {
                types.push(clone_abi_type(lo));
                types.push(clone_abi_type(hi));
            },
            ABIArgKind::Indirect { ty, .. } => {
                types.push(clone_abi_type(ty));
            },
            ABIArgKind::Ignore => {},
        }
        proof {
            lemma_abi_views_index(types@);
            assert(spec_abi_views(types@) =~= spec_param_types(tctx@, abi_arg@, param_type@).unwrap());
        }
        types
    }

    /// The stack alignment this ABI keeps, in bytes.
    pub fn stack_alignment(&self) -> (r: u32)
        ensures
            r == 16,
    {
        MIN_ABI_STACK_ALIGN
    }


    fn classify_func_naked(
        &self,
        tctx: &CIRTypeContext, cir_func_type: &CIRFuncType) -> (r: ABIFunctionInfo)
        requires
            spec_classify_func_naked(tctx@, spec_cir_views(cir_func_type.params@), (*cir_func_type.ret_type)@) is Some,
        ensures
            Some(r@) == spec_classify_func_naked(tctx@, spec_cir_views(cir_func_type.params@), (*cir_func_type.ret_type)@),
    {
        let params_types = fields_to_abi_in(tctx, &cir_func_type.params, Ghost(tctx@.defs.len()));
        let mut params_infos: Vec<ABIArgInfo> = Vec::new();
        let mut i: usize = 0;
        while i < cir_func_type.params.len()
            invariant
                i <= cir_func_type.params.len(),
                params_infos@.map_values(|a: ABIArgInfo| a@) =~= Seq::new(i as nat, |j: int| spec_direct()),
            decreases cir_func_type.params.len() - i,
        {
            let ghost old_infos = params_infos@;
            params_infos.push(ABIArgInfo::direct());
            assert(params_infos@.map_values(|a: ABIArgInfo| a@) =~= old_infos.map_values(|a: ABIArgInfo| a@).push(
                spec_direct(),
            ));
            i = i + 1;
        }
        proof { lemma_cir_views_index(cir_func_type.params@); }
        let ret_abi_type = cir_type_to_abi_type(tctx, &cir_func_type.ret_type);
        let ret_info = if cir_func_type.ret_type.is_void() {
            ABIRetInfo {
                abi_type: ret_abi_type,
                kind: ABIRetInfoKind::Ignore,
                cir_ret_type: Box::new((*cir_func_type.ret_type).clone()),
            }
        } else {
            ABIRetInfo {
                abi_type: ret_abi_type,
                kind: ABIRetInfoKind::Direct { coerce_to: None },
                cir_ret_type: Box::new((*cir_func_type.ret_type).clone()),
            }
        };
        ABIFunctionInfo { params_infos, params_types, ret_info }
    }

    fn classify_func_sysv(
        &self,
        tctx: &CIRTypeContext, fn_ty: &CIRFuncType) -> (r: ABIFunctionInfo)
        requires
            spec_classify_func_sysv(tctx@, self.spec_info(), spec_cir_views(fn_ty.params@), (*fn_ty.ret_type)@)
                is Some,
        ensures
            Some(r@) == spec_classify_func_sysv(
                tctx@,
                self.spec_info(),
                spec_cir_views(fn_ty.params@),
                (*fn_ty.ret_type)@,
            ),
    {
        let mut available_regs = Registers { int_regs: 6, sse_regs: 8 };
        let mut params_types: Vec<ABIType> = Vec::new();
        let mut params_infos: Vec<ABIArgInfo> = Vec::new();
        let ret_info = self.classify_return(tctx, &fn_ty.ret_type);
        if ret_info.kind.is_indirect() {
            available_regs.int_regs = available_regs.int_regs - 1;
        }
        let ghost pv = spec_cir_views(fn_ty.params@);
        let ghost target = spec_sysv_params(
            tctx@,
            self.spec_info(),
            pv,
            0,
            available_regs,
            Seq::empty(),
            Seq::empty(),
        );
        proof {
            lemma_cir_views_index(fn_ty.params@);
            assert(params_infos@.map_values(|a: ABIArgInfo| a@) =~= Seq::<ABIArgInfoView>::empty());
            assert(spec_abi_views(params_types@) =~= Seq::<ABITypeView>::empty());
        }
        let mut i: usize = 0;
        while i < fn_ty.params.len()
            invariant
                i <= fn_ty.params.len(),
                pv == spec_cir_views(fn_ty.params@),
                pv.len() == fn_ty.params.len(),
                forall|j: int| 0 <= j < fn_ty.params.len() ==> #[trigger] pv[j] == fn_ty.params@[j]@,
                target is Some,
                spec_sysv_params(
                    tctx@,
                    self.spec_info(),
                    pv,
                    i as nat,
                    available_regs,
                    params_infos@.map_values(|a: ABIArgInfo| a@),
                    spec_abi_views(params_types@),
                ) == target,
            decreases fn_ty.params.len() - i,
        {
            let param_type = &fn_ty.params[i];
            proof { assert(pv[i as int] == param_type@); }
            let abi_arg = self.classify_parameter(tctx, param_type, &mut available_regs, true);
            let ghost old_types = params_types@;
            let ghost old_infos = params_infos@;
            let start = params_types.len() as u16;
            let mut tys = self.param_types_from_arg_info(tctx, &abi_arg, param_type);
            let ghost added = tys@;
            params_types.append(&mut tys);
            let end = params_types.len() as u16;
            params_infos.push(abi_arg.with_indices(start, end));
            proof {
                lemma_abi_views_index(old_types);
                lemma_abi_views_index(added);
                lemma_abi_views_index(params_types@);
                assert(spec_abi_views(params_types@) =~= spec_abi_views(old_types) + spec_abi_views(added));
                assert(params_infos@.map_values(|a: ABIArgInfo| a@) =~= old_infos.map_values(|a: ABIArgInfo| a@).push(
                    params_infos@[params_infos@.len() - 1]@,
                ));
            }
            i = i + 1;
        }
        ABIFunctionInfo { params_infos, params_types, ret_info }
    }

    /// The lowering of a function type by its calling convention, or the
    /// message for a convention that x86-64 does not support.
    pub fn classify_func(
        &self,
        tctx: &CIRTypeContext, fn_ty: &CIRFuncType) -> (r: Result<ABIFunctionInfo, String>)
        requires
            spec_classify_func(
                tctx@,
                self.spec_info(),
                spec_cir_views(fn_ty.params@),
                (*fn_ty.ret_type)@,
                fn_ty.callconv,
            ) is Some,
        ensures
            spec_classify_func(
                tctx@,
                self.spec_info(),
                spec_cir_views(fn_ty.params@),
                (*fn_ty.ret_type)@,
                fn_ty.callconv,
            ) == Some(
                match r {
                    Ok(f) => Ok(f@),
                    Err(e) => Err(e@),
                },
            ),
    {
        match fn_ty.callconv {
            CallConv::SysV64 => Ok(self.classify_func_sysv(tctx, fn_ty)),
            CallConv::System | CallConv::C | CallConv::Fast | CallConv::Cold => Ok(self.classify_func_sysv(tctx, fn_ty)),
            CallConv::Win64 => vstd::pervasive::unreached(),
            CallConv::Naked => Ok(self.classify_func_naked(tctx, fn_ty)),
            CallConv::Interrupt => Err(String::from_str("Interrupt calling convention not supported yet.")),
            CallConv::Aapcs => Err(String::from_str("AAPCS is ARM-only and not supported on x86-64.")),
            CallConv::Stdcall => Err(String::from_str("Stdcall is a 32-bit x86 convention, not supported on x86-64.")),
            CallConv::Fastcall => Err(String::from_str("Fastcall is a 32-bit x86 convention, not supported on x86-64.")),
            CallConv::Thiscall => Err(String::from_str("Thiscall is a 32-bit x86 convention, not supported on x86-64.")),
            CallConv::Vectorcall => Ok(self.classify_func_sysv(tctx, fn_ty)),
        }
    }

}

} // verus!
