use crate::abi::helpers::align_offset;
use crate::abi::layout::{ABIFieldOffsetInfo, ABITypeLayout};
use crate::abi::target::{ABITargetArch, ABITargetInfo};
use crate::cir::layout_spec::{
    spec_array_layout, spec_enum_layout, spec_enum_layout_in, spec_layout_in, spec_layouts_in,
    spec_max_size_align, spec_payload_layouts_in, spec_plain_layout, spec_round_up, spec_struct_fold,
    spec_struct_layout, spec_struct_layout_in, spec_type_height, spec_union_layout, spec_union_layout_in,
    CIRTypeContextView, CIRTypeDefView,
};
use crate::cir::types::{
    lemma_cir_views_index, spec_cir_views, spec_includes_payload, spec_is_packed, spec_variant_views,
    CIREnumType, CIREnumTypeView, CIREnumVariant, CIREnumVariantView, CIRStructType, CIRType, CIRTypeView,
    CIRTypeContextID, CIRUnionType, PlainType,
};
use crate::cir::typekey::{spec_enum_key_in, spec_record_key_in, CIRTypeKey, CIRTypeKeyView};
use crate::cir::typekey::key_eq;
use crate::cir::types::CIRRecordView;
use fx_hash::FxHashMap;
use vstd::prelude::*;
use vstd::string::StringExecFns;

verus! {

broadcast use vstd::std_specs::vec::group_vec_axioms;

/// A stored type definition.
#[derive(Debug)]
pub enum CIRTypeDef {
    Struct(CIRStructType),
    Union(CIRUnionType),
    Enum(CIREnumType),
}

impl View for CIRTypeDef {
    type V = CIRTypeDefView;

    open spec fn view(&self) -> CIRTypeDefView {
        match self {
            CIRTypeDef::Struct(s) => CIRTypeDefView::Struct(s@),
            CIRTypeDef::Union(u) => CIRTypeDefView::Union(u@),
            CIRTypeDef::Enum(e) => CIRTypeDefView::Enum(e@),
        }
    }
}

/// The registry that owns all struct, union and enum definitions: it
/// deduplicates them by key, keeps the handles of named types whose lowering
/// is under way, and holds the pre-registered fat pointer type.
pub struct CIRTypeContext {
    pub target_info: ABITargetInfo,
    defs: Vec<CIRTypeDef>,
    key_to_id: Vec<(CIRTypeKey, CIRTypeContextID)>,
    in_progress: InProgressMap,
    fat_ptr_type_id: CIRTypeContextID,
}

#[verifier::external_type_specification]
#[verifier::external_body]
pub struct ExFxBuildHasher(fx_hash::FxBuildHasher);

/// Handles of named types under lowering, by declaration key.
pub type InProgressMap = FxHashMap<u64, CIRTypeContextID>;

/// The entries of an `FxHashMap` from declaration keys to type handles, the
/// handles given by their position.
pub uninterp spec fn in_progress_entries(m: InProgressMap) -> Map<u64, usize>;

/// `HashMap::default` (an `FxHashMap`): a map with no entries.
#[verifier::external_body]
fn in_progress_new() -> (m: InProgressMap)
    ensures
        in_progress_entries(m).dom() == Set::<u64>::empty(),
{
    FxHashMap::default()
}

/// `HashMap::insert`: the key now maps to the handle, other entries stay.
#[verifier::external_body]
fn in_progress_insert(m: &mut InProgressMap, key: u64, id: CIRTypeContextID)
    ensures
        in_progress_entries(*final(m)) == in_progress_entries(*old(m)).insert(key, id.0),
{
    m.insert(key, id);
}

/// `HashMap::remove`: the key no longer has an entry, other entries stay.
#[verifier::external_body]
fn in_progress_remove(m: &mut InProgressMap, key: &u64)
    ensures
        in_progress_entries(*final(m)) == in_progress_entries(*old(m)).remove(*key),
{
    m.remove(key);
}

/// `HashMap::get`: the handle the key maps to, if any.
#[verifier::external_body]
fn in_progress_get(m: &InProgressMap, key: &u64) -> (r: Option<CIRTypeContextID>)
    ensures
        r == (if in_progress_entries(*m).dom().contains(*key) {
            Some(CIRTypeContextID(in_progress_entries(*m)[*key]))
        } else {
            None
        }),
{
    m.get(key).copied()
}

/// `HashMap::contains_key`: whether the key has an entry.
#[verifier::external_body]
fn in_progress_contains(m: &InProgressMap, key: &u64) -> (r: bool)
    ensures
        r == in_progress_entries(*m).dom().contains(*key),
{
    m.contains_key(key)
}

/// The handle recorded for the first entry with the given key.
pub open spec fn spec_find_key(keys: Seq<(CIRTypeKeyView, usize)>, key: CIRTypeKeyView) -> Option<usize>
    decreases keys.len(),
{
    if keys.len() == 0 {
        None
    } else if keys[0].0 == key {
        Some(keys[0].1)
    } else {
        spec_find_key(keys.drop_first(), key)
    }
}

/// Registering a definition under a key: the handle already registered under
/// an equal key, the definitions and keys unchanged; or a new handle at the
/// end of the definitions, with the key recorded for it.
pub open spec fn spec_register(
    defs: Seq<CIRTypeDefView>,
    keys: Seq<(CIRTypeKeyView, usize)>,
    key: CIRTypeKeyView,
    def: CIRTypeDefView,
) -> (usize, Seq<CIRTypeDefView>, Seq<(CIRTypeKeyView, usize)>) {
    match spec_find_key(keys, key) {
        Some(id) => (id, defs, keys),
        None => (defs.len() as usize, defs.push(def), keys.push((key, defs.len() as usize))),
    }
}

/// The pre-registered fat pointer: a data pointer and a vtable pointer.
pub open spec fn spec_fat_ptr_struct() -> CIRRecordView {
    CIRRecordView {
        decl_key: None,
        name: Some("__fat_ptr"@),
        fields: seq![
            CIRTypeView::Pointer(Box::new(CIRTypeView::Plain(PlainType::Void))),
            CIRTypeView::Pointer(Box::new(CIRTypeView::Plain(PlainType::Void))),
        ],
        repr_attr: None,
        align: None,
    }
}

pub open spec fn spec_def_views(defs: Seq<CIRTypeDef>) -> Seq<CIRTypeDefView> {
    Seq::new(defs.len(), |i: int| defs[i]@)
}

impl View for CIRTypeContext {
    type V = CIRTypeContextView;

    closed spec fn view(&self) -> CIRTypeContextView {
        CIRTypeContextView { target_info: self.target_info, defs: spec_def_views(self.defs@) }
    }
}

/// Layout of a plain type on the given target.
pub fn plain_type_layout(info: &ABITargetInfo, plain_type: &PlainType) -> (r: ABITypeLayout)
    ensures
        r@ == spec_plain_layout(*info, *plain_type),
{
    match plain_type {
        PlainType::UIntPtr | PlainType::IntPtr | PlainType::ISize | PlainType::USize => {
            let size = info.pointer_size();
            ABITypeLayout::normal(size, size, Vec::new())
        },
        PlainType::Int8 | PlainType::UInt8 | PlainType::Bool => ABITypeLayout::normal(1, 1, Vec::new()),
        PlainType::Int16 | PlainType::UInt16 => ABITypeLayout::normal(2, 2, Vec::new()),
        PlainType::Int32 | PlainType::UInt32 | PlainType::Int | PlainType::UInt => ABITypeLayout::normal(4, 4, Vec::new()),
        PlainType::Int64 | PlainType::UInt64 => ABITypeLayout::normal(8, 8, Vec::new()),
        PlainType::Int128 | PlainType::UInt128 => {
            let align = match info.arch {
                ABITargetArch::X86_64 | ABITargetArch::Aarch64 => 16,
                ABITargetArch::RiscV64 => 16,
                ABITargetArch::Wasm32 => 8,
            };
            ABITypeLayout::normal(16, align, Vec::new())
        },
        PlainType::Float16 => ABITypeLayout::normal(2, 2, Vec::new()),
        PlainType::Float32 => ABITypeLayout::normal(4, 4, Vec::new()),
        PlainType::Float64 => ABITypeLayout::normal(8, 8, Vec::new()),
        PlainType::Float128 => {
            let align = match info.arch {
                ABITargetArch::X86_64 | ABITargetArch::Aarch64 => 16,
                ABITargetArch::RiscV64 => 16,
                ABITargetArch::Wasm32 => 8,
            };
            ABITypeLayout::normal(16, align, Vec::new())
        },
        PlainType::Char => ABITypeLayout::normal(1, 1, Vec::new()),
        PlainType::Void => ABITypeLayout::normal(0, 1, Vec::new()),
        PlainType::Null => {
            let size = info.pointer_size();
            ABITypeLayout::normal(size, size, Vec::new())
        },
    }
}

/// The layouts of a list of types are, one by one, the layouts of its elements.
pub proof fn lemma_layouts_in_index(ctx: CIRTypeContextView, s: Seq<CIRTypeView>, bound: nat)
    requires
        spec_layouts_in(ctx, s, bound) is Some,
    ensures
        spec_layouts_in(ctx, s, bound).unwrap().len() == s.len(),
        forall|i: int|
            0 <= i < s.len() ==> spec_layout_in(ctx, #[trigger] s[i], bound) == Some(
                spec_layouts_in(ctx, s, bound).unwrap()[i],
            ),
    decreases s.len(),
{
    if s.len() > 0 {
        lemma_layouts_in_index(ctx, s.drop_last(), bound);
        assert forall|i: int| 0 <= i < s.len() implies spec_layout_in(ctx, #[trigger] s[i], bound) == Some(
            spec_layouts_in(ctx, s, bound).unwrap()[i],
        ) by {
            if i < s.len() - 1 {
                assert(s[i] == s.drop_last()[i]);
            }
        }
    }
}

/// The payload layouts of a list of variants are, one by one, those of its elements.
pub proof fn lemma_payload_layouts_index(ctx: CIRTypeContextView, vs: Seq<CIREnumVariantView>, bound: nat)
    requires
        spec_payload_layouts_in(ctx, vs, bound) is Some,
    ensures
        spec_payload_layouts_in(ctx, vs, bound).unwrap().len() == vs.len(),
        forall|i: int|
            0 <= i < vs.len() ==> Some(spec_payload_layouts_in(ctx, vs, bound).unwrap()[i]) == match #[trigger] vs[i] {
                CIREnumVariantView::Unit(_, _) => Some(crate::cir::layout_spec::spec_layout(0, 1, Seq::empty(), false)),
                CIREnumVariantView::Valued(_, ty, _) => spec_layout_in(ctx, ty, bound),
                CIREnumVariantView::Payload(_, r, _) => spec_struct_layout_in(ctx, r, bound),
            },
    decreases vs.len(),
{
    if vs.len() > 0 {
        lemma_payload_layouts_index(ctx, vs.drop_last(), bound);
        assert forall|i: int| 0 <= i < vs.len() implies Some(spec_payload_layouts_in(ctx, vs, bound).unwrap()[i]) == match #[trigger] vs[i] {
            CIREnumVariantView::Unit(_, _) => Some(crate::cir::layout_spec::spec_layout(0, 1, Seq::empty(), false)),
            CIREnumVariantView::Valued(_, ty, _) => spec_layout_in(ctx, ty, bound),
            CIREnumVariantView::Payload(_, r, _) => spec_struct_layout_in(ctx, r, bound),
        } by {
            if i < vs.len() - 1 {
                assert(vs[i] == vs.drop_last()[i]);
            }
        }
    }
}

/// A struct layout that succeeds for all fields succeeds for every prefix.
pub proof fn lemma_struct_fold_prefix(fls: Seq<crate::abi::layout::ABITypeLayoutView>, packed: bool, k: int)
    requires
        0 <= k <= fls.len(),
        spec_struct_fold(fls, packed) is Some,
    ensures
        spec_struct_fold(fls.take(k), packed) is Some,
    decreases fls.len(),
{
    if k < fls.len() {
        lemma_struct_fold_prefix(fls.drop_last(), packed, k);
        assert(fls.drop_last().take(k) =~= fls.take(k));
    } else {
        assert(fls.take(k) =~= fls);
    }
}

impl CIRTypeContext {
    pub(crate) fn layout_in(&self, ty: &CIRType, Ghost(bound): Ghost<nat>) -> (r: ABITypeLayout)
        requires
            bound <= self@.defs.len(),
            spec_layout_in(self@, ty@, bound) is Some,
        ensures
            Some(r@) == spec_layout_in(self@, ty@, bound),
        decreases bound, 0nat, spec_type_height(ty@),
    {
        match ty {
            CIRType::Struct(type_id) => {
                let def = &self.defs[type_id.0];
                proof { assert(self@.defs[type_id.0 as int] == def@); }
                match def {
                    CIRTypeDef::Struct(s) => {
                        proof {
                            assert(spec_layout_in(self@, ty@, bound) == spec_struct_layout_in(self@, s@, (bound - 1) as nat));
                        }
                        let packed = s.is_packed();
                        self.struct_layout_in(&s.fields, packed, s.align, Ghost((bound - 1) as nat))
                    },
                    _ => vstd::pervasive::unreached(),
                }
            },
            CIRType::Union(type_id) => {
                let def = &self.defs[type_id.0];
                proof { assert(self@.defs[type_id.0 as int] == def@); }
                match def {
                    CIRTypeDef::Union(u) => {
                        proof {
                            assert(spec_layout_in(self@, ty@, bound) == spec_union_layout_in(self@, u@, (bound - 1) as nat));
                        }
                        self.union_layout_in(&u.fields, Ghost((bound - 1) as nat))
                    },
                    _ => vstd::pervasive::unreached(),
                }
            },
            CIRType::Enum(type_id) => {
                let def = &self.defs[type_id.0];
                proof { assert(self@.defs[type_id.0 as int] == def@); }
                match def {
                    CIRTypeDef::Enum(e) => {
                        proof {
                            assert(spec_layout_in(self@, ty@, bound) == spec_enum_layout_in(self@, e@, (bound - 1) as nat));
                        }
                        self.enum_layout_in(e, Ghost((bound - 1) as nat))
                    },
                    _ => vstd::pervasive::unreached(),
                }
            },
            CIRType::Plain(plain_type) => plain_type_layout(&self.target_info, plain_type),
            CIRType::Const(inner) => self.layout_in(inner, Ghost(bound)),
            CIRType::Pointer(_) => {
                let size = self.target_info.pointer_size();
                ABITypeLayout::normal(size, size, Vec::new())
            },
            CIRType::Array(array_type) => {
                let element_layout = self.layout_in(&array_type.element_type, Ghost(bound));
                let total_size = element_layout.size * (array_type.len as u32);
                let mut field_offsets: Vec<ABIFieldOffsetInfo> = Vec::new();
                let mut i: usize = 0;
                while i < array_type.len
                    invariant
                        i <= array_type.len,
                        forall|j: int| 0 <= j < array_type.len ==> #[trigger] (element_layout.align * (j as u32)) <= u32::MAX,
                        field_offsets@ =~= Seq::new(i as nat, |j: int| ABIFieldOffsetInfo::Normal {
                            index: j as u32,
                            offset: (element_layout.align * (j as u32)) as u32,
                            original_index: j as usize,
                        }),
                    decreases array_type.len - i,
                {
                    proof { assert(element_layout.align * ((i as int) as u32) <= u32::MAX); }
                    field_offsets.push(ABIFieldOffsetInfo::Normal {
                        index: i as u32,
                        offset: element_layout.align * (i as u32),
                        original_index: i,
                    });
                    i = i + 1;
                }
                ABITypeLayout::aggregate(total_size, element_layout.align, field_offsets)
            },
            CIRType::FuncType(_) => {
                let size = self.target_info.pointer_size();
                ABITypeLayout::normal(size, size, Vec::new())
            },
            CIRType::Dynamic(_) => {
                let size = self.target_info.pointer_size() * 2;
                ABITypeLayout::normal(size, self.target_info.pointer_size(), Vec::new())
            },
        }
    }

    pub(crate) fn struct_layout_in(&self, fields: &Vec<CIRType>, is_packed: bool, explicit_align: Option<usize>, Ghost(bound): Ghost<nat>) -> (r: ABITypeLayout)
        requires
            bound <= self@.defs.len(),
            spec_layouts_in(self@, spec_cir_views(fields@), bound) matches Some(fls)
                && spec_struct_layout(fls, is_packed, explicit_align) is Some,
        ensures
            Some(r@) == spec_struct_layout(spec_layouts_in(self@, spec_cir_views(fields@), bound).unwrap(), is_packed, explicit_align),
        decreases bound, 2nat, 0nat,
    {
        let ghost fls = spec_layouts_in(self@, spec_cir_views(fields@), bound).unwrap();
        proof {
            lemma_layouts_in_index(self@, spec_cir_views(fields@), bound);
            lemma_cir_views_index(fields@);
            assert forall|j: int| 0 <= j < fields.len() implies spec_layout_in(self@, #[trigger] fields@[j]@, bound)
                == Some(fls[j]) by {
                assert(spec_cir_views(fields@)[j] == fields@[j]@);
            }
            lemma_struct_fold_prefix(fls, is_packed, 0);
            assert(fls.take(0) =~= Seq::<crate::abi::layout::ABITypeLayoutView>::empty());
        }
        let mut offset: u32 = 0;
        let mut max_align: u32 = 1;
        let mut field_offsets: Vec<ABIFieldOffsetInfo> = Vec::new();
        let mut field_offset_index: u32 = 0;
        let mut i: usize = 0;
        while i < fields.len()
            invariant
                i <= fields.len(),
                fls.len() == fields.len(),
                bound <= self@.defs.len(),
                spec_struct_fold(fls, is_packed) is Some,
                forall|j: int| 0 <= j < fields.len() ==> spec_layout_in(self@, #[trigger] fields@[j]@, bound) == Some(fls[j]),
                spec_struct_fold(fls.take(i as int), is_packed) matches Some(st) && st.offset == offset
                    && st.max_align == max_align && st.field_offsets == field_offsets@
                    && st.next_index == field_offset_index,
            decreases fields.len() - i,
        {
            proof {
                lemma_struct_fold_prefix(fls, is_packed, i as int + 1);
                assert(fls.take(i as int + 1).drop_last() =~= fls.take(i as int));
                assert(fls.take(i as int + 1).last() == fls[i as int]);
            }
            let field_layout = self.layout_in(&fields[i], Ghost(bound));
            let effective_field_align = if is_packed { 1 } else { field_layout.align };
            if !is_packed {
                let padding = (effective_field_align - (offset % effective_field_align)) % effective_field_align;
                if padding > 0 {
                    field_offsets.push(ABIFieldOffsetInfo::padding(field_offset_index, offset, padding));
                    field_offset_index = field_offset_index + 1;
                    offset = offset + padding;
                }
            }
            field_offsets.push(ABIFieldOffsetInfo::normal(field_offset_index, offset, i));
            field_offset_index = field_offset_index + 1;
            offset = offset + field_layout.size;
            max_align = if max_align >= field_layout.align { max_align } else { field_layout.align };
            i = i + 1;
        }
        proof { assert(fls.take(i as int) =~= fls); }
        if let Some(explicit) = explicit_align {
            let a = explicit as u32;
            max_align = if max_align >= a { max_align } else { a };
        }
        if is_packed {
            max_align = 1;
        }
        let total_size = align_offset(offset, max_align);
        if total_size > offset {
            let n = field_offsets.len() as u32;
            field_offsets.push(ABIFieldOffsetInfo::padding(n, offset, total_size - offset));
        }
        ABITypeLayout::aggregate(total_size, max_align, field_offsets)
    }

    pub(crate) fn union_layout_in(&self, fields: &Vec<CIRType>, Ghost(bound): Ghost<nat>) -> (r: ABITypeLayout)
        requires
            bound <= self@.defs.len(),
            spec_layouts_in(self@, spec_cir_views(fields@), bound) matches Some(fls) && spec_union_layout(fls) is Some,
        ensures
            Some(r@) == spec_union_layout(spec_layouts_in(self@, spec_cir_views(fields@), bound).unwrap()),
        decreases bound, 2nat, 0nat,
    {
        let ghost fls = spec_layouts_in(self@, spec_cir_views(fields@), bound).unwrap();
        proof {
            lemma_layouts_in_index(self@, spec_cir_views(fields@), bound);
            lemma_cir_views_index(fields@);
            assert forall|j: int| 0 <= j < fields.len() implies spec_layout_in(self@, #[trigger] fields@[j]@, bound)
                == Some(fls[j]) by {
                assert(spec_cir_views(fields@)[j] == fields@[j]@);
            }
            assert(fls.take(0) =~= Seq::<crate::abi::layout::ABITypeLayoutView>::empty());
        }
        let mut max_size: u32 = 0;
        let mut max_align: u32 = 1;
        let mut field_offsets: Vec<ABIFieldOffsetInfo> = Vec::new();
        let mut i: usize = 0;
        while i < fields.len()
            invariant
                i <= fields.len(),
                fls.len() == fields.len(),
                bound <= self@.defs.len(),
                forall|j: int| 0 <= j < fields.len() ==> spec_layout_in(self@, #[trigger] fields@[j]@, bound) == Some(fls[j]),
                spec_max_size_align(fls.take(i as int)) == (max_size, max_align),
                field_offsets@ =~= Seq::new(i as nat, |j: int| ABIFieldOffsetInfo::Normal { index: j as u32, offset: 0, original_index: j as usize }),
            decreases fields.len() - i,
        {
            proof {
                assert(fls.take(i as int + 1).drop_last() =~= fls.take(i as int));
            }
            let field_layout = self.layout_in(&fields[i], Ghost(bound));
            max_size = if max_size >= field_layout.size { max_size } else { field_layout.size };
            max_align = if max_align >= field_layout.align { max_align } else { field_layout.align };
            field_offsets.push(ABIFieldOffsetInfo::normal(i as u32, 0, i));
            i = i + 1;
        }
        proof { assert(fls.take(i as int) =~= fls); }
        let total_size = align_offset(max_size, max_align);
        ABITypeLayout::aggregate(total_size, max_align, field_offsets)
    }

    pub(crate) fn enum_layout_in(&self, enum_type: &CIREnumType, Ghost(bound): Ghost<nat>) -> (r: ABITypeLayout)
        requires
            bound <= self@.defs.len(),
            spec_enum_layout_in(self@, enum_type@, bound) is Some,
        ensures
            Some(r@) == spec_enum_layout_in(self@, enum_type@, bound),
        decreases bound, 4nat, 0nat,
    {
        let tag_type = enum_type.tag_type_or_infer_or_default();
        if enum_type.is_scalar_optimizable() {
            return self.layout_in(&tag_type, Ghost(bound));
        }
        let tag_layout = self.layout_in(&tag_type, Ghost(bound));
        let tag_size = tag_layout.size;
        let tag_align = tag_layout.align;
        let ghost pls = spec_payload_layouts_in(self@, enum_type@.variants, bound).unwrap();
        proof {
            lemma_payload_layouts_index(self@, enum_type@.variants, bound);
            assert(pls.take(0) =~= Seq::<crate::abi::layout::ABITypeLayoutView>::empty());
        }
        let mut max_payload_size: u32 = 0;
        let mut max_payload_align: u32 = 1;
        let mut i: usize = 0;
        while i < enum_type.variants.len()
            invariant
                i <= enum_type.variants.len(),
                pls.len() == enum_type.variants.len(),
                bound <= self@.defs.len(),
                forall|j: int| 0 <= j < enum_type.variants.len() ==> Some(pls[j]) == match #[trigger] enum_type@.variants[j] {
                    CIREnumVariantView::Unit(_, _) => Some(crate::cir::layout_spec::spec_layout(0, 1, Seq::empty(), false)),
                    CIREnumVariantView::Valued(_, ty, _) => spec_layout_in(self@, ty, bound),
                    CIREnumVariantView::Payload(_, r, _) => spec_struct_layout_in(self@, r, bound),
                },
                spec_max_size_align(pls.take(i as int)) == (max_payload_size, max_payload_align),
            decreases enum_type.variants.len() - i,
        {
            proof {
                assert(pls.take(i as int + 1).drop_last() =~= pls.take(i as int));
                assert(enum_type@.variants[i as int] == enum_type.variants@[i as int]@);
            }
            let (variant_size, variant_align) = match &enum_type.variants[i] {
                CIREnumVariant::Unit(_, _) => (0u32, 1u32),
                CIREnumVariant::Valued(_, value_type, _) => {
                    let layout = self.layout_in(value_type, Ghost(bound));
                    (layout.size, layout.align)
                },
                CIREnumVariant::Payload(_, struct_type, _) => {
                    let packed = struct_type.is_packed();
                    let layout = self.struct_layout_in(&struct_type.fields, packed, struct_type.align, Ghost(bound));
                    (layout.size, layout.align)
                },
            };
            max_payload_size = if max_payload_size >= variant_size { max_payload_size } else { variant_size };
            max_payload_align = if max_payload_align >= variant_align { max_payload_align } else { variant_align };
            i = i + 1;
        }
        proof { assert(pls.take(i as int) =~= pls); }
        if max_payload_size == 0 && enum_type.includes_payload() {
            max_payload_size = 1;
            max_payload_align = 1;
        }
        if let Some(align) = enum_type.align {
            let a = align as u32;
            max_payload_align = if max_payload_align >= a { max_payload_align } else { a };
        }
        let payload_offset = round_up(tag_size, max_payload_align);
        let mut total_align = if tag_align >= max_payload_align { tag_align } else { max_payload_align };
        if let Some(align) = enum_type.align {
            let a = align as u32;
            total_align = if total_align >= a { total_align } else { a };
        }
        let total_size = round_up(payload_offset + max_payload_size, total_align);
        ABITypeLayout::aggregate(total_size, total_align, Vec::new())
    }

    /// The layout of a type.
    pub fn layout_of(&self, ty: &CIRType) -> (r: ABITypeLayout)
        requires
            crate::cir::layout_spec::spec_layout_of(self@, ty@) is Some,
        ensures
            Some(r@) == crate::cir::layout_spec::spec_layout_of(self@, ty@),
    {
        self.layout_in(ty, Ghost(self@.defs.len()))
    }

    /// The layout of a struct type whose fields refer to this context.
    pub fn compute_struct_layout(&self, struct_type: &CIRStructType) -> (r: ABITypeLayout)
        requires
            spec_struct_layout_in(self@, struct_type@, self@.defs.len()) is Some,
        ensures
            Some(r@) == spec_struct_layout_in(self@, struct_type@, self@.defs.len()),
    {
        let packed = struct_type.is_packed();
        self.struct_layout_in(&struct_type.fields, packed, struct_type.align, Ghost(self@.defs.len()))
    }

    /// The layout of a union type whose fields refer to this context.
    pub fn compute_union_layout(&self, union_type: &CIRUnionType) -> (r: ABITypeLayout)
        requires
            spec_union_layout_in(self@, union_type@, self@.defs.len()) is Some,
        ensures
            Some(r@) == spec_union_layout_in(self@, union_type@, self@.defs.len()),
    {
        self.union_layout_in(&union_type.fields, Ghost(self@.defs.len()))
    }

    /// The layout of an enum type whose variants refer to this context.
    pub fn compute_enum_layout(&self, enum_type: &CIREnumType) -> (r: ABITypeLayout)
        requires
            spec_enum_layout_in(self@, enum_type@, self@.defs.len()) is Some,
        ensures
            Some(r@) == spec_enum_layout_in(self@, enum_type@, self@.defs.len()),
    {
        self.enum_layout_in(enum_type, Ghost(self@.defs.len()))
    }
}

/// `x` rounded up to a multiple of `a`, as `((x + a - 1) / a) * a`.
fn round_up(x: u32, a: u32) -> (r: u32)
    requires
        spec_round_up(x, a) is Some,
    ensures
        Some(r) == spec_round_up(x, a),
{
    let q = (x + (a - 1)) / a;
    q * a
}


impl CIRTypeContext {
    /// The definition at position `i`.
    pub(crate) fn def_at(&self, i: usize) -> (r: &CIRTypeDef)
        requires
            i < self@.defs.len(),
        ensures
            r@ == self@.defs[i as int],
    {
        &self.defs[i]
    }

    /// The target this context lays types out for.
    pub fn target(&self) -> (r: ABITargetInfo)
        ensures
            r == self@.target_info,
    {
        self.target_info
    }

    /// The number of stored definitions.
    pub fn len(&self) -> (r: usize)
        ensures
            r == self@.defs.len(),
    {
        self.defs.len()
    }

    /// A copy of the struct definition at `type_id`.
    pub fn get_struct(&self, type_id: CIRTypeContextID) -> (r: CIRStructType)
        requires
            type_id.0 < self@.defs.len(),
            self@.defs[type_id.0 as int] is Struct,
        ensures
            self@.defs[type_id.0 as int] == CIRTypeDefView::Struct(r@),
    {
        match &self.defs[type_id.0] {
            CIRTypeDef::Struct(struct_type) => struct_type.clone_struct(),
            _ => vstd::pervasive::unreached(),
        }
    }

    /// A copy of the union definition at `type_id`.
    pub fn get_union(&self, type_id: CIRTypeContextID) -> (r: CIRUnionType)
        requires
            type_id.0 < self@.defs.len(),
            self@.defs[type_id.0 as int] is Union,
        ensures
            self@.defs[type_id.0 as int] == CIRTypeDefView::Union(r@),
    {
        match &self.defs[type_id.0] {
            CIRTypeDef::Union(union_type) => union_type.clone_union(),
            _ => vstd::pervasive::unreached(),
        }
    }

    /// A copy of the enum definition at `type_id`.
    pub fn get_enum(&self, type_id: CIRTypeContextID) -> (r: CIREnumType)
        requires
            type_id.0 < self@.defs.len(),
            self@.defs[type_id.0 as int] is Enum,
        ensures
            self@.defs[type_id.0 as int] == CIRTypeDefView::Enum(r@),
    {
        match &self.defs[type_id.0] {
            CIRTypeDef::Enum(enum_type) => enum_type.clone_enum(),
            _ => vstd::pervasive::unreached(),
        }
    }

    /// The layout of the definition at `type_id`.
    pub fn get_or_compute_layout(&self, type_id: CIRTypeContextID) -> (r: ABITypeLayout)
        requires
            type_id.0 < self@.defs.len(),
            spec_def_layout(self@, type_id.0 as int) is Some,
        ensures
            Some(r@) == spec_def_layout(self@, type_id.0 as int),
    {
        let def = &self.defs[type_id.0];
        proof { assert(self@.defs[type_id.0 as int] == def@); }
        match def {
            CIRTypeDef::Struct(s) => self.compute_struct_layout(s),
            CIRTypeDef::Union(u) => self.compute_union_layout(u),
            CIRTypeDef::Enum(e) => self.compute_enum_layout(e),
        }
    }
}

/// The layout of the definition at position `id`, its references resolved in
/// the whole context.
pub open spec fn spec_def_layout(ctx: CIRTypeContextView, id: int) -> Option<crate::abi::layout::ABITypeLayoutView> {
    match ctx.defs[id] {
        CIRTypeDefView::Struct(r) => spec_struct_layout_in(ctx, r, ctx.defs.len()),
        CIRTypeDefView::Union(r) => spec_union_layout_in(ctx, r, ctx.defs.len()),
        CIRTypeDefView::Enum(e) => spec_enum_layout_in(ctx, e, ctx.defs.len()),
    }
}

impl CIRType {
    /// The struct definition this type names (not looking through `const`).
    pub fn as_struct(&self, tctx: &CIRTypeContext) -> (r: Option<CIRStructType>)
        requires
            self@ matches CIRTypeView::Struct(id) ==> id < tctx@.defs.len() && tctx@.defs[id as int] is Struct,
        ensures
            match self@ {
                CIRTypeView::Struct(id) => r matches Some(s) && tctx@.defs[id as int] == CIRTypeDefView::Struct(s@),
                _ => r is None,
            },
    {
        match self {
            CIRType::Struct(type_id) => Some(tctx.get_struct(*type_id)),
            _ => None,
        }
    }

    /// The union definition this type names (not looking through `const`).
    pub fn as_union(&self, tctx: &CIRTypeContext) -> (r: Option<CIRUnionType>)
        requires
            self@ matches CIRTypeView::Union(id) ==> id < tctx@.defs.len() && tctx@.defs[id as int] is Union,
        ensures
            match self@ {
                CIRTypeView::Union(id) => r matches Some(u) && tctx@.defs[id as int] == CIRTypeDefView::Union(u@),
                _ => r is None,
            },
    {
        match self {
            CIRType::Union(type_id) => Some(tctx.get_union(*type_id)),
            _ => None,
        }
    }

    /// The enum definition this type names (not looking through `const`).
    pub fn as_enum(&self, tctx: &CIRTypeContext) -> (r: Option<CIREnumType>)
        requires
            self@ matches CIRTypeView::Enum(id) ==> id < tctx@.defs.len() && tctx@.defs[id as int] is Enum,
        ensures
            match self@ {
                CIRTypeView::Enum(id) => r matches Some(e) && tctx@.defs[id as int] == CIRTypeDefView::Enum(e@),
                _ => r is None,
            },
    {
        match self {
            CIRType::Enum(type_id) => Some(tctx.get_enum(*type_id)),
            _ => None,
        }
    }

    /// The fields of the struct or union this type names.
    pub fn struct_or_union_fields(&self, tctx: &CIRTypeContext) -> (r: Option<Vec<CIRType>>)
        requires
            self@ matches CIRTypeView::Struct(id) ==> id < tctx@.defs.len() && tctx@.defs[id as int] is Struct,
            self@ matches CIRTypeView::Union(id) ==> id < tctx@.defs.len() && tctx@.defs[id as int] is Union,
        ensures
            match self@ {
                CIRTypeView::Struct(id) => r matches Some(fs)
                    && tctx@.defs[id as int] matches CIRTypeDefView::Struct(s) && spec_cir_views(fs@) == s.fields,
                CIRTypeView::Union(id) => r matches Some(fs)
                    && tctx@.defs[id as int] matches CIRTypeDefView::Union(u) && spec_cir_views(fs@) == u.fields,
                _ => r is None,
            },
    {
        if let Some(struct_type) = self.as_struct(tctx) {
            Some(struct_type.fields)
        } else if let Some(union_type) = self.as_union(tctx) {
            Some(union_type.fields)
        } else {
            None
        }
    }
}


impl CIRTypeContext {
    /// The keys registered so far with their handles, in insertion order.
    pub closed spec fn spec_keys(&self) -> Seq<(CIRTypeKeyView, usize)> {
        self.key_to_id@.map_values(|p: (CIRTypeKey, CIRTypeContextID)| (p.0@, p.1.0))
    }

    /// The handles of the named types being lowered, by declaration key.
    pub closed spec fn spec_in_progress(&self) -> Map<u64, usize> {
        in_progress_entries(self.in_progress)
    }

    /// The handle of the pre-registered fat pointer type.
    pub closed spec fn spec_fat_ptr_id(&self) -> usize {
        self.fat_ptr_type_id.0
    }

    /// Every registered handle and the fat pointer's handle name a stored
    /// definition, and distinct registrations hold distinct handles.
    pub closed spec fn wf(&self) -> bool {
        &&& self.fat_ptr_type_id.0 < self.defs@.len()
        &&& forall|i: int| 0 <= i < self.key_to_id@.len() ==> (#[trigger] self.key_to_id@[i]).1.0 < self.defs@.len()
        &&& spec_handles_distinct(self.spec_keys(), self.defs@.len() as int)
    }

    /// A context for a target holding only the fat pointer type.
    pub fn new(target_info: ABITargetInfo) -> (r: Self)
        ensures
            r.wf(),
            r@.target_info == target_info,
            r@.defs == seq![CIRTypeDefView::Struct(spec_fat_ptr_struct())],
            r.spec_fat_ptr_id() == 0,
            r.spec_keys() == seq![(
                crate::cir::typekey::CIRTypeKeyView::AnonStruct(
                    seq![
                        CIRTypeKeyView::Pointer(Box::new(CIRTypeKeyView::Plain(PlainType::Void))),
                        CIRTypeKeyView::Pointer(Box::new(CIRTypeKeyView::Plain(PlainType::Void))),
                    ],
                ),
                0usize,
            )],
            r.spec_in_progress() == Map::<u64, usize>::empty(),
    {
        let mut ctx = CIRTypeContext {
            target_info,
            defs: Vec::new(),
            key_to_id: Vec::new(),
            in_progress: in_progress_new(),
            fat_ptr_type_id: CIRTypeContextID(0),
        };
        let fat_ptr = ctx.create_fat_ptr_type();
        ctx.fat_ptr_type_id = fat_ptr;
        proof {
            assert(ctx.spec_in_progress() =~= Map::<u64, usize>::empty());
            assert(ctx@.defs =~= seq![CIRTypeDefView::Struct(spec_fat_ptr_struct())]);
            assert(ctx.spec_keys() =~= seq![(
                crate::cir::typekey::CIRTypeKeyView::AnonStruct(
                    seq![
                        CIRTypeKeyView::Pointer(Box::new(CIRTypeKeyView::Plain(PlainType::Void))),
                        CIRTypeKeyView::Pointer(Box::new(CIRTypeKeyView::Plain(PlainType::Void))),
                    ],
                ),
                0usize,
            )]);
        }
        ctx
    }

    fn create_fat_ptr_type(&mut self) -> (r: CIRTypeContextID)
        requires
            old(self).defs@.len() == 0,
            old(self).key_to_id@.len() == 0,
        ensures
            r.0 == 0,
            final(self)@.target_info == old(self)@.target_info,
            final(self).in_progress == old(self).in_progress,
            final(self)@.defs == seq![CIRTypeDefView::Struct(spec_fat_ptr_struct())],
            final(self).defs@.len() == 1,
            final(self).defs@[0] is Struct,
            final(self).key_to_id@.len() == 1,
            final(self).key_to_id@[0].1 == r,
            final(self).key_to_id@[0].0@ == crate::cir::typekey::CIRTypeKeyView::AnonStruct(
                seq![
                    CIRTypeKeyView::Pointer(Box::new(CIRTypeKeyView::Plain(PlainType::Void))),
                    CIRTypeKeyView::Pointer(Box::new(CIRTypeKeyView::Plain(PlainType::Void))),
                ],
            ),
    {
        let fields = vec![
            CIRType::Pointer(Box::new(CIRType::Plain(PlainType::Void))),
            CIRType::Pointer(Box::new(CIRType::Plain(PlainType::Void))),
        ];
        let key = CIRTypeKey::AnonStruct(
            vec![
                CIRTypeKey::Pointer(Box::new(CIRTypeKey::Plain(PlainType::Void))),
                CIRTypeKey::Pointer(Box::new(CIRTypeKey::Plain(PlainType::Void))),
            ],
        );
        let struct_type = CIRStructType {
            decl_key: None,
            name: Some(String::from_str("__fat_ptr")),
            fields,
            repr_attr: None,
            align: None,
        };
        proof {
            let pv = CIRTypeView::Pointer(Box::new(CIRTypeView::Plain(PlainType::Void)));
            lemma_cir_views_index(struct_type.fields@);
            assert(struct_type.fields@[0]@ == pv) by {
                reveal_with_fuel(crate::cir::types::spec_cir_view, 2);
            }
            assert(struct_type.fields@[1]@ == pv) by {
                reveal_with_fuel(crate::cir::types::spec_cir_view, 2);
            }
            assert(spec_cir_views(struct_type.fields@) =~= seq![pv, pv]);
            assert(struct_type@ == spec_fat_ptr_struct());
            let kv = CIRTypeKeyView::Pointer(Box::new(CIRTypeKeyView::Plain(PlainType::Void)));
            let ks = key->AnonStruct_0@;
            crate::cir::typekey::lemma_key_views_index(ks);
            assert(ks[0]@ == kv) by {
                reveal_with_fuel(crate::cir::typekey::spec_key_view, 2);
            }
            assert(ks[1]@ == kv) by {
                reveal_with_fuel(crate::cir::typekey::spec_key_view, 2);
            }
            assert(crate::cir::typekey::spec_key_views(ks) =~= seq![kv, kv]);
        }
        self.defs.push(CIRTypeDef::Struct(struct_type));
        self.key_to_id.push((key, CIRTypeContextID(0)));
        proof {
            assert(self@.defs =~= seq![CIRTypeDefView::Struct(spec_fat_ptr_struct())]);
        }
        CIRTypeContextID(0)
    }

    /// The fat pointer type: a struct of a data pointer and a vtable pointer.
    pub fn fat_ptr_type(&self) -> (r: CIRType)
        ensures
            r@ == CIRTypeView::Struct(self.spec_fat_ptr_id()),
    {
        CIRType::Struct(self.fat_ptr_type_id)
    }

    fn find_key(&self, key: &CIRTypeKey) -> (r: Option<CIRTypeContextID>)
        ensures
            match r {
                Some(id) => spec_find_key(self.spec_keys(), key@) == Some(id.0),
                None => spec_find_key(self.spec_keys(), key@) is None,
            },
    {
        let ghost keys = self.spec_keys();
        let mut i: usize = 0;
        proof { assert(keys.skip(0) =~= keys); }
        while i < self.key_to_id.len()
            invariant
                i <= self.key_to_id.len(),
                keys == self.spec_keys(),
                keys.len() == self.key_to_id.len(),
                spec_find_key(keys, key@) == spec_find_key(keys.skip(i as int), key@),
            decreases self.key_to_id.len() - i,
        {
            proof {
                assert(keys.skip(i as int).drop_first() =~= keys.skip(i as int + 1));
                assert(keys.skip(i as int)[0] == keys[i as int]);
            }
            if key_eq(&self.key_to_id[i].0, key) {
                return Some(self.key_to_id[i].1);
            }
            i = i + 1;
        }
        proof { assert(keys.skip(i as int).len() == 0); }
        None
    }

    /// The registered handle of a key, or a new definition stored under it.
    fn register(&mut self, key: CIRTypeKey, def: CIRTypeDef) -> (r: CIRTypeContextID)
        requires
            old(self).wf(),
        ensures
            final(self).wf(),
            final(self)@.target_info == old(self)@.target_info,
            final(self).spec_in_progress() == old(self).spec_in_progress(),
            final(self).spec_fat_ptr_id() == old(self).spec_fat_ptr_id(),
            (r.0, final(self)@.defs, final(self).spec_keys()) == spec_register(
                old(self)@.defs,
                old(self).spec_keys(),
                key@,
                def@,
            ),
    {
        if let Some(type_id) = self.find_key(&key) {
            return type_id;
        }
        let type_id = CIRTypeContextID(self.defs.len());
        let ghost old_keys = self.key_to_id@;
        self.defs.push(def);
        self.key_to_id.push((key, type_id));
        proof {
            lemma_register_keeps_handles_distinct(old(self)@.defs, old(self).spec_keys(), key@, def@);
            assert(self.spec_keys() =~= old_keys.map_values(|p: (CIRTypeKey, CIRTypeContextID)| (p.0@, p.1.0)).push(
                (self.key_to_id@[self.key_to_id@.len() - 1].0@, type_id.0),
            ));
            assert forall|i: int| 0 <= i < self.key_to_id@.len() implies (#[trigger] self.key_to_id@[i]).1.0 < self.defs@.len() by {
                if i < old_keys.len() {
                    assert(self.key_to_id@[i] == old_keys[i]);
                }
            }
            assert(self@.defs =~= old(self)@.defs.push(self.defs@[self.defs@.len() - 1]@));
        }
        type_id
    }

    /// The handle of a struct: the one registered under the same key (its
    /// declaration when it is named, its field types otherwise), or a new one.
    pub fn insert_struct(&mut self, struct_type: CIRStructType) -> (r: CIRTypeContextID)
        requires
            old(self).wf(),
            spec_record_key_in(old(self)@, struct_type@.decl_key, struct_type@.fields, false, old(self)@.defs.len()) is Some,
        ensures
            final(self).wf(),
            final(self)@.target_info == old(self)@.target_info,
            final(self).spec_in_progress() == old(self).spec_in_progress(),
            final(self).spec_fat_ptr_id() == old(self).spec_fat_ptr_id(),
            (r.0, final(self)@.defs, final(self).spec_keys()) == spec_register(
                old(self)@.defs,
                old(self).spec_keys(),
                spec_record_key_in(old(self)@, struct_type@.decl_key, struct_type@.fields, false, old(self)@.defs.len()).unwrap(),
                CIRTypeDefView::Struct(struct_type@),
            ),
    {
        let key = self.record_key_in(struct_type.decl_key, &struct_type.fields, false, Ghost(self@.defs.len()));
        self.register(key, CIRTypeDef::Struct(struct_type))
    }

    /// The handle of a union, deduplicated as structs are.
    pub fn insert_union(&mut self, union_type: CIRUnionType) -> (r: CIRTypeContextID)
        requires
            old(self).wf(),
            spec_record_key_in(old(self)@, union_type@.decl_key, union_type@.fields, true, old(self)@.defs.len()) is Some,
        ensures
            final(self).wf(),
            final(self)@.target_info == old(self)@.target_info,
            final(self).spec_in_progress() == old(self).spec_in_progress(),
            final(self).spec_fat_ptr_id() == old(self).spec_fat_ptr_id(),
            (r.0, final(self)@.defs, final(self).spec_keys()) == spec_register(
                old(self)@.defs,
                old(self).spec_keys(),
                spec_record_key_in(old(self)@, union_type@.decl_key, union_type@.fields, true, old(self)@.defs.len()).unwrap(),
                CIRTypeDefView::Union(union_type@),
            ),
    {
        let key = self.record_key_in(union_type.decl_key, &union_type.fields, true, Ghost(self@.defs.len()));
        self.register(key, CIRTypeDef::Union(union_type))
    }

    /// The handle of an enum: by its declaration when it is named, else by
    /// its variants' payload types and its tag type.
    pub fn insert_enum(&mut self, enum_type: CIREnumType) -> (r: CIRTypeContextID)
        requires
            old(self).wf(),
            spec_enum_key_in(old(self)@, enum_type@, old(self)@.defs.len()) is Some,
        ensures
            final(self).wf(),
            final(self)@.target_info == old(self)@.target_info,
            final(self).spec_in_progress() == old(self).spec_in_progress(),
            final(self).spec_fat_ptr_id() == old(self).spec_fat_ptr_id(),
            (r.0, final(self)@.defs, final(self).spec_keys()) == spec_register(
                old(self)@.defs,
                old(self).spec_keys(),
                spec_enum_key_in(old(self)@, enum_type@, old(self)@.defs.len()).unwrap(),
                CIRTypeDefView::Enum(enum_type@),
            ),
    {
        let key = self.enum_key_in(&enum_type, Ghost(self@.defs.len()));
        self.register(key, CIRTypeDef::Enum(enum_type))
    }

    /// The handle registered for a named type's declaration key.
    pub fn get_named_type(&self, decl_key: u64) -> (r: Option<CIRTypeContextID>)
        ensures
            match r {
                Some(id) => spec_find_key(self.spec_keys(), CIRTypeKeyView::Named(decl_key)) == Some(id.0),
                None => spec_find_key(self.spec_keys(), CIRTypeKeyView::Named(decl_key)) is None,
            },
    {
        let key = CIRTypeKey::Named(decl_key);
        self.find_key(&key)
    }

    /// Replaces the definition at `id` (a placeholder, once its real type is
    /// known); the registered keys stay as they were.
    pub fn update_def(&mut self, id: CIRTypeContextID, def: CIRTypeDef)
        requires
            old(self).wf(),
            id.0 < old(self)@.defs.len(),
        ensures
            final(self).wf(),
            final(self)@.target_info == old(self)@.target_info,
            final(self)@.defs == old(self)@.defs.update(id.0 as int, def@),
            final(self).spec_keys() == old(self).spec_keys(),
            final(self).spec_in_progress() == old(self).spec_in_progress(),
            final(self).spec_fat_ptr_id() == old(self).spec_fat_ptr_id(),
    {
        self.defs.set(id.0, def);
        proof {
            assert(self@.defs =~= old(self)@.defs.update(id.0 as int, def@));
        }
    }

    /// Records the handle of a named type whose lowering has started.
    pub fn start_lowering(&mut self, decl_key: u64, handle: CIRTypeContextID)
        requires
            old(self).wf(),
        ensures
            final(self).wf(),
            final(self)@ == old(self)@,
            final(self).spec_keys() == old(self).spec_keys(),
            final(self).spec_fat_ptr_id() == old(self).spec_fat_ptr_id(),
            final(self).spec_in_progress() == old(self).spec_in_progress().insert(decl_key, handle.0),
    {
        in_progress_insert(&mut self.in_progress, decl_key, handle);
    }

    /// Forgets a named type whose lowering has finished.
    pub fn finish_lowering(&mut self, decl_key: u64)
        requires
            old(self).wf(),
        ensures
            final(self).wf(),
            final(self)@ == old(self)@,
            final(self).spec_keys() == old(self).spec_keys(),
            final(self).spec_fat_ptr_id() == old(self).spec_fat_ptr_id(),
            final(self).spec_in_progress() == old(self).spec_in_progress().remove(decl_key),
    {
        in_progress_remove(&mut self.in_progress, &decl_key);
    }

    /// Whether a named type's lowering is under way.
    pub fn is_lowering(&self, decl_key: u64) -> (r: bool)
        ensures
            r == self.spec_in_progress().dom().contains(decl_key),
    {
        in_progress_contains(&self.in_progress, &decl_key)
    }

    /// The handle of a named type whose lowering is under way.
    pub fn get_in_progress_handle(&self, decl_key: u64) -> (r: CIRTypeContextID)
        requires
            self.spec_in_progress().dom().contains(decl_key),
        ensures
            r.0 == self.spec_in_progress()[decl_key],
    {
        match in_progress_get(&self.in_progress, &decl_key) {
            Some(id) => id,
            None => vstd::pervasive::unreached(),
        }
    }
}


proof fn lemma_find_key_push(keys: Seq<(CIRTypeKeyView, usize)>, entry: (CIRTypeKeyView, usize), key: CIRTypeKeyView)
    ensures
        spec_find_key(keys.push(entry), key) == match spec_find_key(keys, key) {
            Some(id) => Some(id),
            None => if entry.0 == key { Some(entry.1) } else { None },
        },
    decreases keys.len(),
{
    if keys.len() > 0 {
        assert(keys.push(entry)[0] == keys[0]);
        assert(keys.push(entry).drop_first() =~= keys.drop_first().push(entry));
        lemma_find_key_push(keys.drop_first(), entry, key);
    } else {
        assert(keys.push(entry)[0] == entry);
        assert(keys.push(entry).drop_first() =~= Seq::<(CIRTypeKeyView, usize)>::empty());
        assert(spec_find_key(Seq::<(CIRTypeKeyView, usize)>::empty(), key) is None);
    }
}

/// Distinct entries of a key list carry distinct handles, each naming one of
/// `n` definitions.
pub open spec fn spec_handles_distinct(keys: Seq<(CIRTypeKeyView, usize)>, n: int) -> bool {
    &&& forall|i: int| 0 <= i < keys.len() ==> (#[trigger] keys[i]).1 < n
    &&& forall|i: int, j: int| 0 <= i < keys.len() && 0 <= j < keys.len() && i != j ==> (#[trigger] keys[i]).1 != (#[trigger] keys[j]).1
}

proof fn lemma_find_key_entry(keys: Seq<(CIRTypeKeyView, usize)>, key: CIRTypeKeyView)
    ensures
        spec_find_key(keys, key) matches Some(h) ==> exists|i: int| 0 <= i < keys.len() && (#[trigger] keys[i]).0 == key && keys[i].1 == h,
        spec_find_key(keys, key) is None ==> forall|i: int| 0 <= i < keys.len() ==> (#[trigger] keys[i]).0 != key,
    decreases keys.len(),
{
    if keys.len() > 0 {
        lemma_find_key_entry(keys.drop_first(), key);
        if keys[0].0 != key {
            if let Some(h) = spec_find_key(keys, key) {
                let i = choose|i: int| 0 <= i < keys.drop_first().len() && (#[trigger] keys.drop_first()[i]).0 == key
                    && keys.drop_first()[i].1 == h;
                assert(keys[i + 1] == keys.drop_first()[i]);
            } else {
                assert forall|i: int| 0 <= i < keys.len() implies (#[trigger] keys[i]).0 != key by {
                    if i > 0 {
                        assert(keys[i] == keys.drop_first()[i - 1]);
                    }
                }
            }
        }
    }
}

/// Registering keeps distinct entries' handles distinct.
pub proof fn lemma_register_keeps_handles_distinct(
    defs: Seq<CIRTypeDefView>,
    keys: Seq<(CIRTypeKeyView, usize)>,
    key: CIRTypeKeyView,
    def: CIRTypeDefView,
)
    requires
        spec_handles_distinct(keys, defs.len() as int),
        defs.len() <= usize::MAX,
    ensures
        ({
            let (id, defs2, keys2) = spec_register(defs, keys, key, def);
            &&& spec_handles_distinct(keys2, defs2.len() as int)
            &&& id < defs2.len()
        }),
{
    lemma_find_key_entry(keys, key);
    if spec_find_key(keys, key) is None {
        let keys2 = keys.push((key, defs.len() as usize));
        assert forall|i: int, j: int| 0 <= i < keys2.len() && 0 <= j < keys2.len() && i != j implies (#[trigger] keys2[i]).1
            != (#[trigger] keys2[j]).1 by {
            if i < keys.len() {
                assert(keys2[i] == keys[i]);
            }
            if j < keys.len() {
                assert(keys2[j] == keys[j]);
            }
        }
        assert forall|i: int| 0 <= i < keys2.len() implies (#[trigger] keys2[i]).1 < defs.len() + 1 by {
            if i < keys.len() {
                assert(keys2[i] == keys[i]);
            }
        }
    }
}

/// Interning: of two registrations in a row, the handles are the same
/// exactly when the keys are equal.
pub proof fn lemma_register_distinct_keys(
    defs: Seq<CIRTypeDefView>,
    keys: Seq<(CIRTypeKeyView, usize)>,
    k1: CIRTypeKeyView,
    d1: CIRTypeDefView,
    k2: CIRTypeKeyView,
    d2: CIRTypeDefView,
)
    requires
        spec_handles_distinct(keys, defs.len() as int),
        defs.len() + 1 < usize::MAX,
    ensures
        ({
            let (a, defs1, keys1) = spec_register(defs, keys, k1, d1);
            let (b, defs2, keys2) = spec_register(defs1, keys1, k2, d2);
            a == b <==> k1 == k2
        }),
{
    let (a, defs1, keys1) = spec_register(defs, keys, k1, d1);
    let (b, defs2, keys2) = spec_register(defs1, keys1, k2, d2);
    lemma_register_again(defs, keys, k1, d1, d2);
    lemma_find_key_entry(keys, k1);
    lemma_find_key_entry(keys, k2);
    if k1 != k2 {
        lemma_find_key_push(keys, (k1, defs.len() as usize), k2);
        match (spec_find_key(keys, k1), spec_find_key(keys, k2)) {
            (Some(h1), Some(h2)) => {
                let i = choose|i: int| 0 <= i < keys.len() && (#[trigger] keys[i]).0 == k1 && keys[i].1 == h1;
                let j = choose|j: int| 0 <= j < keys.len() && (#[trigger] keys[j]).0 == k2 && keys[j].1 == h2;
                assert(keys[i].1 != keys[j].1);
            },
            (Some(h1), None) => {
                let i = choose|i: int| 0 <= i < keys.len() && (#[trigger] keys[i]).0 == k1 && keys[i].1 == h1;
                assert(keys[i].1 < defs.len());
            },
            (None, Some(h2)) => {
                let j = choose|j: int| 0 <= j < keys.len() && (#[trigger] keys[j]).0 == k2 && keys[j].1 == h2;
                assert(keys[j].1 < defs.len());
            },
            (None, None) => {},
        }
    }
}

/// Replacing a definition by a struct makes the layout at its handle that
/// struct's layout, computed in the updated context, and leaves the other
/// definitions as they were (no layout is kept from before the update).
pub proof fn lemma_update_def_layout(ctx: CIRTypeContextView, id: int, s2: CIRRecordView, other: int)
    requires
        0 <= id < ctx.defs.len(),
    ensures
        ({
            let ctx2 = CIRTypeContextView { target_info: ctx.target_info, defs: ctx.defs.update(id, CIRTypeDefView::Struct(s2)) };
            &&& spec_def_layout(ctx2, id) == spec_struct_layout_in(ctx2, s2, ctx2.defs.len())
            &&& (0 <= other < ctx.defs.len() && other != id ==> ctx2.defs[other] == ctx.defs[other])
        }),
{
}

/// Registering under a key a second time gives back the first handle and
/// changes nothing.
pub proof fn lemma_register_again(
    defs: Seq<CIRTypeDefView>,
    keys: Seq<(CIRTypeKeyView, usize)>,
    key: CIRTypeKeyView,
    def: CIRTypeDefView,
    def2: CIRTypeDefView,
)
    ensures
        ({
            let (id, defs2, keys2) = spec_register(defs, keys, key, def);
            &&& spec_find_key(keys2, key) == Some(id)
            &&& spec_register(defs2, keys2, key, def2) == (id, defs2, keys2)
        }),
{
    lemma_find_key_push(keys, (key, defs.len() as usize), key);
}

/// Deduplication of structs: inserting a struct that was just inserted gives
/// back the same handle and leaves the definitions and keys as they are (the
/// struct's key does not change when definitions are added).
pub proof fn lemma_insert_struct_again(ctx: CIRTypeContextView, keys: Seq<(CIRTypeKeyView, usize)>, s: CIRRecordView)
    requires
        spec_record_key_in(ctx, s.decl_key, s.fields, false, ctx.defs.len()) is Some,
    ensures
        ({
            let key = spec_record_key_in(ctx, s.decl_key, s.fields, false, ctx.defs.len()).unwrap();
            let (id, defs2, keys2) = spec_register(ctx.defs, keys, key, CIRTypeDefView::Struct(s));
            let ctx2 = CIRTypeContextView { target_info: ctx.target_info, defs: defs2 };
            &&& spec_record_key_in(ctx2, s.decl_key, s.fields, false, defs2.len()) == Some(key)
            &&& spec_register(defs2, keys2, key, CIRTypeDefView::Struct(s)) == (id, defs2, keys2)
        }),
{
    let key = spec_record_key_in(ctx, s.decl_key, s.fields, false, ctx.defs.len()).unwrap();
    let (id, defs2, keys2) = spec_register(ctx.defs, keys, key, CIRTypeDefView::Struct(s));
    let ctx2 = CIRTypeContextView { target_info: ctx.target_info, defs: defs2 };
    assert(crate::cir::typekey::spec_ctx_extends(ctx, ctx2));
    crate::cir::typekey::lemma_record_key_stable(ctx, ctx2, s.decl_key, s.fields, false, ctx.defs.len(), defs2.len());
    lemma_register_again(ctx.defs, keys, key, CIRTypeDefView::Struct(s), CIRTypeDefView::Struct(s));
}

/// Deduplication of unions, as for structs.
pub proof fn lemma_insert_union_again(ctx: CIRTypeContextView, keys: Seq<(CIRTypeKeyView, usize)>, u: CIRRecordView)
    requires
        spec_record_key_in(ctx, u.decl_key, u.fields, true, ctx.defs.len()) is Some,
    ensures
        ({
            let key = spec_record_key_in(ctx, u.decl_key, u.fields, true, ctx.defs.len()).unwrap();
            let (id, defs2, keys2) = spec_register(ctx.defs, keys, key, CIRTypeDefView::Union(u));
            let ctx2 = CIRTypeContextView { target_info: ctx.target_info, defs: defs2 };
            &&& spec_record_key_in(ctx2, u.decl_key, u.fields, true, defs2.len()) == Some(key)
            &&& spec_register(defs2, keys2, key, CIRTypeDefView::Union(u)) == (id, defs2, keys2)
        }),
{
    let key = spec_record_key_in(ctx, u.decl_key, u.fields, true, ctx.defs.len()).unwrap();
    let (id, defs2, keys2) = spec_register(ctx.defs, keys, key, CIRTypeDefView::Union(u));
    let ctx2 = CIRTypeContextView { target_info: ctx.target_info, defs: defs2 };
    assert(crate::cir::typekey::spec_ctx_extends(ctx, ctx2));
    crate::cir::typekey::lemma_record_key_stable(ctx, ctx2, u.decl_key, u.fields, true, ctx.defs.len(), defs2.len());
    lemma_register_again(ctx.defs, keys, key, CIRTypeDefView::Union(u), CIRTypeDefView::Union(u));
}

/// Deduplication of enums, as for structs.
pub proof fn lemma_insert_enum_again(ctx: CIRTypeContextView, keys: Seq<(CIRTypeKeyView, usize)>, e: CIREnumTypeView)
    requires
        spec_enum_key_in(ctx, e, ctx.defs.len()) is Some,
    ensures
        ({
            let key = spec_enum_key_in(ctx, e, ctx.defs.len()).unwrap();
            let (id, defs2, keys2) = spec_register(ctx.defs, keys, key, CIRTypeDefView::Enum(e));
            let ctx2 = CIRTypeContextView { target_info: ctx.target_info, defs: defs2 };
            &&& spec_enum_key_in(ctx2, e, defs2.len()) == Some(key)
            &&& spec_register(defs2, keys2, key, CIRTypeDefView::Enum(e)) == (id, defs2, keys2)
        }),
{
    let key = spec_enum_key_in(ctx, e, ctx.defs.len()).unwrap();
    let (id, defs2, keys2) = spec_register(ctx.defs, keys, key, CIRTypeDefView::Enum(e));
    let ctx2 = CIRTypeContextView { target_info: ctx.target_info, defs: defs2 };
    assert(crate::cir::typekey::spec_ctx_extends(ctx, ctx2));
    crate::cir::typekey::lemma_enum_key_stable(ctx, ctx2, e, ctx.defs.len(), defs2.len());
    lemma_register_again(ctx.defs, keys, key, CIRTypeDefView::Enum(e), CIRTypeDefView::Enum(e));
}

/// A named struct is found by its declaration key once it is inserted: the
/// lookup gives the handle the insertion returned.
pub proof fn lemma_named_struct_found(ctx: CIRTypeContextView, keys: Seq<(CIRTypeKeyView, usize)>, s: CIRRecordView, d: u64)
    requires
        s.decl_key == Some(d),
    ensures
        ({
            let (id, defs2, keys2) = spec_register(ctx.defs, keys, CIRTypeKeyView::Named(d), CIRTypeDefView::Struct(s));
            spec_find_key(keys2, CIRTypeKeyView::Named(d)) == Some(id)
        }),
{
    lemma_register_again(ctx.defs, keys, CIRTypeKeyView::Named(d), CIRTypeDefView::Struct(s), CIRTypeDefView::Struct(s));
}

/// The handle recorded when a lowering starts is the one found for it, and a
/// finished lowering is no longer under way; other declarations keep their
/// state.
pub proof fn lemma_lowering_handles(m: Map<u64, usize>, decl_key: u64, handle: usize, other: u64)
    requires
        other != decl_key,
    ensures
        m.insert(decl_key, handle).dom().contains(decl_key),
        m.insert(decl_key, handle)[decl_key] == handle,
        !m.insert(decl_key, handle).remove(decl_key).dom().contains(decl_key),
        m.insert(decl_key, handle).remove(decl_key).dom().contains(other) == m.dom().contains(other),
{
}

} // verus!
