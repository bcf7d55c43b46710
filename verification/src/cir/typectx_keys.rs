//! Computing the deduplication keys of types in a type context.
use crate::cir::layout_spec::CIRTypeDefView;
use crate::cir::typectx::{CIRTypeContext, CIRTypeDef};
use crate::cir::typekey::{
    lemma_key_views_index, lemma_variant_key_views_index, spec_enum_key_in, spec_key_views, spec_record_key_in,
    spec_type_key_in, spec_type_keys_in, spec_type_size, spec_type_sizes, spec_variant_key_view,
    spec_variant_key_views, spec_variant_keys_in, CIRTypeKey, CIRTypeKeyView, EnumVariantKey,
    EnumVariantKeyView,
};
use crate::cir::types::{
    lemma_cir_views_index, spec_cir_views, spec_variant_views, CIREnumType, CIREnumVariant, CIREnumVariantView,
    CIRType, CIRTypeView,
};
use vstd::prelude::*;

verus! {

broadcast use vstd::std_specs::vec::group_vec_axioms;

/// The keys of a list of types are, one by one, the keys of its elements.
proof fn lemma_type_keys_index(ctx: crate::cir::layout_spec::CIRTypeContextView, s: Seq<CIRTypeView>, bound: nat)
    requires
        spec_type_keys_in(ctx, s, bound) is Some,
    ensures
        spec_type_keys_in(ctx, s, bound).unwrap().len() == s.len(),
        forall|i: int|
            0 <= i < s.len() ==> spec_type_key_in(ctx, #[trigger] s[i], bound) == Some(
                spec_type_keys_in(ctx, s, bound).unwrap()[i],
            ),
    decreases s.len(),
{
    if s.len() > 0 {
        lemma_type_keys_index(ctx, s.drop_last(), bound);
        assert forall|i: int| 0 <= i < s.len() implies spec_type_key_in(ctx, #[trigger] s[i], bound) == Some(
            spec_type_keys_in(ctx, s, bound).unwrap()[i],
        ) by {
            if i < s.len() - 1 {
                assert(s[i] == s.drop_last()[i]);
            }
        }
    }
}

/// Every element of a list is no larger than the whole list.
proof fn lemma_type_sizes_bound(s: Seq<CIRTypeView>)
    ensures
        forall|i: int| 0 <= i < s.len() ==> spec_type_size(#[trigger] s[i]) <= spec_type_sizes(s),
    decreases s.len(),
{
    if s.len() > 0 {
        lemma_type_sizes_bound(s.drop_last());
        assert forall|i: int| 0 <= i < s.len() implies spec_type_size(#[trigger] s[i]) <= spec_type_sizes(s) by {
            if i < s.len() - 1 {
                assert(s[i] == s.drop_last()[i]);
            }
        }
    }
}

/// The key of one variant, as the variant list's key computes it.
pub open spec fn spec_variant_key_in(ctx: crate::cir::layout_spec::CIRTypeContextView, v: CIREnumVariantView, bound: nat) -> Option<
    EnumVariantKeyView,
> {
    match v {
        CIREnumVariantView::Unit(_, _) => Some(EnumVariantKeyView::Unit),
        CIREnumVariantView::Valued(_, ty, _) => match spec_type_key_in(ctx, ty, bound) {
            None => None,
            Some(k) => Some(EnumVariantKeyView::Valued(Box::new(k))),
        },
        CIREnumVariantView::Payload(_, r, _) => match spec_type_keys_in(ctx, r.fields, bound) {
            None => None,
            Some(ks) => Some(EnumVariantKeyView::Payload(ks)),
        },
    }
}

proof fn lemma_variant_keys_index(ctx: crate::cir::layout_spec::CIRTypeContextView, vs: Seq<CIREnumVariantView>, bound: nat)
    requires
        spec_variant_keys_in(ctx, vs, bound) is Some,
    ensures
        spec_variant_keys_in(ctx, vs, bound).unwrap().len() == vs.len(),
        forall|i: int|
            0 <= i < vs.len() ==> spec_variant_key_in(ctx, #[trigger] vs[i], bound) == Some(
                spec_variant_keys_in(ctx, vs, bound).unwrap()[i],
            ),
    decreases vs.len(),
{
    if vs.len() > 0 {
        lemma_variant_keys_index(ctx, vs.drop_last(), bound);
        assert forall|i: int| 0 <= i < vs.len() implies spec_variant_key_in(ctx, #[trigger] vs[i], bound) == Some(
            spec_variant_keys_in(ctx, vs, bound).unwrap()[i],
        ) by {
            if i < vs.len() - 1 {
                assert(vs[i] == vs.drop_last()[i]);
            }
        }
    }
}

impl CIRTypeContext {
    pub(crate) fn type_to_key_in(&self, ty: &CIRType, Ghost(bound): Ghost<nat>) -> (r: CIRTypeKey)
        requires
            spec_type_key_in(self@, ty@, bound) is Some,
        ensures
            Some(r@) == spec_type_key_in(self@, ty@, bound),
        decreases bound, 0nat, spec_type_size(ty@), 0nat,
    {
        proof { crate::cir::typekey::lemma_const_inner_size(ty@); }
        match ty.const_inner() {
            CIRType::Plain(plain_type) => CIRTypeKey::Plain(*plain_type),
            CIRType::Pointer(inner) => CIRTypeKey::Pointer(Box::new(self.type_to_key_in(inner, Ghost(bound)))),
            CIRType::Array(array_type) => CIRTypeKey::Array(
                Box::new(self.type_to_key_in(&array_type.element_type, Ghost(bound))),
                array_type.len,
            ),
            CIRType::Struct(type_id) => {
                let def = self.def_at(type_id.0);
                match def {
                    CIRTypeDef::Struct(s) => self.record_key_in(s.decl_key, &s.fields, false, Ghost((bound - 1) as nat)),
                    _ => vstd::pervasive::unreached(),
                }
            },
            CIRType::Union(type_id) => {
                let def = self.def_at(type_id.0);
                match def {
                    CIRTypeDef::Union(u) => self.record_key_in(u.decl_key, &u.fields, true, Ghost((bound - 1) as nat)),
                    _ => vstd::pervasive::unreached(),
                }
            },
            CIRType::Enum(type_id) => {
                let def = self.def_at(type_id.0);
                match def {
                    CIRTypeDef::Enum(e) => self.enum_key_in(e, Ghost((bound - 1) as nat)),
                    _ => vstd::pervasive::unreached(),
                }
            },
            CIRType::FuncType(func_type) => {
                let params = self.type_keys_in(&func_type.params, Ghost(bound));
                let ret = self.type_to_key_in(&func_type.ret_type, Ghost(bound));
                CIRTypeKey::FuncType(params, Box::new(ret), func_type.is_var)
            },
            CIRType::Dynamic(_) => CIRTypeKey::Dynamic,
            CIRType::Const(_) => vstd::pervasive::unreached(),
        }
    }

    pub(crate) fn type_keys_in(&self, types: &Vec<CIRType>, Ghost(bound): Ghost<nat>) -> (r: Vec<CIRTypeKey>)
        requires
            spec_type_keys_in(self@, spec_cir_views(types@), bound) is Some,
        ensures
            Some(spec_key_views(r@)) == spec_type_keys_in(self@, spec_cir_views(types@), bound),
        decreases bound, 0nat, spec_type_sizes(spec_cir_views(types@)), 1nat,
    {
        let ghost tv = spec_cir_views(types@);
        let ghost ks = spec_type_keys_in(self@, tv, bound).unwrap();
        proof {
            lemma_type_keys_index(self@, tv, bound);
            lemma_cir_views_index(types@);
            lemma_type_sizes_bound(tv);
        }
        let mut out: Vec<CIRTypeKey> = Vec::new();
        let mut i: usize = 0;
        while i < types.len()
            invariant
                i <= types.len(),
                tv == spec_cir_views(types@),
                tv.len() == types.len(),
                ks.len() == types.len(),
                forall|j: int| 0 <= j < types.len() ==> #[trigger] tv[j] == types@[j]@,
                forall|j: int| 0 <= j < tv.len() ==> spec_type_key_in(self@, #[trigger] tv[j], bound) == Some(ks[j]),
                forall|j: int| 0 <= j < tv.len() ==> spec_type_size(#[trigger] tv[j]) <= spec_type_sizes(tv),
                spec_key_views(out@) =~= ks.take(i as int),
            decreases types.len() - i,
        {
            proof { assert(tv[i as int] == types@[i as int]@); }
            let k = self.type_to_key_in(&types[i], Ghost(bound));
            let ghost old_out = out@;
            out.push(k);
            proof {
                lemma_key_views_index(old_out);
                lemma_key_views_index(out@);
                assert(spec_key_views(out@) =~= ks.take(i as int + 1));
            }
            i = i + 1;
        }
        proof { assert(ks.take(i as int) =~= ks); }
        out
    }

    pub(crate) fn record_key_in(&self, decl_key: Option<u64>, fields: &Vec<CIRType>, is_union: bool, Ghost(bound): Ghost<nat>) -> (r:
        CIRTypeKey)
        requires
spec_record_key_in(self@, decl_key, spec_cir_views(fields@), is_union, bound) is Some,
        ensures
            Some(r@) == spec_record_key_in(self@, decl_key, spec_cir_views(fields@), is_union, bound),
        decreases bound, 1nat, 0nat, 0nat,
    {
        match decl_key {
            Some(d) => CIRTypeKey::Named(d),
            None => {
                let keys = self.type_keys_in(fields, Ghost(bound));
                if is_union {
                    CIRTypeKey::AnonUnion(keys)
                } else {
                    CIRTypeKey::AnonStruct(keys)
                }
            },
        }
    }

    pub(crate) fn variant_keys_in(&self, variants: &Vec<CIREnumVariant>, Ghost(bound): Ghost<nat>) -> (r: Vec<EnumVariantKey>)
        requires
            spec_variant_keys_in(self@, spec_variant_views(variants@), bound) is Some,
        ensures
            Some(spec_variant_key_views(r@)) == spec_variant_keys_in(self@, spec_variant_views(variants@), bound),
        decreases bound, 2nat, variants@.len(), 0nat,
    {
        let ghost vv = spec_variant_views(variants@);
        let ghost ks = spec_variant_keys_in(self@, vv, bound).unwrap();
        proof {
            lemma_variant_keys_index(self@, vv, bound);
        }
        let mut out: Vec<EnumVariantKey> = Vec::new();
        let mut i: usize = 0;
        while i < variants.len()
            invariant
                i <= variants.len(),
                vv == spec_variant_views(variants@),
                vv.len() == variants.len(),
                ks.len() == variants.len(),
                forall|j: int| 0 <= j < variants.len() ==> #[trigger] vv[j] == variants@[j]@,
                forall|j: int| 0 <= j < vv.len() ==> spec_variant_key_in(self@, #[trigger] vv[j], bound) == Some(ks[j]),
                spec_variant_key_views(out@) =~= ks.take(i as int),
            decreases variants.len() - i,
        {
            proof { assert(vv[i as int] == variants@[i as int]@); }
            let k = match &variants[i] {
                CIREnumVariant::Unit(..) => EnumVariantKey::Unit,
                CIREnumVariant::Valued(_, ty, _) => EnumVariantKey::Valued(Box::new(self.type_to_key_in(ty, Ghost(bound)))),
                CIREnumVariant::Payload(_, struct_type, _) => EnumVariantKey::Payload(
                    self.type_keys_in(&struct_type.fields, Ghost(bound)),
                ),
            };
            assert(Some(spec_variant_key_view(k)) == spec_variant_key_in(self@, vv[i as int], bound));
            let ghost old_out = out@;
            out.push(k);
            proof {
                lemma_variant_key_views_index(old_out);
                lemma_variant_key_views_index(out@);
                assert(spec_variant_key_views(out@) =~= ks.take(i as int + 1));
            }
            i = i + 1;
        }
        proof { assert(ks.take(i as int) =~= ks); }
        out
    }

    pub(crate) fn enum_key_in(&self, enum_type: &CIREnumType, Ghost(bound): Ghost<nat>) -> (r: CIRTypeKey)
        requires
            spec_enum_key_in(self@, enum_type@, bound) is Some,
        ensures
            Some(r@) == spec_enum_key_in(self@, enum_type@, bound),
        decreases bound, 3nat, 0nat, 0nat,
    {
        match enum_type.decl_key {
            Some(d) => CIRTypeKey::Named(d),
            None => {
                let variants = self.variant_keys_in(&enum_type.variants, Ghost(bound));
                let tag = enum_type.tag_type_or_infer_or_default();
                let tag_key = self.type_to_key_in(&tag, Ghost(bound));
                CIRTypeKey::AnonEnum { variants, tag: Box::new(tag_key) }
            },
        }
    }
}

} // verus!
