//! The keys that identify a type definition for deduplication: named types by
//! their declaration, anonymous ones by their structure.
use crate::cir::layout_spec::{CIRTypeContextView, CIRTypeDefView};
use crate::cir::types::{
    spec_const_inner, spec_tag_type, CIREnumTypeView, CIREnumVariantView, CIRTypeView, PlainType,
};
use vstd::prelude::*;

verus! {

broadcast use vstd::std_specs::vec::group_vec_axioms;

/// The key of a type.
#[derive(Debug)]
pub enum CIRTypeKey {
    Named(u64),
    AnonStruct(Vec<CIRTypeKey>),
    AnonUnion(Vec<CIRTypeKey>),
    AnonEnum { variants: Vec<EnumVariantKey>, tag: Box<CIRTypeKey> },
    Plain(PlainType),
    Pointer(Box<CIRTypeKey>),
    Array(Box<CIRTypeKey>, usize),
    FuncType(Vec<CIRTypeKey>, Box<CIRTypeKey>, bool),
    Dynamic,
}

/// The key of an enum variant: its payload's shape without its name or tag.
#[derive(Debug)]
pub enum EnumVariantKey {
    Unit,
    Valued(Box<CIRTypeKey>),
    Payload(Vec<CIRTypeKey>),
}

pub enum CIRTypeKeyView {
    Named(u64),
    AnonStruct(Seq<CIRTypeKeyView>),
    AnonUnion(Seq<CIRTypeKeyView>),
    AnonEnum(Seq<EnumVariantKeyView>, Box<CIRTypeKeyView>),
    Plain(PlainType),
    Pointer(Box<CIRTypeKeyView>),
    Array(Box<CIRTypeKeyView>, usize),
    FuncType(Seq<CIRTypeKeyView>, Box<CIRTypeKeyView>, bool),
    Dynamic,
}

pub enum EnumVariantKeyView {
    Unit,
    Valued(Box<CIRTypeKeyView>),
    Payload(Seq<CIRTypeKeyView>),
}

pub open spec fn spec_key_view(k: CIRTypeKey) -> CIRTypeKeyView
    decreases k,
{
    match k {
        CIRTypeKey::Named(d) => CIRTypeKeyView::Named(d),
        CIRTypeKey::AnonStruct(fs) => CIRTypeKeyView::AnonStruct(spec_key_views(fs@)),
        CIRTypeKey::AnonUnion(fs) => CIRTypeKeyView::AnonUnion(spec_key_views(fs@)),
        CIRTypeKey::AnonEnum { variants, tag } => CIRTypeKeyView::AnonEnum(
            spec_variant_key_views(variants@),
            Box::new(spec_key_view(*tag)),
        ),
        CIRTypeKey::Plain(p) => CIRTypeKeyView::Plain(p),
        CIRTypeKey::Pointer(i) => CIRTypeKeyView::Pointer(Box::new(spec_key_view(*i))),
        CIRTypeKey::Array(e, n) => CIRTypeKeyView::Array(Box::new(spec_key_view(*e)), n),
        CIRTypeKey::FuncType(ps, r, v) => CIRTypeKeyView::FuncType(spec_key_views(ps@), Box::new(spec_key_view(*r)), v),
        CIRTypeKey::Dynamic => CIRTypeKeyView::Dynamic,
    }
}

pub open spec fn spec_key_views(s: Seq<CIRTypeKey>) -> Seq<CIRTypeKeyView>
    decreases s,
{
    if s.len() == 0 {
        Seq::empty()
    } else {
        spec_key_views(s.drop_last()).push(spec_key_view(s.last()))
    }
}

pub open spec fn spec_variant_key_view(v: EnumVariantKey) -> EnumVariantKeyView
    decreases v,
{
    match v {
        EnumVariantKey::Unit => EnumVariantKeyView::Unit,
        EnumVariantKey::Valued(t) => EnumVariantKeyView::Valued(Box::new(spec_key_view(*t))),
        EnumVariantKey::Payload(fs) => EnumVariantKeyView::Payload(spec_key_views(fs@)),
    }
}

pub open spec fn spec_variant_key_views(s: Seq<EnumVariantKey>) -> Seq<EnumVariantKeyView>
    decreases s,
{
    if s.len() == 0 {
        Seq::empty()
    } else {
        spec_variant_key_views(s.drop_last()).push(spec_variant_key_view(s.last()))
    }
}

impl View for CIRTypeKey {
    type V = CIRTypeKeyView;

    open spec fn view(&self) -> CIRTypeKeyView {
        spec_key_view(*self)
    }
}

pub broadcast proof fn lemma_key_views_index(s: Seq<CIRTypeKey>)
    ensures
        #[trigger] spec_key_views(s).len() == s.len(),
        forall|i: int| 0 <= i < s.len() ==> #[trigger] spec_key_views(s)[i] == spec_key_view(s[i]),
    decreases s.len(),
{
    if s.len() > 0 {
        lemma_key_views_index(s.drop_last());
    }
}

pub broadcast proof fn lemma_variant_key_views_index(s: Seq<EnumVariantKey>)
    ensures
        #[trigger] spec_variant_key_views(s).len() == s.len(),
        forall|i: int| 0 <= i < s.len() ==> #[trigger] spec_variant_key_views(s)[i] == spec_variant_key_view(s[i]),
    decreases s.len(),
{
    if s.len() > 0 {
        lemma_variant_key_views_index(s.drop_last());
    }
}

/// Structural equality of two keys.
pub fn key_eq(a: &CIRTypeKey, b: &CIRTypeKey) -> (r: bool)
    ensures
        r == (a@ == b@),
    decreases a,
{
    match (a, b) {
        (CIRTypeKey::Named(x), CIRTypeKey::Named(y)) => *x == *y,
        (CIRTypeKey::AnonStruct(x), CIRTypeKey::AnonStruct(y)) => keys_eq(x, y),
        (CIRTypeKey::AnonUnion(x), CIRTypeKey::AnonUnion(y)) => keys_eq(x, y),
        (CIRTypeKey::AnonEnum { variants: v1, tag: t1 }, CIRTypeKey::AnonEnum { variants: v2, tag: t2 }) => {
            key_eq(t1, t2) && variant_keys_eq(v1, v2)
        },
        (CIRTypeKey::Plain(x), CIRTypeKey::Plain(y)) => *x == *y,
        (CIRTypeKey::Pointer(x), CIRTypeKey::Pointer(y)) => key_eq(x, y),
        (CIRTypeKey::Array(x, n), CIRTypeKey::Array(y, m)) => *n == *m && key_eq(x, y),
        (CIRTypeKey::FuncType(p1, r1, v1), CIRTypeKey::FuncType(p2, r2, v2)) => {
            *v1 == *v2 && key_eq(r1, r2) && keys_eq(p1, p2)
        },
        (CIRTypeKey::Dynamic, CIRTypeKey::Dynamic) => true,
        _ => false,
    }
}

/// Element-wise equality of two lists of keys.
pub fn keys_eq(a: &Vec<CIRTypeKey>, b: &Vec<CIRTypeKey>) -> (r: bool)
    ensures
        r == (spec_key_views(a@) == spec_key_views(b@)),
    decreases a,
{
    proof {
        lemma_key_views_index(a@);
        lemma_key_views_index(b@);
    }
    if a.len() != b.len() {
        return false;
    }
    let mut i: usize = 0;
    while i < a.len()
        invariant
            a.len() == b.len(),
            i <= a.len(),
            forall|j: int| 0 <= j < i ==> a@[j]@ == b@[j]@,
        decreases a.len() - i,
    {
        proof {
            lemma_key_views_index(a@);
            lemma_key_views_index(b@);
        }
        if !key_eq(&a[i], &b[i]) {
            proof { assert(spec_key_views(a@)[i as int] != spec_key_views(b@)[i as int]); }
            return false;
        }
        i = i + 1;
    }
    proof { assert(spec_key_views(a@) =~= spec_key_views(b@)); }
    true
}

fn variant_key_eq(a: &EnumVariantKey, b: &EnumVariantKey) -> (r: bool)
    ensures
        r == (spec_variant_key_view(*a) == spec_variant_key_view(*b)),
    decreases a,
{
    match (a, b) {
        (EnumVariantKey::Unit, EnumVariantKey::Unit) => true,
        (EnumVariantKey::Valued(x), EnumVariantKey::Valued(y)) => key_eq(x, y),
        (EnumVariantKey::Payload(x), EnumVariantKey::Payload(y)) => keys_eq(x, y),
        _ => false,
    }
}

fn variant_keys_eq(a: &Vec<EnumVariantKey>, b: &Vec<EnumVariantKey>) -> (r: bool)
    ensures
        r == (spec_variant_key_views(a@) == spec_variant_key_views(b@)),
    decreases a,
{
    proof {
        lemma_variant_key_views_index(a@);
        lemma_variant_key_views_index(b@);
    }
    if a.len() != b.len() {
        return false;
    }
    let mut i: usize = 0;
    while i < a.len()
        invariant
            a.len() == b.len(),
            i <= a.len(),
            forall|j: int| 0 <= j < i ==> spec_variant_key_view(a@[j]) == spec_variant_key_view(b@[j]),
        decreases a.len() - i,
    {
        proof {
            lemma_variant_key_views_index(a@);
            lemma_variant_key_views_index(b@);
        }
        if !variant_key_eq(&a[i], &b[i]) {
            proof { assert(spec_variant_key_views(a@)[i as int] != spec_variant_key_views(b@)[i as int]); }
            return false;
        }
        i = i + 1;
    }
    proof { assert(spec_variant_key_views(a@) =~= spec_variant_key_views(b@)); }
    true
}

/// A measure of a type that shrinks into every part of it, function
/// parameters included.
pub open spec fn spec_type_size(t: CIRTypeView) -> nat
    decreases t,
{
    match t {
        CIRTypeView::Const(i) => 1 + spec_type_size(*i),
        CIRTypeView::Pointer(i) => 1 + spec_type_size(*i),
        CIRTypeView::Array(e, _) => 1 + spec_type_size(*e),
        CIRTypeView::FuncType(ps, _, r, _) => 1 + spec_type_sizes(ps) + spec_type_size(*r),
        _ => 1,
    }
}

pub open spec fn spec_type_sizes(s: Seq<CIRTypeView>) -> nat
    decreases s,
{
    if s.len() == 0 {
        0
    } else {
        spec_type_sizes(s.drop_last()) + spec_type_size(s.last())
    }
}

pub proof fn lemma_const_inner_size(t: CIRTypeView)
    ensures
        spec_type_size(spec_const_inner(t)) <= spec_type_size(t),
    decreases t,
{
    if let CIRTypeView::Const(i) = t {
        lemma_const_inner_size(*i);
    }
}

/// The key of a type in a context, following at most `bound` references to
/// stored definitions in a row: a stored type by the key of its definition,
/// everything else by its structure (`const` is not part of a key); `None`
/// where a reference is dangling or mistyped or the chain is too long.
pub open spec fn spec_type_key_in(ctx: CIRTypeContextView, t: CIRTypeView, bound: nat) -> Option<CIRTypeKeyView>
    decreases bound, 0nat, spec_type_size(t), 0nat,
{
    let inner = spec_const_inner(t);
    proof {
        lemma_const_inner_size(t);
    }
    match inner {
        CIRTypeView::Plain(p) => Some(CIRTypeKeyView::Plain(p)),
        CIRTypeView::Pointer(i) => match spec_type_key_in(ctx, *i, bound) {
            None => None,
            Some(k) => Some(CIRTypeKeyView::Pointer(Box::new(k))),
        },
        CIRTypeView::Array(e, n) => match spec_type_key_in(ctx, *e, bound) {
            None => None,
            Some(k) => Some(CIRTypeKeyView::Array(Box::new(k), n)),
        },
        CIRTypeView::Struct(id) => if bound > 0 && id < ctx.defs.len() {
            match ctx.defs[id as int] {
                CIRTypeDefView::Struct(r) => spec_record_key_in(ctx, r.decl_key, r.fields, false, (bound - 1) as nat),
                _ => None,
            }
        } else {
            None
        },
        CIRTypeView::Union(id) => if bound > 0 && id < ctx.defs.len() {
            match ctx.defs[id as int] {
                CIRTypeDefView::Union(r) => spec_record_key_in(ctx, r.decl_key, r.fields, true, (bound - 1) as nat),
                _ => None,
            }
        } else {
            None
        },
        CIRTypeView::Enum(id) => if bound > 0 && id < ctx.defs.len() {
            match ctx.defs[id as int] {
                CIRTypeDefView::Enum(e) => spec_enum_key_in(ctx, e, (bound - 1) as nat),
                _ => None,
            }
        } else {
            None
        },
        CIRTypeView::FuncType(ps, v, r, _) => match (spec_type_keys_in(ctx, ps, bound), spec_type_key_in(ctx, *r, bound)) {
            (Some(pk), Some(rk)) => Some(CIRTypeKeyView::FuncType(pk, Box::new(rk), v)),
            _ => None,
        },
        CIRTypeView::Dynamic(_) => Some(CIRTypeKeyView::Dynamic),
        CIRTypeView::Const(_) => None,
    }
}

/// The keys of a list of types.
pub open spec fn spec_type_keys_in(ctx: CIRTypeContextView, s: Seq<CIRTypeView>, bound: nat) -> Option<Seq<CIRTypeKeyView>>
    decreases bound, 0nat, spec_type_sizes(s), 1nat,
{
    if s.len() == 0 {
        Some(Seq::empty())
    } else {
        proof {
            assert(spec_type_size(s.last()) >= 1);
        }
        match (spec_type_keys_in(ctx, s.drop_last(), bound), spec_type_key_in(ctx, s.last(), bound)) {
            (Some(ks), Some(k)) => Some(ks.push(k)),
            _ => None,
        }
    }
}

/// The key of a struct or union: its declaration when it is named, the keys
/// of its fields otherwise.
pub open spec fn spec_record_key_in(
    ctx: CIRTypeContextView,
    decl_key: Option<u64>,
    fields: Seq<CIRTypeView>,
    is_union: bool,
    bound: nat,
) -> Option<CIRTypeKeyView>
    decreases bound, 1nat, 0nat, 0nat,
{
    match decl_key {
        Some(d) => Some(CIRTypeKeyView::Named(d)),
        None => match spec_type_keys_in(ctx, fields, bound) {
            None => None,
            Some(ks) => Some(if is_union { CIRTypeKeyView::AnonUnion(ks) } else { CIRTypeKeyView::AnonStruct(ks) }),
        },
    }
}

/// The keys of enum variants.
pub open spec fn spec_variant_keys_in(ctx: CIRTypeContextView, vs: Seq<CIREnumVariantView>, bound: nat) -> Option<Seq<EnumVariantKeyView>>
    decreases bound, 2nat, vs.len(), 0nat,
{
    if vs.len() == 0 {
        Some(Seq::empty())
    } else {
        let k: Option<EnumVariantKeyView> = match vs.last() {
            CIREnumVariantView::Unit(_, _) => Some(EnumVariantKeyView::Unit),
            CIREnumVariantView::Valued(_, ty, _) => match spec_type_key_in(ctx, ty, bound) {
                None => None,
                Some(k) => Some(EnumVariantKeyView::Valued(Box::new(k))),
            },
            CIREnumVariantView::Payload(_, r, _) => match spec_type_keys_in(ctx, r.fields, bound) {
                None => None,
                Some(ks) => Some(EnumVariantKeyView::Payload(ks)),
            },
        };
        match (spec_variant_keys_in(ctx, vs.drop_last(), bound), k) {
            (Some(ks), Some(k)) => Some(ks.push(k)),
            _ => None,
        }
    }
}

/// The key of an enum: its declaration when it is named, else the keys of
/// its variants and of its tag type.
pub open spec fn spec_enum_key_in(ctx: CIRTypeContextView, e: CIREnumTypeView, bound: nat) -> Option<CIRTypeKeyView>
    decreases bound, 3nat, 0nat, 0nat,
{
    match e.decl_key {
        Some(d) => Some(CIRTypeKeyView::Named(d)),
        None => match (spec_variant_keys_in(ctx, e.variants, bound), spec_type_key_in(ctx, spec_tag_type(e), bound)) {
            (Some(vks), Some(tk)) => Some(CIRTypeKeyView::AnonEnum(vks, Box::new(tk))),
            _ => None,
        },
    }
}


/// `big` keeps every definition of `small` at its position and may hold more.
pub open spec fn spec_ctx_extends(small: CIRTypeContextView, big: CIRTypeContextView) -> bool {
    &&& small.defs.len() <= big.defs.len()
    &&& forall|i: int| 0 <= i < small.defs.len() ==> big.defs[i] == small.defs[i]
}

/// A key computed in a context stays the same in any context that extends
/// it, with at least as much room to follow references.
pub proof fn lemma_type_key_stable(c1: CIRTypeContextView, c2: CIRTypeContextView, t: CIRTypeView, b1: nat, b2: nat)
    requires
        spec_ctx_extends(c1, c2),
        b1 <= b2,
        spec_type_key_in(c1, t, b1) is Some,
    ensures
        spec_type_key_in(c2, t, b2) == spec_type_key_in(c1, t, b1),
    decreases b1, 0nat, spec_type_size(t), 0nat,
{
    lemma_const_inner_size(t);
    match spec_const_inner(t) {
        CIRTypeView::Pointer(i) => lemma_type_key_stable(c1, c2, *i, b1, b2),
        CIRTypeView::Array(e, _) => lemma_type_key_stable(c1, c2, *e, b1, b2),
        CIRTypeView::Struct(id) => if b1 > 0 && id < c1.defs.len() {
            if let CIRTypeDefView::Struct(r) = c1.defs[id as int] {
                lemma_record_key_stable(c1, c2, r.decl_key, r.fields, false, (b1 - 1) as nat, (b2 - 1) as nat);
            }
        },
        CIRTypeView::Union(id) => if b1 > 0 && id < c1.defs.len() {
            if let CIRTypeDefView::Union(r) = c1.defs[id as int] {
                lemma_record_key_stable(c1, c2, r.decl_key, r.fields, true, (b1 - 1) as nat, (b2 - 1) as nat);
            }
        },
        CIRTypeView::Enum(id) => if b1 > 0 && id < c1.defs.len() {
            if let CIRTypeDefView::Enum(e) = c1.defs[id as int] {
                lemma_enum_key_stable(c1, c2, e, (b1 - 1) as nat, (b2 - 1) as nat);
            }
        },
        CIRTypeView::FuncType(ps, _, r, _) => {
            lemma_type_keys_stable(c1, c2, ps, b1, b2);
            lemma_type_key_stable(c1, c2, *r, b1, b2);
        },
        _ => {},
    }
}

pub proof fn lemma_type_keys_stable(c1: CIRTypeContextView, c2: CIRTypeContextView, s: Seq<CIRTypeView>, b1: nat, b2: nat)
    requires
        spec_ctx_extends(c1, c2),
        b1 <= b2,
        spec_type_keys_in(c1, s, b1) is Some,
    ensures
        spec_type_keys_in(c2, s, b2) == spec_type_keys_in(c1, s, b1),
    decreases b1, 0nat, spec_type_sizes(s), 1nat,
{
    if s.len() > 0 {
        assert(spec_type_size(s.last()) >= 1);
        lemma_type_keys_stable(c1, c2, s.drop_last(), b1, b2);
        lemma_type_key_stable(c1, c2, s.last(), b1, b2);
    }
}

pub proof fn lemma_record_key_stable(
    c1: CIRTypeContextView,
    c2: CIRTypeContextView,
    decl_key: Option<u64>,
    fields: Seq<CIRTypeView>,
    is_union: bool,
    b1: nat,
    b2: nat,
)
    requires
        spec_ctx_extends(c1, c2),
        b1 <= b2,
        spec_record_key_in(c1, decl_key, fields, is_union, b1) is Some,
    ensures
        spec_record_key_in(c2, decl_key, fields, is_union, b2) == spec_record_key_in(c1, decl_key, fields, is_union, b1),
    decreases b1, 1nat, 0nat, 0nat,
{
    if decl_key is None {
        lemma_type_keys_stable(c1, c2, fields, b1, b2);
    }
}

pub proof fn lemma_variant_keys_stable(c1: CIRTypeContextView, c2: CIRTypeContextView, vs: Seq<CIREnumVariantView>, b1: nat, b2: nat)
    requires
        spec_ctx_extends(c1, c2),
        b1 <= b2,
        spec_variant_keys_in(c1, vs, b1) is Some,
    ensures
        spec_variant_keys_in(c2, vs, b2) == spec_variant_keys_in(c1, vs, b1),
    decreases b1, 2nat, vs.len(), 0nat,
{
    if vs.len() > 0 {
        lemma_variant_keys_stable(c1, c2, vs.drop_last(), b1, b2);
        match vs.last() {
            CIREnumVariantView::Valued(_, ty, _) => lemma_type_key_stable(c1, c2, ty, b1, b2),
            CIREnumVariantView::Payload(_, r, _) => lemma_type_keys_stable(c1, c2, r.fields, b1, b2),
            _ => {},
        }
    }
}

pub proof fn lemma_enum_key_stable(c1: CIRTypeContextView, c2: CIRTypeContextView, e: CIREnumTypeView, b1: nat, b2: nat)
    requires
        spec_ctx_extends(c1, c2),
        b1 <= b2,
        spec_enum_key_in(c1, e, b1) is Some,
    ensures
        spec_enum_key_in(c2, e, b2) == spec_enum_key_in(c1, e, b1),
    decreases b1, 3nat, 0nat, 0nat,
{
    if e.decl_key is None {
        lemma_variant_keys_stable(c1, c2, e.variants, b1, b2);
        lemma_type_key_stable(c1, c2, spec_tag_type(e), b1, b2);
    }
}

} // verus!
