use crate::abi::args::{ABIFunctionInfo, ABIFunctionInfoView};
use crate::abi::callconv::{CallConv, ReprAttr, ReprKind};
use vstd::prelude::*;

verus! {

broadcast use vstd::std_specs::vec::group_vec_axioms;

/// Built-in scalar types of the language.
#[derive(Debug, Clone, Copy, PartialEq, Eq, Structural, Hash)]
pub enum PlainType {
    Int,
    Int8,
    Int16,
    Int32,
    Int64,
    Int128,
    UInt,
    UInt8,
    UInt16,
    UInt32,
    UInt64,
    UInt128,
    ISize,
    USize,
    IntPtr,
    UIntPtr,
    Float16,
    Float32,
    Float64,
    Float128,
    Char,
    Bool,
    Void,
    Null,
}

pub open spec fn spec_plain_is_integer(p: PlainType) -> bool {
    match p {
        PlainType::Int | PlainType::Int8 | PlainType::Int16 | PlainType::Int32 | PlainType::Int64
        | PlainType::Int128 | PlainType::UInt | PlainType::UInt8 | PlainType::UInt16 | PlainType::UInt32
        | PlainType::UInt64 | PlainType::UInt128 | PlainType::ISize | PlainType::USize | PlainType::IntPtr
        | PlainType::UIntPtr => true,
        _ => false,
    }
}

pub open spec fn spec_plain_is_signed(p: PlainType) -> bool {
    match p {
        PlainType::Int | PlainType::Int8 | PlainType::Int16 | PlainType::Int32 | PlainType::Int64
        | PlainType::Int128 | PlainType::ISize | PlainType::IntPtr => true,
        _ => false,
    }
}

pub open spec fn spec_plain_is_float(p: PlainType) -> bool {
    match p {
        PlainType::Float16 | PlainType::Float32 | PlainType::Float64 | PlainType::Float128 => true,
        _ => false,
    }
}

impl PlainType {
    pub fn is_integer(&self) -> (r: bool)
        ensures
            r == spec_plain_is_integer(*self),
    {
        match self {
            PlainType::Int | PlainType::Int8 | PlainType::Int16 | PlainType::Int32 | PlainType::Int64
            | PlainType::Int128 | PlainType::UInt | PlainType::UInt8 | PlainType::UInt16
            | PlainType::UInt32 | PlainType::UInt64 | PlainType::UInt128 | PlainType::ISize
            | PlainType::USize | PlainType::IntPtr | PlainType::UIntPtr => true,
            _ => false,
        }
    }

    pub fn is_signed(&self) -> (r: bool)
        ensures
            r == spec_plain_is_signed(*self),
    {
        match self {
            PlainType::Int | PlainType::Int8 | PlainType::Int16 | PlainType::Int32 | PlainType::Int64
            | PlainType::Int128 | PlainType::ISize | PlainType::IntPtr => true,
            _ => false,
        }
    }

    pub fn is_float(&self) -> (r: bool)
        ensures
            r == spec_plain_is_float(*self),
    {
        match self {
            PlainType::Float16 | PlainType::Float32 | PlainType::Float64 | PlainType::Float128 => true,
            _ => false,
        }
    }

    pub fn is_void(&self) -> (r: bool)
        ensures
            r == (*self == PlainType::Void),
    {
        match self {
            PlainType::Void => true,
            _ => false,
        }
    }

    pub fn is_char(&self) -> (r: bool)
        ensures
            r == (*self == PlainType::Char),
    {
        match self {
            PlainType::Char => true,
            _ => false,
        }
    }

    /// Integers, floats, characters and booleans are scalars.
    pub fn is_scalar(&self) -> (r: bool)
        ensures
            r == (spec_plain_is_integer(*self) || spec_plain_is_float(*self) || *self == PlainType::Char
                || *self == PlainType::Bool),
    {
        self.is_integer() || self.is_float() || self.is_char() || match self {
            PlainType::Bool => true,
            _ => false,
        }
    }
}

/// A handle to a type definition stored in a type context.
#[derive(Debug, Clone, Copy, PartialEq, Eq, Structural, Hash)]
pub struct CIRTypeContextID(pub usize);

/// Types of the compiler's intermediate representation.
#[derive(Debug)]
pub enum CIRType {
    Struct(CIRTypeContextID),
    Enum(CIRTypeContextID),
    Union(CIRTypeContextID),
    Plain(PlainType),
    Const(Box<CIRType>),
    Pointer(Box<CIRType>),
    FuncType(CIRFuncType),
    Array(CIRArrayType),
    Dynamic(CIRDynamicType),
}

/// An interface object: a data pointer and a vtable pointer.
#[derive(Debug, Clone, Copy, PartialEq, Eq, Structural)]
pub struct CIRDynamicType {
    pub vtable_id: u64,
}

#[derive(Debug)]
pub struct CIRArrayType {
    pub element_type: Box<CIRType>,
    pub len: usize,
}

#[derive(Debug)]
pub struct CIRFuncType {
    pub params: Vec<CIRType>,
    pub is_var: bool,
    pub ret_type: Box<CIRType>,
    pub callconv: CallConv,
    pub abi_func_info: Option<ABIFunctionInfo>,
}

/// A struct type; the declaration key, when present, identifies a named type.
#[derive(Debug)]
pub struct CIRStructType {
    pub decl_key: Option<u64>,
    pub name: Option<String>,
    pub fields: Vec<CIRType>,
    pub repr_attr: Option<ReprAttr>,
    pub align: Option<usize>,
}

#[derive(Debug)]
pub struct CIRUnionType {
    pub decl_key: Option<u64>,
    pub name: Option<String>,
    pub fields: Vec<CIRType>,
    pub repr_attr: Option<ReprAttr>,
    pub align: Option<usize>,
}

/// A variant of an enum with its name and tag.
#[derive(Debug)]
pub enum CIREnumVariant {
    Unit(String, u32),
    Valued(String, CIRType, u32),
    Payload(String, CIRStructType, u32),
}

#[derive(Debug)]
pub struct CIREnumType {
    pub decl_key: Option<u64>,
    pub name: Option<String>,
    pub variants: Vec<CIREnumVariant>,
    pub repr_attr: Option<ReprAttr>,
    pub align: Option<usize>,
    pub tag_type: Option<Box<CIRType>>,
}

/// The value of a type: the same shape, with sequences in place of vectors.
/// Function types are compared by parameters, variadic flag, return type and
/// calling convention.
pub enum CIRTypeView {
    Struct(usize),
    Enum(usize),
    Union(usize),
    Plain(PlainType),
    Const(Box<CIRTypeView>),
    Pointer(Box<CIRTypeView>),
    FuncType(Seq<CIRTypeView>, bool, Box<CIRTypeView>, CallConv),
    Array(Box<CIRTypeView>, usize),
    Dynamic(u64),
}

/// The value of a struct or union type.
pub struct CIRRecordView {
    pub decl_key: Option<u64>,
    pub name: Option<Seq<char>>,
    pub fields: Seq<CIRTypeView>,
    pub repr_attr: Option<ReprAttr>,
    pub align: Option<usize>,
}

pub enum CIREnumVariantView {
    Unit(Seq<char>, u32),
    Valued(Seq<char>, CIRTypeView, u32),
    Payload(Seq<char>, CIRRecordView, u32),
}

pub struct CIREnumTypeView {
    pub decl_key: Option<u64>,
    pub name: Option<Seq<char>>,
    pub variants: Seq<CIREnumVariantView>,
    pub repr_attr: Option<ReprAttr>,
    pub align: Option<usize>,
    pub tag_type: Option<CIRTypeView>,
}

pub open spec fn spec_name_view(n: Option<String>) -> Option<Seq<char>> {
    match n {
        Some(s) => Some(s@),
        None => None,
    }
}

pub open spec fn spec_cir_view(t: CIRType) -> CIRTypeView
    decreases t,
{
    match t {
        CIRType::Struct(id) => CIRTypeView::Struct(id.0),
        CIRType::Enum(id) => CIRTypeView::Enum(id.0),
        CIRType::Union(id) => CIRTypeView::Union(id.0),
        CIRType::Plain(p) => CIRTypeView::Plain(p),
        CIRType::Const(i) => CIRTypeView::Const(Box::new(spec_cir_view(*i))),
        CIRType::Pointer(i) => CIRTypeView::Pointer(Box::new(spec_cir_view(*i))),
        CIRType::FuncType(f) => CIRTypeView::FuncType(
            spec_cir_views(f.params@),
            f.is_var,
            Box::new(spec_cir_view(*f.ret_type)),
            f.callconv,
        ),
        CIRType::Array(a) => CIRTypeView::Array(Box::new(spec_cir_view(*a.element_type)), a.len),
        CIRType::Dynamic(d) => CIRTypeView::Dynamic(d.vtable_id),
    }
}

pub open spec fn spec_cir_views(s: Seq<CIRType>) -> Seq<CIRTypeView>
    decreases s,
{
    if s.len() == 0 {
        Seq::empty()
    } else {
        spec_cir_views(s.drop_last()).push(spec_cir_view(s.last()))
    }
}

/// The views of a list of types keep its length and view each element.
pub broadcast proof fn lemma_cir_views_index(s: Seq<CIRType>)
    ensures
        #[trigger] spec_cir_views(s).len() == s.len(),
        forall|i: int| 0 <= i < s.len() ==> #[trigger] spec_cir_views(s)[i] == spec_cir_view(s[i]),
    decreases s.len(),
{
    if s.len() > 0 {
        lemma_cir_views_index(s.drop_last());
    }
}

impl View for CIRType {
    type V = CIRTypeView;

    open spec fn view(&self) -> CIRTypeView {
        spec_cir_view(*self)
    }
}

impl View for CIRStructType {
    type V = CIRRecordView;

    open spec fn view(&self) -> CIRRecordView {
        CIRRecordView {
            decl_key: self.decl_key,
            name: spec_name_view(self.name),
            fields: spec_cir_views(self.fields@),
            repr_attr: self.repr_attr,
            align: self.align,
        }
    }
}

impl View for CIRUnionType {
    type V = CIRRecordView;

    open spec fn view(&self) -> CIRRecordView {
        CIRRecordView {
            decl_key: self.decl_key,
            name: spec_name_view(self.name),
            fields: spec_cir_views(self.fields@),
            repr_attr: self.repr_attr,
            align: self.align,
        }
    }
}

pub open spec fn spec_variant_view(v: CIREnumVariant) -> CIREnumVariantView {
    match v {
        CIREnumVariant::Unit(n, t) => CIREnumVariantView::Unit(n@, t),
        CIREnumVariant::Valued(n, ty, t) => CIREnumVariantView::Valued(n@, ty@, t),
        CIREnumVariant::Payload(n, s, t) => CIREnumVariantView::Payload(n@, s@, t),
    }
}

pub open spec fn spec_variant_views(s: Seq<CIREnumVariant>) -> Seq<CIREnumVariantView> {
    Seq::new(s.len(), |i: int| spec_variant_view(s[i]))
}

impl View for CIREnumVariant {
    type V = CIREnumVariantView;

    open spec fn view(&self) -> CIREnumVariantView {
        spec_variant_view(*self)
    }
}

impl View for CIREnumType {
    type V = CIREnumTypeView;

    open spec fn view(&self) -> CIREnumTypeView {
        CIREnumTypeView {
            decl_key: self.decl_key,
            name: spec_name_view(self.name),
            variants: spec_variant_views(self.variants@),
            repr_attr: self.repr_attr,
            align: self.align,
            tag_type: match self.tag_type {
                Some(t) => Some(spec_cir_view(*t)),
                None => None,
            },
        }
    }
}

/// A type with any `const` wrappers removed.
pub open spec fn spec_const_inner(t: CIRTypeView) -> CIRTypeView
    decreases t,
{
    match t {
        CIRTypeView::Const(i) => spec_const_inner(*i),
        _ => t,
    }
}

pub open spec fn spec_is_integer(t: CIRTypeView) -> bool {
    spec_const_inner(t) matches CIRTypeView::Plain(p) && spec_plain_is_integer(p)
}

pub open spec fn spec_is_signed_integer(t: CIRTypeView) -> bool {
    spec_const_inner(t) matches CIRTypeView::Plain(p) && spec_plain_is_integer(p) && spec_plain_is_signed(p)
}

pub open spec fn spec_is_bool(t: CIRTypeView) -> bool {
    spec_const_inner(t) == CIRTypeView::Plain(PlainType::Bool)
}

pub open spec fn spec_is_integer_or_bool(t: CIRTypeView) -> bool {
    spec_is_integer(t) || spec_is_bool(t)
}

pub open spec fn spec_is_float(t: CIRTypeView) -> bool {
    spec_const_inner(t) matches CIRTypeView::Plain(p) && spec_plain_is_float(p)
}

pub open spec fn spec_is_void(t: CIRTypeView) -> bool {
    spec_const_inner(t) == CIRTypeView::Plain(PlainType::Void)
}

/// Whether a plain type of the given kind sits under the `const` wrappers.
pub open spec fn spec_is_plain(t: CIRTypeView, p: PlainType) -> bool {
    spec_const_inner(t) == CIRTypeView::Plain(p)
}

/// Whether an enum declares an explicit C representation.
pub open spec fn spec_enum_is_repr_c(e: CIREnumTypeView) -> bool {
    match e.repr_attr {
        Some(r) => r.kind == Some(ReprKind::C),
        None => false,
    }
}

/// Whether some variant of the enum is not a unit variant.
pub open spec fn spec_includes_payload(e: CIREnumTypeView) -> bool {
    exists|i: int| 0 <= i < e.variants.len() && !(#[trigger] e.variants[i] is Unit)
}

/// Whether every variant is a unit variant or carries an integer or boolean value.
pub open spec fn spec_includes_only_integer_payload(e: CIREnumTypeView) -> bool {
    forall|i: int|
        0 <= i < e.variants.len() ==> match #[trigger] e.variants[i] {
            CIREnumVariantView::Valued(_, ty, _) => spec_is_integer_or_bool(ty),
            CIREnumVariantView::Unit(_, _) => true,
            CIREnumVariantView::Payload(_, _, _) => false,
        }
}

/// The type shared by all valued variants, scanning from the first;
/// `None` when there is no valued variant or two of them disagree.
pub open spec fn spec_variant_expr_type(vs: Seq<CIREnumVariantView>) -> Option<CIRTypeView>
    decreases vs.len(),
{
    spec_variant_expr_type_from(vs, None)
}

/// Scan of the valued variants that starts from the type inferred so far.
pub open spec fn spec_variant_expr_type_from(vs: Seq<CIREnumVariantView>, acc: Option<CIRTypeView>) -> Option<CIRTypeView>
    decreases vs.len(),
{
    if vs.len() == 0 {
        acc
    } else {
        match vs[0] {
            CIREnumVariantView::Valued(_, ty, _) => match acc {
                None => spec_variant_expr_type_from(vs.drop_first(), Some(ty)),
                Some(existing) => if existing != ty {
                    None
                } else {
                    spec_variant_expr_type_from(vs.drop_first(), acc)
                },
            },
            _ => spec_variant_expr_type_from(vs.drop_first(), acc),
        }
    }
}

/// The enum's tag type: the declared one; else, when every variant carries an
/// integer or boolean value or none, the common value type; else `int32`.
pub open spec fn spec_tag_type(e: CIREnumTypeView) -> CIRTypeView {
    match e.tag_type {
        Some(t) => t,
        None => {
            let inferred = if spec_includes_only_integer_payload(e) {
                spec_variant_expr_type(e.variants)
            } else {
                None
            };
            match inferred {
                Some(t) => t,
                None => CIRTypeView::Plain(PlainType::Int32),
            }
        },
    }
}

/// An enum is represented by its tag alone when it is `repr(C)`, when its
/// values share one integer type, or when it has no payloads.
pub open spec fn spec_is_scalar_optimizable(e: CIREnumTypeView) -> bool {
    spec_enum_is_repr_c(e) || (spec_variant_expr_type(e.variants) is Some && spec_includes_only_integer_payload(e))
        || !spec_includes_payload(e)
}

pub open spec fn spec_is_packed(r: Option<ReprAttr>) -> bool {
    match r {
        Some(a) => a.packed,
        None => false,
    }
}


/// Structural equality of two types (function types compared as by their view).
pub fn cir_type_eq(a: &CIRType, b: &CIRType) -> (r: bool)
    ensures
        r == (a@ == b@),
    decreases a,
{
    match (a, b) {
        (CIRType::Struct(x), CIRType::Struct(y)) => x.0 == y.0,
        (CIRType::Enum(x), CIRType::Enum(y)) => x.0 == y.0,
        (CIRType::Union(x), CIRType::Union(y)) => x.0 == y.0,
        (CIRType::Plain(x), CIRType::Plain(y)) => *x == *y,
        (CIRType::Const(x), CIRType::Const(y)) => cir_type_eq(x, y),
        (CIRType::Pointer(x), CIRType::Pointer(y)) => cir_type_eq(x, y),
        (CIRType::FuncType(f), CIRType::FuncType(g)) => {
            f.is_var == g.is_var && f.callconv == g.callconv && cir_type_eq(&f.ret_type, &g.ret_type)
                && cir_types_eq(&f.params, &g.params)
        },
        (CIRType::Array(x), CIRType::Array(y)) => x.len == y.len && cir_type_eq(&x.element_type, &y.element_type),
        (CIRType::Dynamic(x), CIRType::Dynamic(y)) => x.vtable_id == y.vtable_id,
        _ => false,
    }
}

/// Element-wise equality of two lists of types.
pub fn cir_types_eq(a: &Vec<CIRType>, b: &Vec<CIRType>) -> (r: bool)
    ensures
        r == (spec_cir_views(a@) == spec_cir_views(b@)),
    decreases a,
{
    proof {
        lemma_cir_views_index(a@);
        lemma_cir_views_index(b@);
    }
    if a.len() != b.len() {
        return false;
    }
    let mut i: usize = 0;
    while i < a.len()
        invariant
            a.len() == b.len(),
            i <= a.len(),
            forall|j: int| 0 <= j < i ==> a@[j]@ == b@[j]@,
        decreases a.len() - i,
    {
        proof {
            lemma_cir_views_index(a@);
            lemma_cir_views_index(b@);
        }
        if !cir_type_eq(&a[i], &b[i]) {
            proof { assert(spec_cir_views(a@)[i as int] != spec_cir_views(b@)[i as int]); }
            return false;
        }
        i = i + 1;
    }
    proof { assert(spec_cir_views(a@) =~= spec_cir_views(b@)); }
    true
}

/// Equality of two optional names.
fn names_eq(a: &Option<String>, b: &Option<String>) -> (r: bool)
    ensures
        r == (spec_name_view(*a) == spec_name_view(*b)),
{
    match (a, b) {
        (Some(x), Some(y)) => crate::strings::str_eq(x.as_str(), y.as_str()),
        (None, None) => true,
        _ => false,
    }
}

impl CIRStructType {
    /// Whether two struct types agree in every part.
    pub fn eq(&self, other: &CIRStructType) -> (r: bool)
        ensures
            r == (self@ == other@),
    {
        let same_key = match (self.decl_key, other.decl_key) {
            (Some(x), Some(y)) => x == y,
            (None, None) => true,
            _ => false,
        };
        let same_repr = match (self.repr_attr, other.repr_attr) {
            (Some(x), Some(y)) => x == y,
            (None, None) => true,
            _ => false,
        };
        let same_align = match (self.align, other.align) {
            (Some(x), Some(y)) => x == y,
            (None, None) => true,
            _ => false,
        };
        same_key && names_eq(&self.name, &other.name) && cir_types_eq(&self.fields, &other.fields) && same_repr
            && same_align
    }
}

/// Two variants are equal when they are of the same kind with the same name
/// and the same type or payload; their tags are not compared.
pub open spec fn spec_variant_eq(a: CIREnumVariantView, b: CIREnumVariantView) -> bool {
    match (a, b) {
        (CIREnumVariantView::Unit(n1, _), CIREnumVariantView::Unit(n2, _)) => n1 == n2,
        (CIREnumVariantView::Valued(n1, t1, _), CIREnumVariantView::Valued(n2, t2, _)) => n1 == n2 && t1 == t2,
        (CIREnumVariantView::Payload(n1, s1, _), CIREnumVariantView::Payload(n2, s2, _)) => n1 == n2 && s1 == s2,
        _ => false,
    }
}

impl CIREnumVariant {
    /// Whether two variants are equal, tags aside (see `spec_variant_eq`).
    pub fn eq(&self, other: &CIREnumVariant) -> (r: bool)
        ensures
            r == spec_variant_eq(self@, other@),
    {
        match (self, other) {
            (CIREnumVariant::Unit(n1, _), CIREnumVariant::Unit(n2, _)) => crate::strings::str_eq(n1.as_str(), n2.as_str()),
            (CIREnumVariant::Valued(n1, t1, _), CIREnumVariant::Valued(n2, t2, _)) => crate::strings::str_eq(
                n1.as_str(),
                n2.as_str(),
            ) && cir_type_eq(t1, t2),
            (CIREnumVariant::Payload(n1, s1, _), CIREnumVariant::Payload(n2, s2, _)) => crate::strings::str_eq(
                n1.as_str(),
                n2.as_str(),
            ) && s1.eq(s2),
            _ => false,
        }
    }
}

/// A copy of a list of types with the same value.
pub fn clone_cir_types(a: &Vec<CIRType>) -> (r: Vec<CIRType>)
    ensures
        spec_cir_views(r@) == spec_cir_views(a@),
    decreases a,
{
    proof { lemma_cir_views_index(a@); }
    let mut out: Vec<CIRType> = Vec::new();
    let mut i: usize = 0;
    while i < a.len()
        invariant
            i <= a.len(),
            out@.len() == i,
            forall|j: int| 0 <= j < i ==> out@[j]@ == a@[j]@,
        decreases a.len() - i,
    {
        let c = a[i].clone();
        out.push(c);
        i = i + 1;
    }
    proof {
        lemma_cir_views_index(out@);
        lemma_cir_views_index(a@);
        assert(spec_cir_views(out@) =~= spec_cir_views(a@));
    }
    out
}

/// The lowering carried by the function type a type is, through `const`.
pub open spec fn spec_const_inner_func_info(t: CIRType) -> Option<ABIFunctionInfoView>
    decreases t,
{
    match t {
        CIRType::Const(inner) => spec_const_inner_func_info(*inner),
        CIRType::FuncType(f) => spec_func_info_view(f.abi_func_info),
        _ => None,
    }
}

/// The lowering a function type carries, by view.
pub open spec fn spec_func_info_view(info: Option<ABIFunctionInfo>) -> Option<ABIFunctionInfoView> {
    match info {
        Some(i) => Some(i@),
        None => None,
    }
}

impl Clone for CIRType {
    fn clone(&self) -> (r: Self)
        ensures
            r@ == self@,
            match (*self, r) {
                (CIRType::FuncType(f), CIRType::FuncType(g)) => spec_func_info_view(g.abi_func_info)
                    == spec_func_info_view(f.abi_func_info),
                _ => true,
            },
        decreases self,
    {
        match self {
            CIRType::Struct(id) => CIRType::Struct(*id),
            CIRType::Enum(id) => CIRType::Enum(*id),
            CIRType::Union(id) => CIRType::Union(*id),
            CIRType::Plain(p) => CIRType::Plain(*p),
            CIRType::Const(i) => CIRType::Const(Box::new((**i).clone())),
            CIRType::Pointer(i) => CIRType::Pointer(Box::new((**i).clone())),
            CIRType::FuncType(f) => CIRType::FuncType(CIRFuncType {
                params: clone_cir_types(&f.params),
                is_var: f.is_var,
                ret_type: Box::new((*f.ret_type).clone()),
                callconv: f.callconv,
                abi_func_info: match &f.abi_func_info {
                    Some(info) => Some(info.clone_info()),
                    None => None,
                },
            }),
            CIRType::Array(a) => CIRType::Array(CIRArrayType {
                element_type: Box::new((*a.element_type).clone()),
                len: a.len,
            }),
            CIRType::Dynamic(d) => CIRType::Dynamic(*d),
        }
    }
}

/// A copy of an optional name.
pub fn clone_name(n: &Option<String>) -> (r: Option<String>)
    ensures
        spec_name_view(r) == spec_name_view(*n),
{
    match n {
        Some(s) => Some(s.clone()),
        None => None,
    }
}

impl CIRStructType {
    pub fn is_packed(&self) -> (r: bool)
        ensures
            r == spec_is_packed(self.repr_attr),
    {
        match &self.repr_attr {
            Some(repr_attr) => repr_attr.is_packed(),
            None => false,
        }
    }

    pub fn clone_struct(&self) -> (r: CIRStructType)
        ensures
            r@ == self@,
    {
        CIRStructType {
            decl_key: self.decl_key,
            name: clone_name(&self.name),
            fields: clone_cir_types(&self.fields),
            repr_attr: self.repr_attr,
            align: self.align,
        }
    }
}

impl CIRUnionType {
    pub fn clone_union(&self) -> (r: CIRUnionType)
        ensures
            r@ == self@,
    {
        CIRUnionType {
            decl_key: self.decl_key,
            name: clone_name(&self.name),
            fields: clone_cir_types(&self.fields),
            repr_attr: self.repr_attr,
            align: self.align,
        }
    }
}

impl CIREnumVariant {
    pub fn tag(&self) -> (r: u32)
        ensures
            r == match self@ {
                CIREnumVariantView::Unit(_, t) => t,
                CIREnumVariantView::Valued(_, _, t) => t,
                CIREnumVariantView::Payload(_, _, t) => t,
            },
    {
        match self {
            CIREnumVariant::Unit(_, tag) => *tag,
            CIREnumVariant::Valued(_, _, tag) => *tag,
            CIREnumVariant::Payload(_, _, tag) => *tag,
        }
    }

    pub fn as_payload(&self) -> (r: Option<&CIRStructType>)
        ensures
            match *self {
                CIREnumVariant::Payload(_, s, _) => r == Some(&s),
                _ => r is None,
            },
    {
        match self {
            CIREnumVariant::Payload(_, struct_type, _) => Some(struct_type),
            _ => None,
        }
    }

    pub fn ident(&self) -> (r: &String)
        ensures
            r@ == match self@ {
                CIREnumVariantView::Unit(n, _) => n,
                CIREnumVariantView::Valued(n, _, _) => n,
                CIREnumVariantView::Payload(n, _, _) => n,
            },
    {
        match self {
            CIREnumVariant::Unit(ident, _) => ident,
            CIREnumVariant::Valued(ident, _, _) => ident,
            CIREnumVariant::Payload(ident, _, _) => ident,
        }
    }

    pub fn clone_variant(&self) -> (r: CIREnumVariant)
        ensures
            r@ == self@,
    {
        match self {
            CIREnumVariant::Unit(n, t) => CIREnumVariant::Unit(n.clone(), *t),
            CIREnumVariant::Valued(n, ty, t) => CIREnumVariant::Valued(n.clone(), ty.clone(), *t),
            CIREnumVariant::Payload(n, s, t) => CIREnumVariant::Payload(n.clone(), s.clone_struct(), *t),
        }
    }
}

/// The name of a variant.
pub open spec fn spec_variant_ident(v: CIREnumVariantView) -> Seq<char> {
    match v {
        CIREnumVariantView::Unit(n, _) => n,
        CIREnumVariantView::Valued(n, _, _) => n,
        CIREnumVariantView::Payload(n, _, _) => n,
    }
}

/// The tag of a variant.
pub open spec fn spec_variant_tag(v: CIREnumVariantView) -> u32 {
    match v {
        CIREnumVariantView::Unit(_, t) => t,
        CIREnumVariantView::Valued(_, _, t) => t,
        CIREnumVariantView::Payload(_, _, t) => t,
    }
}

/// Position of the first variant with the given name.
pub open spec fn spec_find_variant(vs: Seq<CIREnumVariantView>, name: Seq<char>) -> Option<int>
    decreases vs.len(),
{
    if vs.len() == 0 {
        None
    } else if spec_variant_ident(vs.last()) == name && spec_find_variant(vs.drop_last(), name) is None {
        Some(vs.len() - 1)
    } else {
        spec_find_variant(vs.drop_last(), name)
    }
}

impl CIREnumType {
    pub fn is_repr_c(&self) -> (r: bool)
        ensures
            r == spec_enum_is_repr_c(self@),
    {
        if let Some(repr_attr) = &self.repr_attr {
            if let Some(kind) = repr_attr.kind() {
                return match kind {
                    ReprKind::C => true,
                    ReprKind::Cyrus => false,
                    ReprKind::Transparent => false,
                };
            }
        }
        false
    }

    /// The first variant named `variant_name`.
    pub fn lookup_variant(&self, variant_name: &str) -> (r: Option<&CIREnumVariant>)
        ensures
            match spec_find_variant(self@.variants, variant_name@) {
                Some(k) => 0 <= k < self.variants@.len() && r == Some(&self.variants@[k]),
                None => r is None,
            },
    {
        let mut i: usize = 0;
        while i < self.variants.len()
            invariant
                i <= self.variants.len(),
                forall|j: int| 0 <= j < i ==> spec_variant_ident(#[trigger] self@.variants[j]) != variant_name@,
            decreases self.variants.len() - i,
        {
            proof { lemma_find_variant_prefix(self@.variants, variant_name@, i as int); }
            if crate::strings::str_eq(self.variants[i].ident().as_str(), variant_name) {
                proof { lemma_find_variant_first(self@.variants, variant_name@, i as int); }
                return Some(&self.variants[i]);
            }
            i = i + 1;
        }
        proof { lemma_find_variant_none(self@.variants, variant_name@); }
        None
    }

    /// The tag of the first variant named `variant_name`.
    pub fn lookup_variant_tag(&self, variant_name: &str) -> (r: Option<u32>)
        ensures
            match spec_find_variant(self@.variants, variant_name@) {
                Some(k) => r == Some(spec_variant_tag(self@.variants[k])),
                None => r is None,
            },
    {
        match self.lookup_variant(variant_name) {
            Some(v) => Some(v.tag()),
            None => None,
        }
    }

    /// Whether some variant carries a value or payload.
    pub fn includes_payload(&self) -> (r: bool)
        ensures
            r == spec_includes_payload(self@),
    {
        let mut i: usize = 0;
        while i < self.variants.len()
            invariant
                i <= self.variants.len(),
                forall|j: int| 0 <= j < i ==> #[trigger] self@.variants[j] is Unit,
            decreases self.variants.len() - i,
        {
            match &self.variants[i] {
                CIREnumVariant::Unit(_, _) => {},
                _ => {
                    proof { assert(!(self@.variants[i as int] is Unit)); }
                    return true;
                },
            }
            i = i + 1;
        }
        false
    }

    /// Whether every variant is a unit variant or carries an integer or boolean.
    pub fn includes_only_integer_payload(&self) -> (r: bool)
        ensures
            r == spec_includes_only_integer_payload(self@),
    {
        let mut i: usize = 0;
        while i < self.variants.len()
            invariant
                i <= self.variants.len(),
                forall|j: int|
                    0 <= j < i ==> match #[trigger] self@.variants[j] {
                        CIREnumVariantView::Valued(_, ty, _) => spec_is_integer_or_bool(ty),
                        CIREnumVariantView::Unit(_, _) => true,
                        CIREnumVariantView::Payload(_, _, _) => false,
                    },
            decreases self.variants.len() - i,
        {
            let ok = match &self.variants[i] {
                CIREnumVariant::Valued(_, value_type, _) => value_type.is_integer_or_bool(),
                CIREnumVariant::Unit(_, _) => true,
                CIREnumVariant::Payload(_, _, _) => false,
            };
            if !ok {
                proof { assert(self@.variants[i as int] == self.variants@[i as int]@); }
                return false;
            }
            i = i + 1;
        }
        true
    }

    /// The type shared by all valued variants; `None` when there is none or they differ.
    pub fn variant_expr_type(&self) -> (r: Option<Box<CIRType>>)
        ensures
            match r {
                Some(t) => spec_variant_expr_type(self@.variants) == Some(t@),
                None => spec_variant_expr_type(self@.variants) is None,
            },
    {
        let mut expr_type: Option<Box<CIRType>> = None;
        let mut i: usize = 0;
        proof { assert(self@.variants.skip(0) =~= self@.variants); }
        while i < self.variants.len()
            invariant
                i <= self.variants.len(),
                spec_variant_expr_type(self@.variants) == spec_variant_expr_type_from(
                    self@.variants.skip(i as int),
                    match expr_type {
                        Some(t) => Some(t@),
                        None => None,
                    },
                ),
            decreases self.variants.len() - i,
        {
            proof {
                assert(self@.variants.skip(i as int).drop_first() =~= self@.variants.skip(i as int + 1));
                assert(self@.variants.skip(i as int)[0] == self@.variants[i as int]);
            }
            if let CIREnumVariant::Valued(_, value_type, _) = &self.variants[i] {
                match &expr_type {
                    None => {
                        expr_type = Some(Box::new(value_type.clone()));
                    },
                    Some(existing) => {
                        if !cir_type_eq(existing, value_type) {
                            return None;
                        }
                    },
                }
            }
            i = i + 1;
        }
        proof { assert(self@.variants.skip(i as int).len() == 0); }
        expr_type
    }

    /// The enum's tag type: declared, else inferred from integer values, else `int32`.
    pub fn tag_type_or_infer_or_default(&self) -> (r: Box<CIRType>)
        ensures
            r@ == spec_tag_type(self@),
    {
        match &self.tag_type {
            Some(t) => Box::new((**t).clone()),
            None => {
                let inferred = if self.includes_only_integer_payload() {
                    self.variant_expr_type()
                } else {
                    None
                };
                match inferred {
                    Some(t) => t,
                    None => Box::new(CIRType::Plain(PlainType::Int32)),
                }
            },
        }
    }

    /// Whether the enum is represented by its tag alone.
    pub fn is_scalar_optimizable(&self) -> (r: bool)
        ensures
            r == spec_is_scalar_optimizable(self@),
    {
        self.is_repr_c() || (self.variant_expr_type().is_some() && self.includes_only_integer_payload())
            || !self.includes_payload()
    }

    pub fn clone_enum(&self) -> (r: CIREnumType)
        ensures
            r@ == self@,
    {
        let mut variants: Vec<CIREnumVariant> = Vec::new();
        let mut i: usize = 0;
        while i < self.variants.len()
            invariant
                i <= self.variants.len(),
                variants@.len() == i,
                forall|j: int| 0 <= j < i ==> variants@[j]@ == self.variants@[j]@,
            decreases self.variants.len() - i,
        {
            variants.push(self.variants[i].clone_variant());
            i = i + 1;
        }
        proof { assert(spec_variant_views(variants@) =~= spec_variant_views(self.variants@)); }
        CIREnumType {
            decl_key: self.decl_key,
            name: clone_name(&self.name),
            variants,
            repr_attr: self.repr_attr,
            align: self.align,
            tag_type: match &self.tag_type {
                Some(t) => Some(Box::new((**t).clone())),
                None => None,
            },
        }
    }
}

proof fn lemma_find_variant_prefix(vs: Seq<CIREnumVariantView>, name: Seq<char>, i: int)
    requires
        0 <= i <= vs.len(),
        forall|j: int| 0 <= j < i ==> spec_variant_ident(#[trigger] vs[j]) != name,
    ensures
        spec_find_variant(vs.take(i), name) is None,
    decreases i,
{
    if i > 0 {
        lemma_find_variant_prefix(vs, name, i - 1);
        assert(vs.take(i).drop_last() =~= vs.take(i - 1));
    }
}

proof fn lemma_find_variant_extend(vs: Seq<CIREnumVariantView>, name: Seq<char>, k: int)
    requires
        0 <= k < vs.len(),
        spec_find_variant(vs.take(k + 1), name) == Some(k),
    ensures
        spec_find_variant(vs, name) == Some(k),
    decreases vs.len(),
{
    if vs.len() > k + 1 {
        assert(vs.drop_last().take(k + 1) =~= vs.take(k + 1));
        lemma_find_variant_extend(vs.drop_last(), name, k);
    } else {
        assert(vs.take(k + 1) =~= vs);
    }
}

proof fn lemma_find_variant_first(vs: Seq<CIREnumVariantView>, name: Seq<char>, i: int)
    requires
        0 <= i < vs.len(),
        forall|j: int| 0 <= j < i ==> spec_variant_ident(#[trigger] vs[j]) != name,
        spec_variant_ident(vs[i]) == name,
    ensures
        spec_find_variant(vs, name) == Some(i),
{
    lemma_find_variant_prefix(vs, name, i);
    assert(vs.take(i + 1).drop_last() =~= vs.take(i));
    lemma_find_variant_extend(vs, name, i);
}

proof fn lemma_find_variant_none(vs: Seq<CIREnumVariantView>, name: Seq<char>)
    requires
        forall|j: int| 0 <= j < vs.len() ==> spec_variant_ident(#[trigger] vs[j]) != name,
    ensures
        spec_find_variant(vs, name) is None,
{
    lemma_find_variant_prefix(vs, name, vs.len() as int);
    assert(vs.take(vs.len() as int) =~= vs);
}

impl CIRType {
    /// The type with any `const` wrappers removed.
    pub fn const_inner(&self) -> (r: &CIRType)
        ensures
            r@ == spec_const_inner(self@),
            spec_const_inner_func_info(*self) == match *r {
                CIRType::FuncType(f) => spec_func_info_view(f.abi_func_info),
                _ => None,
            },
        decreases self,
    {
        match self {
            CIRType::Const(inner) => inner.const_inner(),
            other => other,
        }
    }

    pub fn as_plain(&self) -> (r: Option<PlainType>)
        ensures
            r == match spec_const_inner(self@) {
                CIRTypeView::Plain(p) => Some(p),
                _ => None,
            },
    {
        match self.const_inner() {
            CIRType::Plain(plain_type) => Some(*plain_type),
            _ => None,
        }
    }

    /// The function type this type is (through `const`), copied with the
    /// lowering it carries.
    pub fn as_func(&self) -> (r: Option<CIRFuncType>)
        ensures
            match spec_const_inner(self@) {
                CIRTypeView::FuncType(params, is_var, ret, callconv) => r matches Some(f) && spec_cir_views(f.params@)
                    == params && f.is_var == is_var && (*f.ret_type)@ == *ret && f.callconv == callconv
                    && spec_const_inner_func_info(*self) == spec_func_info_view(f.abi_func_info),
                _ => r is None,
            },
    {
        match self.const_inner() {
            CIRType::FuncType(f) => Some(CIRFuncType {
                params: clone_cir_types(&f.params),
                is_var: f.is_var,
                ret_type: Box::new((*f.ret_type).clone()),
                callconv: f.callconv,
                abi_func_info: match &f.abi_func_info {
                    Some(info) => Some(info.clone_info()),
                    None => None,
                },
            }),
            _ => None,
        }
    }

    pub fn as_array(&self) -> (r: Option<CIRArrayType>)
        ensures
            match spec_const_inner(self@) {
                CIRTypeView::Array(e, len) => r matches Some(a) && (*a.element_type)@ == *e && a.len == len,
                _ => r is None,
            },
    {
        match self.const_inner() {
            CIRType::Array(arr_ty) => Some(CIRArrayType {
                element_type: Box::new((*arr_ty.element_type).clone()),
                len: arr_ty.len,
            }),
            _ => None,
        }
    }

    pub fn as_type_id(&self) -> (r: Option<CIRTypeContextID>)
        ensures
            r == match spec_const_inner(self@) {
                CIRTypeView::Struct(id) => Some(CIRTypeContextID(id)),
                CIRTypeView::Union(id) => Some(CIRTypeContextID(id)),
                CIRTypeView::Enum(id) => Some(CIRTypeContextID(id)),
                _ => None,
            },
    {
        match self.const_inner() {
            CIRType::Struct(type_id) | CIRType::Union(type_id) | CIRType::Enum(type_id) => Some(*type_id),
            _ => None,
        }
    }

    /// Plain scalars, pointers and enums are scalars.
    pub fn is_scalar(&self) -> (r: bool)
        ensures
            r == match spec_const_inner(self@) {
                CIRTypeView::Plain(p) => spec_plain_is_integer(p) || spec_plain_is_float(p) || p == PlainType::Char
                    || p == PlainType::Bool,
                CIRTypeView::Pointer(_) => true,
                CIRTypeView::Enum(_) => true,
                _ => false,
            },
    {
        match self.const_inner() {
            CIRType::Plain(plain_type) => plain_type.is_scalar(),
            CIRType::Pointer(_) => true,
            CIRType::Enum(_) => true,
            _ => false,
        }
    }

    pub fn is_array(&self) -> (r: bool)
        ensures
            r == (spec_const_inner(self@) is Array),
    {
        match self.const_inner() {
            CIRType::Array(_) => true,
            _ => false,
        }
    }

    pub fn is_void(&self) -> (r: bool)
        ensures
            r == spec_is_void(self@),
    {
        match self.const_inner() {
            CIRType::Plain(plain_type) => plain_type.is_void(),
            _ => false,
        }
    }

    pub fn is_bool(&self) -> (r: bool)
        ensures
            r == spec_is_bool(self@),
    {
        match self.const_inner() {
            CIRType::Plain(PlainType::Bool) => true,
            _ => false,
        }
    }

    pub fn is_float(&self) -> (r: bool)
        ensures
            r == spec_is_float(self@),
    {
        match self.const_inner() {
            CIRType::Plain(plain_type) => plain_type.is_float(),
            _ => false,
        }
    }

    pub fn is_integer(&self) -> (r: bool)
        ensures
            r == spec_is_integer(self@),
    {
        match self.const_inner() {
            CIRType::Plain(plain_type) => plain_type.is_integer(),
            _ => false,
        }
    }

    pub fn is_signed_integer(&self) -> (r: bool)
        ensures
            r == spec_is_signed_integer(self@),
    {
        match self.const_inner() {
            CIRType::Plain(plain_type) => plain_type.is_integer() && plain_type.is_signed(),
            _ => false,
        }
    }

    pub fn is_integer_or_bool(&self) -> (r: bool)
        ensures
            r == spec_is_integer_or_bool(self@),
    {
        self.is_integer() || self.is_bool()
    }

    pub fn is_char(&self) -> (r: bool)
        ensures
            r == spec_is_plain(self@, PlainType::Char),
    {
        match self.const_inner() {
            CIRType::Plain(plain_type) => plain_type.is_char(),
            _ => false,
        }
    }

    pub fn is_enum(&self) -> (r: bool)
        ensures
            r == (spec_const_inner(self@) is Enum),
    {
        match self.const_inner() {
            CIRType::Enum(..) => true,
            _ => false,
        }
    }

    pub fn is_struct(&self) -> (r: bool)
        ensures
            r == (spec_const_inner(self@) is Struct),
    {
        match self.const_inner() {
            CIRType::Struct(_) => true,
            _ => false,
        }
    }

    pub fn is_union(&self) -> (r: bool)
        ensures
            r == (spec_const_inner(self@) is Union),
    {
        match self.const_inner() {
            CIRType::Union(..) => true,
            _ => false,
        }
    }

    pub fn is_func(&self) -> (r: bool)
        ensures
            r == (spec_const_inner(self@) is FuncType),
    {
        match self.const_inner() {
            CIRType::FuncType(_) => true,
            _ => false,
        }
    }

    pub fn is_pointer(&self) -> (r: bool)
        ensures
            r == (spec_const_inner(self@) is Pointer),
    {
        match self.const_inner() {
            CIRType::Pointer(_) => true,
            _ => false,
        }
    }

    /// The pointee of a pointer type (not looking through `const`).
    pub fn pointer_inner(&self) -> (r: Option<&CIRType>)
        ensures
            match self@ {
                CIRTypeView::Pointer(i) => r matches Some(x) && x@ == *i,
                _ => r is None,
            },
    {
        match self {
            CIRType::Pointer(inner) => Some(&**inner),
            _ => None,
        }
    }
}

} // verus!
