use crate::abi::target::ABITargetInfo;
use crate::abi::targets::x86_64::types::X86_64TargetDependentType;
use vstd::prelude::*;

verus! {

broadcast use vstd::std_specs::vec::group_vec_axioms;

#[derive(Debug, Clone, Copy, PartialEq, Eq, Structural)]
pub enum ABIFloatKind {
    F16,
    F32,
    F64,
    F128,
}

#[derive(Debug, Clone, Copy, PartialEq, Eq, Structural)]
pub enum TargetIntegerType {
    X86_64(X86_64TargetDependentType),
}

/// Target-agnostic ABI type representation.
#[derive(Debug)]
pub enum ABIType {
    Void,
    Integer(u32),
    Float(ABIFloatKind),
    Pointer,
    Vector { element_ty: Box<ABIType>, lanes: u32 },
    Array { element_ty: Box<ABIType>, count: usize },
    Struct(Vec<ABIType>, bool),
    Union(Vec<ABIType>),
    TargetIntegerType(TargetIntegerType),
}

/// The mathematical value of an ABI type: the same shape, with sequences in
/// place of vectors.
pub enum ABITypeView {
    Void,
    Integer(u32),
    Float(ABIFloatKind),
    Pointer,
    Vector { element_ty: Box<ABITypeView>, lanes: u32 },
    Array { element_ty: Box<ABITypeView>, count: usize },
    Struct(Seq<ABITypeView>, bool),
    Union(Seq<ABITypeView>),
    TargetIntegerType(TargetIntegerType),
}

pub open spec fn spec_abi_view(t: ABIType) -> ABITypeView
    decreases t,
{
    match t {
        ABIType::Void => ABITypeView::Void,
        ABIType::Integer(b) => ABITypeView::Integer(b),
        ABIType::Float(k) => ABITypeView::Float(k),
        ABIType::Pointer => ABITypeView::Pointer,
        ABIType::Vector { element_ty, lanes } => ABITypeView::Vector {
            element_ty: Box::new(spec_abi_view(*element_ty)),
            lanes,
        },
        ABIType::Array { element_ty, count } => ABITypeView::Array {
            element_ty: Box::new(spec_abi_view(*element_ty)),
            count,
        },
        ABIType::Struct(f, p) => ABITypeView::Struct(spec_abi_views(f@), p),
        ABIType::Union(f) => ABITypeView::Union(spec_abi_views(f@)),
        ABIType::TargetIntegerType(x) => ABITypeView::TargetIntegerType(x),
    }
}

/// The views of a list of ABI types.
pub open spec fn spec_abi_views(s: Seq<ABIType>) -> Seq<ABITypeView>
    decreases s,
{
    if s.len() == 0 {
        Seq::empty()
    } else {
        spec_abi_views(s.drop_last()).push(spec_abi_view(s.last()))
    }
}

/// The views of a list keep its length and view each element.
pub broadcast proof fn lemma_abi_views_index(s: Seq<ABIType>)
    ensures
        #[trigger] spec_abi_views(s).len() == s.len(),
        forall|i: int| 0 <= i < s.len() ==> #[trigger] spec_abi_views(s)[i] == spec_abi_view(s[i]),
    decreases s.len(),
{
    if s.len() > 0 {
        lemma_abi_views_index(s.drop_last());
    }
}

impl View for ABIType {
    type V = ABITypeView;

    open spec fn view(&self) -> ABITypeView {
        spec_abi_view(*self)
    }
}

/// Size in bytes of a float kind.
pub open spec fn spec_float_size(kind: ABIFloatKind) -> u32 {
    match kind {
        ABIFloatKind::F16 => 2,
        ABIFloatKind::F32 => 4,
        ABIFloatKind::F64 => 8,
        ABIFloatKind::F128 => 16,
    }
}

/// Size in bytes of an ABI type: integers round their bit width up to whole
/// bytes, pointers take 8 bytes, vectors and arrays multiply, structs add
/// their fields, unions take their largest field (1 when empty).
pub open spec fn spec_abi_size(info: ABITargetInfo, ty: ABITypeView) -> nat
    decreases ty,
{
    match ty {
        ABITypeView::Void => 0,
        ABITypeView::Integer(bits) => ((bits + 7) / 8) as nat,
        ABITypeView::Float(kind) => spec_float_size(kind) as nat,
        ABITypeView::Pointer => 8,
        ABITypeView::Vector { element_ty, lanes } => spec_abi_size(info, *element_ty) * (lanes as nat),
        ABITypeView::Array { element_ty, count } => spec_abi_size(info, *element_ty) * (count as nat),
        ABITypeView::Struct(fields, _) => spec_sum_sizes(info, fields),
        ABITypeView::Union(fields) => match spec_max_size(info, fields) {
            Some(m) => m,
            None => 1,
        },
        ABITypeView::TargetIntegerType(t) => spec_target_int_size(t, info) as nat,
    }
}

/// Sum of the sizes of a sequence of ABI types.
pub open spec fn spec_sum_sizes(info: ABITargetInfo, s: Seq<ABITypeView>) -> nat
    decreases s,
{
    if s.len() == 0 {
        0
    } else {
        spec_sum_sizes(info, s.drop_last()) + spec_abi_size(info, s.last())
    }
}

/// Largest size in a sequence of ABI types, `None` for the empty sequence.
pub open spec fn spec_max_size(info: ABITargetInfo, s: Seq<ABITypeView>) -> Option<nat>
    decreases s,
{
    if s.len() == 0 {
        None
    } else {
        let last = spec_abi_size(info, s.last());
        match spec_max_size(info, s.drop_last()) {
            None => Some(last),
            Some(m) => if last >= m { Some(last) } else { Some(m) },
        }
    }
}

/// Whether computing the size of `ty` in 64-bit arithmetic never overflows.
pub open spec fn spec_abi_size_fits(info: ABITargetInfo, ty: ABITypeView) -> bool
    decreases ty,
{
    spec_abi_size(info, ty) <= u64::MAX && match ty {
        ABITypeView::Vector { element_ty, .. } => spec_abi_size_fits(info, *element_ty),
        ABITypeView::Array { element_ty, .. } => spec_abi_size_fits(info, *element_ty),
        ABITypeView::Struct(fields, _) => spec_all_sizes_fit(info, fields),
        ABITypeView::Union(fields) => spec_all_sizes_fit(info, fields),
        _ => true,
    }
}

pub open spec fn spec_all_sizes_fit(info: ABITargetInfo, s: Seq<ABITypeView>) -> bool
    decreases s,
{
    if s.len() == 0 {
        true
    } else {
        spec_all_sizes_fit(info, s.drop_last()) && spec_abi_size_fits(info, s.last())
    }
}

pub open spec fn spec_target_int_size(t: TargetIntegerType, info: ABITargetInfo) -> u32 {
    match t {
        TargetIntegerType::X86_64(x) => x.spec_size(info),
    }
}

pub open spec fn spec_target_int_align(t: TargetIntegerType, info: ABITargetInfo) -> u32 {
    match t {
        TargetIntegerType::X86_64(x) => x.spec_align(info),
    }
}

/// Every element of a sequence whose sizes all fit has a fitting size.
pub proof fn lemma_all_sizes_fit_index(info: ABITargetInfo, s: Seq<ABITypeView>, j: int)
    requires
        spec_all_sizes_fit(info, s),
        0 <= j < s.len(),
    ensures
        spec_abi_size_fits(info, s[j]),
    decreases s.len(),
{
    if j < s.len() - 1 {
        lemma_all_sizes_fit_index(info, s.drop_last(), j);
    }
}

/// The sum of a prefix is bounded by the sum of the whole sequence.
pub proof fn lemma_sum_sizes_prefix(info: ABITargetInfo, s: Seq<ABITypeView>, k: int)
    requires
        0 <= k <= s.len(),
    ensures
        spec_sum_sizes(info, s.take(k)) <= spec_sum_sizes(info, s),
    decreases s.len(),
{
    if k < s.len() {
        lemma_sum_sizes_prefix(info, s.drop_last(), k);
        assert(s.drop_last().take(k) =~= s.take(k));
    } else {
        assert(s.take(k) =~= s);
    }
}

/// The largest size of a prefix is bounded by that of the whole sequence.
pub proof fn lemma_max_size_prefix(info: ABITargetInfo, s: Seq<ABITypeView>, k: int)
    requires
        0 <= k <= s.len(),
    ensures
        spec_max_size(info, s.take(k)) matches Some(m) ==> (spec_max_size(info, s) matches Some(n) && m <= n),
    decreases s.len(),
{
    if k < s.len() {
        lemma_max_size_prefix(info, s.drop_last(), k);
        assert(s.drop_last().take(k) =~= s.take(k));
    } else {
        assert(s.take(k) =~= s);
    }
}

/// The bit width of an integer ABI type, `None` for all other types.
pub open spec fn spec_as_integer_bits(t: ABITypeView, info: ABITargetInfo) -> Option<u32> {
    match t {
        ABITypeView::Integer(bits) => Some(bits),
        ABITypeView::TargetIntegerType(x) => Some((spec_target_int_size(x, info) * 8) as u32),
        _ => None,
    }
}

impl ABIType {
    pub fn as_integer_bits(&self, info: &ABITargetInfo) -> (r: Option<u32>)
        ensures
            r == spec_as_integer_bits(self@, *info),
    {
        match self {
            ABIType::Integer(bit_width) => Some(*bit_width),
            ABIType::TargetIntegerType(target_integer_type) => Some(target_integer_type.bit_width(info)),
            _ => None,
        }
    }
}

impl TargetIntegerType {
    pub fn size(&self, info: &ABITargetInfo) -> (r: u32)
        ensures
            r == spec_target_int_size(*self, *info),
    {
        match self {
            TargetIntegerType::X86_64(t) => t.size(info),
        }
    }

    pub fn align(&self, target: &ABITargetInfo) -> (r: u32)
        ensures
            r == spec_target_int_align(*self, *target),
    {
        match self {
            TargetIntegerType::X86_64(t) => t.align(target),
        }
    }

    pub fn bit_width(&self, target: &ABITargetInfo) -> (r: u32)
        ensures
            r == spec_target_int_size(*self, *target) * 8,
    {
        match self {
            TargetIntegerType::X86_64(t) => t.bit_width(target),
        }
    }
}

/// Structural equality of two ABI types.
pub fn abi_type_eq(a: &ABIType, b: &ABIType) -> (r: bool)
    ensures
        r == (a@ == b@),
    decreases a,
{
    match (a, b) {
        (ABIType::Void, ABIType::Void) => true,
        (ABIType::Integer(x), ABIType::Integer(y)) => *x == *y,
        (ABIType::Float(x), ABIType::Float(y)) => *x == *y,
        (ABIType::Pointer, ABIType::Pointer) => true,
        (ABIType::Vector { element_ty: e1, lanes: l1 }, ABIType::Vector { element_ty: e2, lanes: l2 }) => {
            *l1 == *l2 && abi_type_eq(e1, e2)
        },
        (ABIType::Array { element_ty: e1, count: c1 }, ABIType::Array { element_ty: e2, count: c2 }) => {
            *c1 == *c2 && abi_type_eq(e1, e2)
        },
        (ABIType::Struct(f1, p1), ABIType::Struct(f2, p2)) => {
            *p1 == *p2 && abi_types_eq(f1, f2)
        },
        (ABIType::Union(f1), ABIType::Union(f2)) => abi_types_eq(f1, f2),
        (ABIType::TargetIntegerType(x), ABIType::TargetIntegerType(y)) => *x == *y,
        _ => false,
    }
}

/// Element-wise equality of two lists of ABI types.
pub fn abi_types_eq(a: &Vec<ABIType>, b: &Vec<ABIType>) -> (r: bool)
    ensures
        r == (spec_abi_views(a@) == spec_abi_views(b@)),
    decreases a,
{
    proof {
        lemma_abi_views_index(a@);
        lemma_abi_views_index(b@);
    }
    if a.len() != b.len() {
        proof { assert(spec_abi_views(a@).len() != spec_abi_views(b@).len()); }
        return false;
    }
    let mut i: usize = 0;
    while i < a.len()
        invariant
            a.len() == b.len(),
            i <= a.len(),
            forall|j: int| 0 <= j < i ==> a@[j]@ == b@[j]@,
        decreases a.len() - i,
    {
        proof {
            lemma_abi_views_index(a@);
            lemma_abi_views_index(b@);
        }
        if !abi_type_eq(&a[i], &b[i]) {
            proof { assert(spec_abi_views(a@)[i as int] != spec_abi_views(b@)[i as int]); }
            return false;
        }
        i = i + 1;
    }
    proof { assert(spec_abi_views(a@) =~= spec_abi_views(b@)); }
    true
}

/// A copy of an ABI type, equal to the original.
pub fn clone_abi_type(a: &ABIType) -> (r: ABIType)
    ensures
        r@ == a@,
    decreases a,
{
    match a {
        ABIType::Void => ABIType::Void,
        ABIType::Integer(x) => ABIType::Integer(*x),
        ABIType::Float(x) => ABIType::Float(*x),
        ABIType::Pointer => ABIType::Pointer,
        ABIType::Vector { element_ty, lanes } => ABIType::Vector {
            element_ty: Box::new(clone_abi_type(element_ty)),
            lanes: *lanes,
        },
        ABIType::Array { element_ty, count } => ABIType::Array {
            element_ty: Box::new(clone_abi_type(element_ty)),
            count: *count,
        },
        ABIType::Struct(fields, packed) => ABIType::Struct(clone_abi_types(fields), *packed),
        ABIType::Union(fields) => ABIType::Union(clone_abi_types(fields)),
        ABIType::TargetIntegerType(t) => ABIType::TargetIntegerType(*t),
    }
}

/// A copy of a list of ABI types, equal to the original.
pub fn clone_abi_types(a: &Vec<ABIType>) -> (r: Vec<ABIType>)
    ensures
        spec_abi_views(r@) == spec_abi_views(a@),
    decreases a,
{
    proof {
        lemma_abi_views_index(a@);
    }
    let mut out: Vec<ABIType> = Vec::new();
    let mut i: usize = 0;
    while i < a.len()
        invariant
            i <= a.len(),
            out@.len() == i,
            forall|j: int| 0 <= j < i ==> out@[j]@ == a@[j]@,
        decreases a.len() - i,
    {
        let c = clone_abi_type(&a[i]);
        out.push(c);
        i = i + 1;
    }
    proof {
        lemma_abi_views_index(out@);
        assert(spec_abi_views(out@) =~= spec_abi_views(a@));
    }
    out
}

impl Clone for ABIType {
    fn clone(&self) -> (r: Self)
        ensures
            r@ == self@,
    {
        clone_abi_type(self)
    }
}

proof fn lemma_max_size_is_largest(info: ABITargetInfo, fs: Seq<ABITypeView>)
    requires
        fs.len() > 0,
    ensures
        spec_max_size(info, fs) is Some,
        forall|i: int| 0 <= i < fs.len() ==> spec_abi_size(info, #[trigger] fs[i]) <= spec_max_size(info, fs).unwrap(),
        exists|i: int| 0 <= i < fs.len() && spec_abi_size(info, #[trigger] fs[i]) == spec_max_size(info, fs).unwrap(),
    decreases fs.len(),
{
    let last = fs.len() - 1;
    if fs.len() > 1 {
        let prev = fs.drop_last();
        lemma_max_size_is_largest(info, prev);
        assert forall|i: int| 0 <= i < fs.len() implies spec_abi_size(info, #[trigger] fs[i]) <= spec_max_size(info, fs).unwrap() by {
            if i < last {
                assert(fs[i] == prev[i]);
            }
        }
        let j = choose|j: int| 0 <= j < prev.len() && spec_abi_size(info, #[trigger] prev[j]) == spec_max_size(info, prev).unwrap();
        assert(fs[j] == prev[j]);
        assert(spec_abi_size(info, fs[last]) == spec_abi_size(info, fs.last()));
        if spec_abi_size(info, fs[last]) >= spec_max_size(info, prev).unwrap() {
            assert(spec_abi_size(info, fs[last]) == spec_max_size(info, fs).unwrap());
        } else {
            assert(spec_abi_size(info, fs[j]) == spec_max_size(info, fs).unwrap());
        }
    } else {
        assert(fs.drop_last().len() == 0);
        assert(spec_max_size(info, fs.drop_last()) is None);
        assert(spec_abi_size(info, fs[0]) == spec_abi_size(info, fs.last()));
        assert(spec_abi_size(info, fs[0]) == spec_max_size(info, fs).unwrap());
    }
}

proof fn lemma_sum_sizes_split(info: ABITargetInfo, fs: Seq<ABITypeView>, i: int)
    requires
        0 <= i < fs.len(),
    ensures
        spec_sum_sizes(info, fs.take(i + 1)) == spec_sum_sizes(info, fs.take(i)) + spec_abi_size(info, fs[i]),
{
    assert(fs.take(i + 1).drop_last() =~= fs.take(i));
}

/// The sizes of ABI types: an integer of `b` bits takes the fewest bytes that
/// hold `b` bits; an array or vector takes its element's size once per
/// element; a struct the sum of its fields' sizes, field after field; a
/// non-empty union the size of its largest field; a target-dependent integer
/// its size on the target.
pub proof fn lemma_abi_size_equations(info: ABITargetInfo, t: ABITypeView)
    ensures
        t matches ABITypeView::Integer(b) ==> spec_abi_size(info, t) * 8 >= b && spec_abi_size(info, t) * 8 < b + 8,
        t matches ABITypeView::Array { element_ty, count } ==> spec_abi_size(info, t) == count * spec_abi_size(info, *element_ty),
        t matches ABITypeView::Vector { element_ty, lanes } ==> spec_abi_size(info, t) == lanes * spec_abi_size(info, *element_ty),
        t matches ABITypeView::Struct(fs, _) ==> spec_abi_size(info, t) == spec_sum_sizes(info, fs) && spec_sum_sizes(info, fs.take(0)) == 0
            && forall|i: int| 0 <= i < fs.len() ==> spec_sum_sizes(info, #[trigger] fs.take(i + 1)) == spec_sum_sizes(info, fs.take(i))
                + spec_abi_size(info, fs[i]),
        t matches ABITypeView::Union(fs) ==> fs.len() > 0 ==> (forall|i: int| 0 <= i < fs.len() ==> spec_abi_size(info, #[trigger] fs[i])
            <= spec_abi_size(info, t)) && exists|i: int| 0 <= i < fs.len() && spec_abi_size(info, #[trigger] fs[i]) == spec_abi_size(info, t),
        t matches ABITypeView::TargetIntegerType(k) ==> spec_abi_size(info, t) == spec_target_int_size(k, info),
{
    match t {
        ABITypeView::Integer(b) => {
            assert(((b + 7) / 8) * 8 >= b && ((b + 7) / 8) * 8 < b + 8) by (nonlinear_arith);
        },
        ABITypeView::Array { element_ty, count } => {
            assert(spec_abi_size(info, *element_ty) * count == count * spec_abi_size(info, *element_ty)) by (nonlinear_arith);
        },
        ABITypeView::Vector { element_ty, lanes } => {
            assert(spec_abi_size(info, *element_ty) * lanes == lanes * spec_abi_size(info, *element_ty)) by (nonlinear_arith);
        },
        ABITypeView::Struct(fs, _) => {
            assert(fs.take(0).len() == 0);
            assert forall|i: int| 0 <= i < fs.len() implies spec_sum_sizes(info, #[trigger] fs.take(i + 1)) == spec_sum_sizes(info, fs.take(i))
                + spec_abi_size(info, fs[i]) by {
                lemma_sum_sizes_split(info, fs, i);
            }
        },
        ABITypeView::Union(fs) => {
            if fs.len() > 0 {
                lemma_max_size_is_largest(info, fs);
            }
        },
        _ => {},
    }
}

} // verus!
