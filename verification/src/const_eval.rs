//! Evaluation of constant expressions over 128-bit integers, booleans and
//! strings: the operators' semantics and the coercion to an expected type.
pub mod evaluator;

use vstd::prelude::*;

verus! {

/// A compile-time constant.
#[derive(Debug, Clone, PartialEq)]
pub enum ConstValue {
    Int(i128),
    Bool(bool),
    String(String),
}

/// Why a constant expression could not be evaluated; the symbols are named by
/// their declaration number.
#[derive(Debug, Clone, Copy, PartialEq, Eq, Structural)]
pub enum ConstEvalError {
    UnsupportedExpr,
    DivisionByZero,
    TypeError,
    CyclicConst(u64),
    NonConstSymbol(u64),
}

/// Binary operators.
#[derive(Debug, Clone, Copy, PartialEq, Eq, Structural)]
pub enum InfixOperator {
    Add,
    Sub,
    Mul,
    Div,
    Rem,
    BitwiseAnd,
    BitwiseOr,
    BitwiseXor,
    BitwiseAndNot,
    ShiftRight,
    ShiftLeft,
    LessThan,
    LessEqual,
    GreaterThan,
    GreaterEqual,
    Equal,
    NotEqual,
    Or,
    And,
}

/// Unary operators.
#[derive(Debug, Clone, Copy, PartialEq, Eq, Structural)]
pub enum PrefixOperator {
    Minus,
    Bang,
    BitwiseNot,
}

/// The kind of type a constant is expected to have.
#[derive(Debug, Clone, Copy, PartialEq, Eq, Structural)]
pub enum ConstTypeClass {
    Integer,
    Bool,
    Other,
}

/// The value of a constant: integers and booleans as themselves, strings by
/// their characters.
pub enum ConstValueView {
    Int(i128),
    Bool(bool),
    String(Seq<char>),
}

impl View for ConstValue {
    type V = ConstValueView;

    open spec fn view(&self) -> ConstValueView {
        match self {
            ConstValue::Int(v) => ConstValueView::Int(*v),
            ConstValue::Bool(b) => ConstValueView::Bool(*b),
            ConstValue::String(s) => ConstValueView::String(s@),
        }
    }
}

impl ConstValue {
    /// The integer a constant holds, if it is an integer.
    pub fn as_int(&self) -> (r: Option<i128>)
        ensures
            r == match self@ {
                ConstValueView::Int(v) => Some(v),
                _ => None,
            },
    {
        match self {
            ConstValue::Int(v) => Some(*v),
            _ => None,
        }
    }
}

pub open spec fn spec_abs(a: int) -> int {
    if a < 0 {
        -a
    } else {
        a
    }
}

/// Division rounding toward zero.
pub open spec fn spec_trunc_div(a: int, b: int) -> int {
    let q = spec_abs(a) / spec_abs(b);
    if (a < 0) == (b < 0) {
        q
    } else {
        -q
    }
}

/// The remainder of division rounding toward zero: it takes the sign of the
/// dividend.
pub open spec fn spec_trunc_rem(a: int, b: int) -> int {
    let r = spec_abs(a) % spec_abs(b);
    if a < 0 {
        -r
    } else {
        r
    }
}

/// Division that wraps around: `MIN / -1` is `MIN`.
pub open spec fn spec_wrapping_div(a: i128, b: i128) -> i128 {
    if a == i128::MIN && b == -1 {
        i128::MIN
    } else {
        spec_trunc_div(a as int, b as int) as i128
    }
}

/// Remainder that wraps around: `MIN % -1` is 0.
pub open spec fn spec_wrapping_rem(a: i128, b: i128) -> i128 {
    if a == i128::MIN && b == -1 {
        0
    } else {
        spec_trunc_rem(a as int, b as int) as i128
    }
}

/// The division identity: the quotient times the divisor plus the
/// remainder gives back the dividend, and the remainder is smaller than
/// the divisor.
pub proof fn lemma_trunc_div_rem(a: int, b: int)
    requires
        b != 0,
    ensures
        spec_trunc_div(a, b) * b + spec_trunc_rem(a, b) == a,
        spec_abs(spec_trunc_rem(a, b)) < spec_abs(b),
{
    let ua = spec_abs(a);
    let ub = spec_abs(b);
    vstd::arithmetic::div_mod::lemma_fundamental_div_mod(ua, ub);
    vstd::arithmetic::div_mod::lemma_mod_bound(ua, ub);
    let q = ua / ub;
    let r = ua % ub;
    assert(ua == ub * q + r);
    if a < 0 && b < 0 {
        assert(spec_trunc_div(a, b) * b == q * b);
        assert(q * b == -(ub * q)) by (nonlinear_arith)
            requires
                ub == -b,
        ;
    } else if a < 0 {
        assert(spec_trunc_div(a, b) * b == (-q) * b);
        assert((-q) * b == -(ub * q)) by (nonlinear_arith)
            requires
                ub == b,
        ;
    } else if b < 0 {
        assert(spec_trunc_div(a, b) * b == (-q) * b);
        assert((-q) * b == ub * q) by (nonlinear_arith)
            requires
                ub == -b,
        ;
    } else {
        assert(spec_trunc_div(a, b) * b == q * b);
        assert(q * b == ub * q) by (nonlinear_arith)
            requires
                ub == b,
        ;
    }
}

/// The magnitude of a 128-bit integer.
fn magnitude(a: i128) -> (r: u128)
    ensures
        r == spec_abs(a as int),
{
    if a < 0 {
        ((-(a + 1)) as u128) + 1
    } else {
        a as u128
    }
}

/// Division rounding toward zero that wraps `MIN / -1` around to `MIN`.
pub fn wrapping_div(a: i128, b: i128) -> (r: i128)
    requires
        b != 0,
    ensures
        r == spec_wrapping_div(a, b),
{
    if a == i128::MIN && b == -1 {
        return i128::MIN;
    }
    let ua = magnitude(a);
    let ub = magnitude(b);
    let q = ua / ub;
    assert(q <= ua) by {
        vstd::arithmetic::div_mod::lemma_div_is_ordered_by_denominator(ua as int, 1, ub as int);
    }
    if (a < 0) == (b < 0) {
        assert(q < 0x8000_0000_0000_0000_0000_0000_0000_0000) by {
            if ub == 1 {
                assert(q == ua);
                assert(ua != 0x8000_0000_0000_0000_0000_0000_0000_0000u128);
            } else {
                vstd::arithmetic::div_mod::lemma_div_is_ordered_by_denominator(ua as int, 2, ub as int);
                assert(ua as int / 2 <= 0x4000_0000_0000_0000_0000_0000_0000_0000);
            }
        }
        q as i128
    } else if q == 0x8000_0000_0000_0000_0000_0000_0000_0000u128 {
        i128::MIN
    } else {
        -(q as i128)
    }
}

/// Remainder of division rounding toward zero, with `MIN % -1` wrapping to 0.
pub fn wrapping_rem(a: i128, b: i128) -> (r: i128)
    requires
        b != 0,
    ensures
        r == spec_wrapping_rem(a, b),
{
    if a == i128::MIN && b == -1 {
        return 0;
    }
    let ua = magnitude(a);
    let ub = magnitude(b);
    let m = ua % ub;
    assert(m < ub) by {
        vstd::arithmetic::div_mod::lemma_mod_bound(ua as int, ub as int);
    }
    if a < 0 {
        -(m as i128)
    } else {
        m as i128
    }
}

/// What a unary operator gives on a constant: negation (which leaves `MIN`
/// as it is), logical not of an integer as a boolean, bitwise not.
pub open spec fn spec_eval_prefix(op: PrefixOperator, value: ConstValueView) -> Result<ConstValueView, ConstEvalError> {
    match op {
        PrefixOperator::Minus => match value {
            ConstValueView::Int(v) => if v == i128::MIN {
                Ok(ConstValueView::Int(i128::MIN))
            } else {
                Ok(ConstValueView::Int((-v) as i128))
            },
            _ => Err(ConstEvalError::TypeError),
        },
        PrefixOperator::Bang => match value {
            ConstValueView::Int(v) => Ok(ConstValueView::Bool(v == 0)),
            _ => Err(ConstEvalError::TypeError),
        },
        PrefixOperator::BitwiseNot => match value {
            ConstValueView::Int(v) => Ok(ConstValueView::Int(!v)),
            _ => Err(ConstEvalError::TypeError),
        },
    }
}

/// Unary operators on integers: negation gives the negated integer
/// (`MIN` stays `MIN`), `!` gives whether the integer is zero, and bitwise
/// not gives `-v - 1`; on a boolean or a string each is a type error.
pub proof fn lemma_prefix_operators(v: i128, other: ConstValueView)
    ensures
        v != i128::MIN ==> spec_eval_prefix(PrefixOperator::Minus, ConstValueView::Int(v))
            == Ok::<ConstValueView, ConstEvalError>(ConstValueView::Int((-v) as i128)),
        spec_eval_prefix(PrefixOperator::Minus, ConstValueView::Int(i128::MIN))
            == Ok::<ConstValueView, ConstEvalError>(ConstValueView::Int(i128::MIN)),
        spec_eval_prefix(PrefixOperator::Bang, ConstValueView::Int(v))
            == Ok::<ConstValueView, ConstEvalError>(ConstValueView::Bool(v == 0)),
        spec_eval_prefix(PrefixOperator::BitwiseNot, ConstValueView::Int(v)) matches Ok(ConstValueView::Int(w)) && w == -v - 1,
        !(other is Int) ==> spec_eval_prefix(PrefixOperator::Minus, other) == Err::<ConstValueView, ConstEvalError>(
            ConstEvalError::TypeError,
        ) && spec_eval_prefix(PrefixOperator::Bang, other) == Err::<ConstValueView, ConstEvalError>(ConstEvalError::TypeError)
            && spec_eval_prefix(PrefixOperator::BitwiseNot, other) == Err::<ConstValueView, ConstEvalError>(
            ConstEvalError::TypeError,
        ),
{
    assert(!v == -v - 1) by (bit_vector);
}

/// Applies a unary operator to an evaluated operand.
pub fn eval_prefix(op: PrefixOperator, const_value: ConstValue) -> (r: Result<ConstValue, ConstEvalError>)
    ensures
        match r {
            Ok(v) => spec_eval_prefix(op, const_value@) == Ok::<ConstValueView, ConstEvalError>(v@),
            Err(e) => spec_eval_prefix(op, const_value@) == Err::<ConstValueView, ConstEvalError>(e),
        },
{
    match op {
        PrefixOperator::Minus => match const_value {
            ConstValue::Int(value) => {
                if value == i128::MIN {
                    Ok(ConstValue::Int(i128::MIN))
                } else {
                    Ok(ConstValue::Int(-value))
                }
            },
            _ => Err(ConstEvalError::TypeError),
        },
        PrefixOperator::Bang => {
            let value = match const_value.as_int() {
                Some(v) => v,
                None => return Err(ConstEvalError::TypeError),
            };
            Ok(ConstValue::Bool(value == 0))
        },
        PrefixOperator::BitwiseNot => {
            let value = match const_value.as_int() {
                Some(v) => v,
                None => return Err(ConstEvalError::TypeError),
            };
            Ok(ConstValue::Int(!value))
        },
    }
}

/// What a binary operator gives on two integers: wrapping arithmetic,
/// division and remainder rounding toward zero (an error for a zero
/// divisor), bitwise operators, shifts by the right operand truncated to 32
/// bits and taken modulo 128, comparisons, and logical operators on
/// non-zero as true.
pub open spec fn spec_eval_int_infix(op: InfixOperator, lhs: i128, rhs: i128) -> Result<ConstValueView, ConstEvalError> {
    match op {
        InfixOperator::Add => Ok(ConstValueView::Int(lhs.wrapping_add(rhs))),
        InfixOperator::Sub => Ok(ConstValueView::Int(lhs.wrapping_sub(rhs))),
        InfixOperator::Mul => Ok(ConstValueView::Int(lhs.wrapping_mul(rhs))),
        InfixOperator::Div => if rhs == 0 {
            Err(ConstEvalError::DivisionByZero)
        } else {
            Ok(ConstValueView::Int(spec_wrapping_div(lhs, rhs)))
        },
        InfixOperator::Rem => if rhs == 0 {
            Err(ConstEvalError::DivisionByZero)
        } else {
            Ok(ConstValueView::Int(spec_wrapping_rem(lhs, rhs)))
        },
        InfixOperator::BitwiseAnd => Ok(ConstValueView::Int(lhs & rhs)),
        InfixOperator::BitwiseOr => Ok(ConstValueView::Int(lhs | rhs)),
        InfixOperator::BitwiseXor => Ok(ConstValueView::Int(lhs ^ rhs)),
        InfixOperator::BitwiseAndNot => Ok(ConstValueView::Int(lhs & !rhs)),
        InfixOperator::ShiftRight => Ok(ConstValueView::Int(lhs.wrapping_shr(rhs as u32))),
        InfixOperator::ShiftLeft => Ok(ConstValueView::Int(lhs.wrapping_shl(rhs as u32))),
        InfixOperator::LessThan => Ok(ConstValueView::Bool(lhs < rhs)),
        InfixOperator::LessEqual => Ok(ConstValueView::Bool(lhs <= rhs)),
        InfixOperator::GreaterThan => Ok(ConstValueView::Bool(lhs > rhs)),
        InfixOperator::GreaterEqual => Ok(ConstValueView::Bool(lhs >= rhs)),
        InfixOperator::Equal => Ok(ConstValueView::Bool(lhs == rhs)),
        InfixOperator::NotEqual => Ok(ConstValueView::Bool(lhs != rhs)),
        InfixOperator::Or => Ok(ConstValueView::Bool(lhs != 0 || rhs != 0)),
        InfixOperator::And => Ok(ConstValueView::Bool(lhs != 0 && rhs != 0)),
    }
}

/// What a binary operator gives on two evaluated operands: the integer
/// semantics when both are integers, a type error otherwise.
pub open spec fn spec_eval_infix(op: InfixOperator, lhs: ConstValueView, rhs: ConstValueView) -> Result<ConstValueView, ConstEvalError> {
    match (lhs, rhs) {
        (ConstValueView::Int(l), ConstValueView::Int(r)) => spec_eval_int_infix(op, l, r),
        _ => Err(ConstEvalError::TypeError),
    }
}

/// Logical operators treat every non-zero integer as true and give a
/// boolean: `and` is true exactly when both operands are non-zero, `or` when
/// either is; so `and` is true exactly when `!` of each operand is false, and
/// `or` is false exactly when `!` of each is true. Comparisons give the
/// boolean the integers' order gives.
pub proof fn lemma_logical_and_comparison_operators(a: i128, b: i128)
    ensures
        spec_eval_infix(InfixOperator::And, ConstValueView::Int(a), ConstValueView::Int(b))
            == Ok::<ConstValueView, ConstEvalError>(ConstValueView::Bool(a != 0 && b != 0)),
        spec_eval_infix(InfixOperator::Or, ConstValueView::Int(a), ConstValueView::Int(b))
            == Ok::<ConstValueView, ConstEvalError>(ConstValueView::Bool(a != 0 || b != 0)),
        (spec_eval_infix(InfixOperator::And, ConstValueView::Int(a), ConstValueView::Int(b))
            == Ok::<ConstValueView, ConstEvalError>(ConstValueView::Bool(true))) <==> (spec_eval_prefix(
            PrefixOperator::Bang,
            ConstValueView::Int(a),
        ) == Ok::<ConstValueView, ConstEvalError>(ConstValueView::Bool(false)) && spec_eval_prefix(
            PrefixOperator::Bang,
            ConstValueView::Int(b),
        ) == Ok::<ConstValueView, ConstEvalError>(ConstValueView::Bool(false))),
        (spec_eval_infix(InfixOperator::Or, ConstValueView::Int(a), ConstValueView::Int(b))
            == Ok::<ConstValueView, ConstEvalError>(ConstValueView::Bool(false))) <==> (spec_eval_prefix(
            PrefixOperator::Bang,
            ConstValueView::Int(a),
        ) == Ok::<ConstValueView, ConstEvalError>(ConstValueView::Bool(true)) && spec_eval_prefix(
            PrefixOperator::Bang,
            ConstValueView::Int(b),
        ) == Ok::<ConstValueView, ConstEvalError>(ConstValueView::Bool(true))),
        spec_eval_infix(InfixOperator::LessThan, ConstValueView::Int(a), ConstValueView::Int(b))
            == Ok::<ConstValueView, ConstEvalError>(ConstValueView::Bool(a < b)),
        spec_eval_infix(InfixOperator::LessEqual, ConstValueView::Int(a), ConstValueView::Int(b))
            == Ok::<ConstValueView, ConstEvalError>(ConstValueView::Bool(a <= b)),
        spec_eval_infix(InfixOperator::GreaterThan, ConstValueView::Int(a), ConstValueView::Int(b))
            == Ok::<ConstValueView, ConstEvalError>(ConstValueView::Bool(a > b)),
        spec_eval_infix(InfixOperator::GreaterEqual, ConstValueView::Int(a), ConstValueView::Int(b))
            == Ok::<ConstValueView, ConstEvalError>(ConstValueView::Bool(a >= b)),
        spec_eval_infix(InfixOperator::Equal, ConstValueView::Int(a), ConstValueView::Int(b))
            == Ok::<ConstValueView, ConstEvalError>(ConstValueView::Bool(a == b)),
        spec_eval_infix(InfixOperator::NotEqual, ConstValueView::Int(a), ConstValueView::Int(b))
            == Ok::<ConstValueView, ConstEvalError>(ConstValueView::Bool(a != b)),
{
}

proof fn lemma_trunc_div_fits(a: i128, b: i128)
    requires
        b != 0,
        !(a == i128::MIN && b == -1),
    ensures
        i128::MIN <= spec_trunc_div(a as int, b as int) <= i128::MAX,
        i128::MIN <= spec_trunc_rem(a as int, b as int) <= i128::MAX,
{
    let ua = spec_abs(a as int);
    let ub = spec_abs(b as int);
    vstd::arithmetic::div_mod::lemma_fundamental_div_mod(ua, ub);
    vstd::arithmetic::div_mod::lemma_mod_bound(ua, ub);
    let q = ua / ub;
    let r = ua % ub;
    assert(q >= 0) by (nonlinear_arith)
        requires
            ua >= 0,
            ub >= 1,
            q == ua / ub,
    ;
    assert(q <= ua) by (nonlinear_arith)
        requires
            ua == ub * q + r,
            r >= 0,
            q >= 0,
            ub >= 1,
    ;
    if ua == 0x8000_0000_0000_0000_0000_0000_0000_0000 && q == ua {
        assert(ub == 1) by (nonlinear_arith)
            requires
                ua == ub * q + r,
                r >= 0,
                q == ua,
                ua > 0,
                ub >= 1,
        ;
    }
}

/// Arithmetic on integers: addition, subtraction and multiplication give the
/// exact result whenever it fits in 128 bits; a zero divisor is an error for
/// division and remainder; otherwise (short of `MIN / -1`) the quotient times
/// the divisor plus the remainder gives back the dividend, the remainder is
/// smaller than the divisor, and it is zero or has the dividend's sign.
pub proof fn lemma_arithmetic_operators(a: i128, b: i128)
    ensures
        i128::MIN <= a + b <= i128::MAX ==> spec_eval_infix(InfixOperator::Add, ConstValueView::Int(a), ConstValueView::Int(b))
            == Ok::<ConstValueView, ConstEvalError>(ConstValueView::Int((a + b) as i128)),
        i128::MIN <= a - b <= i128::MAX ==> spec_eval_infix(InfixOperator::Sub, ConstValueView::Int(a), ConstValueView::Int(b))
            == Ok::<ConstValueView, ConstEvalError>(ConstValueView::Int((a - b) as i128)),
        i128::MIN <= a * b <= i128::MAX ==> spec_eval_infix(InfixOperator::Mul, ConstValueView::Int(a), ConstValueView::Int(b))
            == Ok::<ConstValueView, ConstEvalError>(ConstValueView::Int((a * b) as i128)),
        b == 0 ==> spec_eval_infix(InfixOperator::Div, ConstValueView::Int(a), ConstValueView::Int(b))
            == Err::<ConstValueView, ConstEvalError>(ConstEvalError::DivisionByZero) && spec_eval_infix(
            InfixOperator::Rem,
            ConstValueView::Int(a),
            ConstValueView::Int(b),
        ) == Err::<ConstValueView, ConstEvalError>(ConstEvalError::DivisionByZero),
        b != 0 && !(a == i128::MIN && b == -1) ==> (spec_eval_infix(InfixOperator::Div, ConstValueView::Int(a), ConstValueView::Int(b))
            matches Ok(ConstValueView::Int(q)) && spec_eval_infix(InfixOperator::Rem, ConstValueView::Int(a), ConstValueView::Int(b))
            matches Ok(ConstValueView::Int(r)) && q * b + r == a && spec_abs(r as int) < spec_abs(b as int) && (r == 0 || (r < 0)
            == (a < 0))),
{
    if b != 0 && !(a == i128::MIN && b == -1) {
        lemma_trunc_div_fits(a, b);
        lemma_trunc_div_rem(a as int, b as int);
    }
}

/// Applies a binary operator to two evaluated operands.
pub fn eval_infix(op: InfixOperator, lhs: ConstValue, rhs: ConstValue) -> (r: Result<ConstValue, ConstEvalError>)
    ensures
        match r {
            Ok(v) => spec_eval_infix(op, lhs@, rhs@) == Ok::<ConstValueView, ConstEvalError>(v@),
            Err(e) => spec_eval_infix(op, lhs@, rhs@) == Err::<ConstValueView, ConstEvalError>(e),
        },
{
    if let (Some(lhs), Some(rhs)) = (lhs.as_int(), rhs.as_int()) {
        let result = match op {
            InfixOperator::Add => lhs.wrapping_add(rhs),
            InfixOperator::Sub => lhs.wrapping_sub(rhs),
            InfixOperator::Mul => lhs.wrapping_mul(rhs),
            InfixOperator::Div => {
                if rhs == 0 {
                    return Err(ConstEvalError::DivisionByZero);
                }
                wrapping_div(lhs, rhs)
            },
            InfixOperator::Rem => {
                if rhs == 0 {
                    return Err(ConstEvalError::DivisionByZero);
                }
                wrapping_rem(lhs, rhs)
            },
            InfixOperator::BitwiseAnd => lhs & rhs,
            InfixOperator::BitwiseOr => lhs | rhs,
            InfixOperator::BitwiseXor => lhs ^ rhs,
            InfixOperator::BitwiseAndNot => lhs & !rhs,
            InfixOperator::ShiftRight => lhs.wrapping_shr(rhs as u32),
            InfixOperator::ShiftLeft => lhs.wrapping_shl(rhs as u32),
            InfixOperator::LessThan => return Ok(ConstValue::Bool(lhs < rhs)),
            InfixOperator::LessEqual => return Ok(ConstValue::Bool(lhs <= rhs)),
            InfixOperator::GreaterThan => return Ok(ConstValue::Bool(lhs > rhs)),
            InfixOperator::GreaterEqual => return Ok(ConstValue::Bool(lhs >= rhs)),
            InfixOperator::Equal => return Ok(ConstValue::Bool(lhs == rhs)),
            InfixOperator::NotEqual => return Ok(ConstValue::Bool(lhs != rhs)),
            InfixOperator::Or => return Ok(ConstValue::Bool(lhs != 0 || rhs != 0)),
            InfixOperator::And => return Ok(ConstValue::Bool(lhs != 0 && rhs != 0)),
        };
        return Ok(ConstValue::Int(result));
    }
    Err(ConstEvalError::TypeError)
}

/// A constant converted to the kind of type it is expected to have: a
/// boolean becomes 0 or 1 where an integer is expected, an integer becomes
/// "non-zero" where a boolean is; strings fit neither.
pub open spec fn spec_coerce(value: ConstValueView, expected: ConstTypeClass) -> Result<ConstValueView, ConstEvalError> {
    match expected {
        ConstTypeClass::Integer => match value {
            ConstValueView::Int(v) => Ok(ConstValueView::Int(v)),
            ConstValueView::Bool(b) => Ok(ConstValueView::Int(if b { 1 } else { 0 })),
            ConstValueView::String(_) => Err(ConstEvalError::TypeError),
        },
        ConstTypeClass::Bool => match value {
            ConstValueView::Bool(b) => Ok(ConstValueView::Bool(b)),
            ConstValueView::Int(v) => Ok(ConstValueView::Bool(v != 0)),
            ConstValueView::String(_) => Err(ConstEvalError::TypeError),
        },
        ConstTypeClass::Other => Ok(value),
    }
}

/// Converts an evaluated constant to the kind of type the expression has.
pub fn coerce_to_expected_type(value: ConstValue, expected_type: ConstTypeClass) -> (r: Result<ConstValue, ConstEvalError>)
    ensures
        match r {
            Ok(v) => spec_coerce(value@, expected_type) == Ok::<ConstValueView, ConstEvalError>(v@),
            Err(e) => spec_coerce(value@, expected_type) == Err::<ConstValueView, ConstEvalError>(e),
        },
{
    match expected_type {
        ConstTypeClass::Integer => match value {
            ConstValue::Int(value) => Ok(ConstValue::Int(value)),
            ConstValue::Bool(value) => Ok(ConstValue::Int(if value { 1 } else { 0 })),
            ConstValue::String(_) => Err(ConstEvalError::TypeError),
        },
        ConstTypeClass::Bool => match value {
            ConstValue::Bool(value) => Ok(ConstValue::Bool(value)),
            ConstValue::Int(value) => Ok(ConstValue::Bool(value != 0)),
            ConstValue::String(_) => Err(ConstEvalError::TypeError),
        },
        ConstTypeClass::Other => Ok(value),
    }
}

} // verus!
