use cyrusc_internal::const_eval::{
    coerce_to_expected_type, eval_infix, eval_prefix, wrapping_div, wrapping_rem, ConstEvalError, ConstTypeClass,
    ConstValue, InfixOperator, PrefixOperator,
};

fn ival(v: i128) -> ConstValue {
    ConstValue::Int(v)
}

#[test]
fn arithmetic_wraps() {
    assert_eq!(eval_infix(InfixOperator::Add, ival(i128::MAX), ival(1)), Ok(ival(i128::MIN)));
    assert_eq!(eval_infix(InfixOperator::Sub, ival(i128::MIN), ival(1)), Ok(ival(i128::MAX)));
    assert_eq!(eval_infix(InfixOperator::Mul, ival(6), ival(7)), Ok(ival(42)));
    assert_eq!(eval_infix(InfixOperator::Mul, ival(i128::MAX), ival(2)), Ok(ival(-2)));
}

#[test]
fn division_rounds_toward_zero() {
    assert_eq!(eval_infix(InfixOperator::Div, ival(-7), ival(2)), Ok(ival(-3)));
    assert_eq!(eval_infix(InfixOperator::Rem, ival(-7), ival(2)), Ok(ival(-1)));
    assert_eq!(eval_infix(InfixOperator::Div, ival(7), ival(-2)), Ok(ival(-3)));
    assert_eq!(eval_infix(InfixOperator::Rem, ival(7), ival(-2)), Ok(ival(1)));
    assert_eq!(eval_infix(InfixOperator::Div, ival(i128::MIN), ival(-1)), Ok(ival(i128::MIN)));
    assert_eq!(eval_infix(InfixOperator::Rem, ival(i128::MIN), ival(-1)), Ok(ival(0)));
    assert_eq!(eval_infix(InfixOperator::Div, ival(1), ival(0)), Err(ConstEvalError::DivisionByZero));
    assert_eq!(eval_infix(InfixOperator::Rem, ival(1), ival(0)), Err(ConstEvalError::DivisionByZero));
}

#[test]
fn wrapping_division_matches_std() {
    let samples = [i128::MIN, i128::MIN + 1, -1000, -7, -1, 0, 1, 3, 7, 1000, i128::MAX];
    for a in samples {
        for b in samples {
            if b != 0 {
                assert_eq!(wrapping_div(a, b), a.wrapping_div(b));
                assert_eq!(wrapping_rem(a, b), a.wrapping_rem(b));
            }
        }
    }
}

#[test]
fn bitwise_and_shift_operators() {
    assert_eq!(eval_infix(InfixOperator::BitwiseAnd, ival(0b1100), ival(0b1010)), Ok(ival(0b1000)));
    assert_eq!(eval_infix(InfixOperator::BitwiseOr, ival(0b1100), ival(0b1010)), Ok(ival(0b1110)));
    assert_eq!(eval_infix(InfixOperator::BitwiseXor, ival(0b1100), ival(0b1010)), Ok(ival(0b0110)));
    assert_eq!(eval_infix(InfixOperator::BitwiseAndNot, ival(0b1100), ival(0b1010)), Ok(ival(0b0100)));
    assert_eq!(eval_infix(InfixOperator::ShiftLeft, ival(1), ival(4)), Ok(ival(16)));
    assert_eq!(eval_infix(InfixOperator::ShiftLeft, ival(1), ival(130)), Ok(ival(4)));
    assert_eq!(eval_infix(InfixOperator::ShiftRight, ival(-16), ival(2)), Ok(ival(-4)));
}

#[test]
fn comparisons_and_logic_give_booleans() {
    assert_eq!(eval_infix(InfixOperator::LessThan, ival(1), ival(2)), Ok(ConstValue::Bool(true)));
    assert_eq!(eval_infix(InfixOperator::GreaterEqual, ival(1), ival(2)), Ok(ConstValue::Bool(false)));
    assert_eq!(eval_infix(InfixOperator::Equal, ival(5), ival(5)), Ok(ConstValue::Bool(true)));
    assert_eq!(eval_infix(InfixOperator::NotEqual, ival(5), ival(5)), Ok(ConstValue::Bool(false)));
    assert_eq!(eval_infix(InfixOperator::LessEqual, ival(5), ival(5)), Ok(ConstValue::Bool(true)));
    assert_eq!(eval_infix(InfixOperator::GreaterThan, ival(6), ival(5)), Ok(ConstValue::Bool(true)));
    assert_eq!(eval_infix(InfixOperator::Or, ival(0), ival(3)), Ok(ConstValue::Bool(true)));
    assert_eq!(eval_infix(InfixOperator::And, ival(0), ival(3)), Ok(ConstValue::Bool(false)));
}

#[test]
fn non_integer_operands_are_type_errors() {
    assert_eq!(eval_infix(InfixOperator::Add, ConstValue::Bool(true), ival(1)), Err(ConstEvalError::TypeError));
    assert_eq!(
        eval_infix(InfixOperator::Add, ConstValue::String("a".to_string()), ival(1)),
        Err(ConstEvalError::TypeError)
    );
    assert_eq!(eval_prefix(PrefixOperator::Minus, ConstValue::Bool(true)), Err(ConstEvalError::TypeError));
    assert_eq!(eval_prefix(PrefixOperator::Bang, ConstValue::Bool(true)), Err(ConstEvalError::TypeError));
}

#[test]
fn prefix_operators() {
    assert_eq!(eval_prefix(PrefixOperator::Minus, ival(5)), Ok(ival(-5)));
    assert_eq!(eval_prefix(PrefixOperator::Minus, ival(i128::MIN)), Ok(ival(i128::MIN)));
    assert_eq!(eval_prefix(PrefixOperator::Bang, ival(0)), Ok(ConstValue::Bool(true)));
    assert_eq!(eval_prefix(PrefixOperator::Bang, ival(2)), Ok(ConstValue::Bool(false)));
    assert_eq!(eval_prefix(PrefixOperator::BitwiseNot, ival(0)), Ok(ival(-1)));
}

#[test]
fn coercion_to_the_expected_kind() {
    assert_eq!(coerce_to_expected_type(ConstValue::Bool(true), ConstTypeClass::Integer), Ok(ival(1)));
    assert_eq!(coerce_to_expected_type(ival(0), ConstTypeClass::Bool), Ok(ConstValue::Bool(false)));
    assert_eq!(coerce_to_expected_type(ival(9), ConstTypeClass::Bool), Ok(ConstValue::Bool(true)));
    assert_eq!(
        coerce_to_expected_type(ConstValue::String("s".to_string()), ConstTypeClass::Integer),
        Err(ConstEvalError::TypeError)
    );
    assert_eq!(
        coerce_to_expected_type(ConstValue::String("s".to_string()), ConstTypeClass::Other),
        Ok(ConstValue::String("s".to_string()))
    );
    assert_eq!(ival(3).as_int(), Some(3));
    assert_eq!(ConstValue::Bool(true).as_int(), None);
}
