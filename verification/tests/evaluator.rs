use cyrusc_internal::const_eval::evaluator::{
    ConstDecl, ConstEvaluator, ConstExpr, ConstExprKind, ConstFolder, ConstResolver, ConstTable,
};
use cyrusc_internal::const_eval::{ConstEvalError, ConstTypeClass, ConstValue, InfixOperator, PrefixOperator};

fn lit(v: i128) -> ConstExpr {
    ConstExpr { kind: ConstExprKind::IntLiteral(v), ty: ConstTypeClass::Integer }
}

fn global(d: u64) -> ConstExpr {
    ConstExpr { kind: ConstExprKind::GlobalVar(d), ty: ConstTypeClass::Integer }
}

fn infix(op: InfixOperator, a: ConstExpr, b: ConstExpr) -> ConstExpr {
    ConstExpr { kind: ConstExprKind::Infix(op, Box::new(a), Box::new(b)), ty: ConstTypeClass::Integer }
}

fn constant(decl_id: u64, rhs: ConstExpr) -> ConstDecl {
    ConstDecl { decl_id, is_const: true, rhs: Some(rhs) }
}

#[test]
fn literals_and_operators() {
    let table = ConstTable { decls: vec![], symbols: vec![] };
    let mut ev = ConstEvaluator::new(&table);
    assert_eq!(ev.eval_expr(&infix(InfixOperator::Add, lit(2), lit(3))), Ok(ConstValue::Int(5)));
    let neg = ConstExpr { kind: ConstExprKind::Prefix(PrefixOperator::Minus, Box::new(lit(7))), ty: ConstTypeClass::Integer };
    assert_eq!(ev.eval_expr(&neg), Ok(ConstValue::Int(-7)));
    assert_eq!(
        ev.eval_expr(&infix(InfixOperator::Div, lit(1), lit(0))),
        Err(ConstEvalError::DivisionByZero)
    );
}

#[test]
fn values_take_the_kind_of_their_type() {
    let table = ConstTable { decls: vec![], symbols: vec![] };
    let mut ev = ConstEvaluator::new(&table);
    let as_bool = ConstExpr { kind: ConstExprKind::IntLiteral(4), ty: ConstTypeClass::Bool };
    assert_eq!(ev.eval_expr(&as_bool), Ok(ConstValue::Bool(true)));
    let one = ConstExpr { kind: ConstExprKind::BoolLiteral(true), ty: ConstTypeClass::Integer };
    assert_eq!(ev.eval_expr(&infix(InfixOperator::Add, lit(2), one)), Ok(ConstValue::Int(3)));
}

#[test]
fn globals_refer_to_other_constants() {
    let table = ConstTable {
        decls: vec![constant(1, lit(10)), constant(2, infix(InfixOperator::Mul, global(1), lit(2)))],
        symbols: vec![],
    };
    let mut ev = ConstEvaluator::new(&table);
    assert_eq!(ev.eval_expr(&global(2)), Ok(ConstValue::Int(20)));
    assert_eq!(ev.eval_expr(&global(2)), Ok(ConstValue::Int(20)));
    assert_eq!(ev.eval_expr(&infix(InfixOperator::Sub, global(2), global(1))), Ok(ConstValue::Int(10)));
}

#[test]
fn self_reference_is_cyclic() {
    let table = ConstTable { decls: vec![constant(1, global(1))], symbols: vec![] };
    let mut ev = ConstEvaluator::new(&table);
    assert_eq!(ev.eval_expr(&global(1)), Err(ConstEvalError::CyclicConst(1)));
}

#[test]
fn mutual_reference_is_cyclic() {
    let table = ConstTable { decls: vec![constant(1, global(2)), constant(2, global(1))], symbols: vec![] };
    let mut ev = ConstEvaluator::new(&table);
    assert_eq!(ev.eval_expr(&global(1)), Err(ConstEvalError::CyclicConst(1)));
}

#[test]
fn non_constants_and_unsupported_expressions() {
    let table = ConstTable {
        decls: vec![
            ConstDecl { decl_id: 3, is_const: false, rhs: Some(lit(1)) },
            ConstDecl { decl_id: 4, is_const: true, rhs: None },
        ],
        symbols: vec![],
    };
    let mut ev = ConstEvaluator::new(&table);
    assert_eq!(ev.eval_expr(&global(3)), Err(ConstEvalError::NonConstSymbol(3)));
    assert_eq!(ev.eval_expr(&global(9)), Err(ConstEvalError::NonConstSymbol(9)));
    assert_eq!(ev.eval_expr(&global(4)), Err(ConstEvalError::UnsupportedExpr));
    let other = ConstExpr { kind: ConstExprKind::Unsupported, ty: ConstTypeClass::Integer };
    assert_eq!(ev.eval_expr(&other), Err(ConstEvalError::UnsupportedExpr));
}

#[test]
fn a_failed_constant_stays_marked() {
    let table = ConstTable {
        decls: vec![constant(5, infix(InfixOperator::Rem, lit(1), lit(0)))],
        symbols: vec![],
    };
    let mut ev = ConstEvaluator::new(&table);
    assert_eq!(ev.eval_expr(&global(5)), Err(ConstEvalError::DivisionByZero));
    assert_eq!(ev.eval_expr(&global(5)), Err(ConstEvalError::CyclicConst(5)));
}

#[test]
fn first_entry_for_an_id_counts() {
    let table = ConstTable {
        decls: vec![constant(1, lit(1)), constant(1, lit(2))],
        symbols: vec![(7, 1), (7, 2), (8, 3)],
    };
    assert!(table.is_decl_const(1));
    assert!(!table.is_decl_const(2));
    assert_eq!(table.lookup_symbol_as_decl_id(7), Some(1));
    assert_eq!(table.lookup_symbol_as_decl_id(8), Some(3));
    assert_eq!(table.lookup_symbol_as_decl_id(9), None);
    let mut ev = ConstEvaluator::new(&table);
    assert_eq!(ev.eval_expr(&global(1)), Ok(ConstValue::Int(1)));
}

fn literal_value(e: &ConstExpr) -> Option<i128> {
    match e.kind {
        ConstExprKind::IntLiteral(v) => Some(v),
        _ => None,
    }
}

#[test]
fn folding_replaces_integer_expressions_by_literals() {
    let table = ConstTable { decls: vec![constant(1, lit(10))], symbols: vec![] };
    let mut folder = ConstFolder::new(&table);
    let mut e = infix(InfixOperator::Add, lit(2), infix(InfixOperator::Mul, lit(3), lit(4)));
    folder.fold_expr(&mut e);
    assert_eq!(literal_value(&e), Some(14));
    assert!(e.ty == ConstTypeClass::Integer);
    let mut g = infix(InfixOperator::Sub, global(1), lit(1));
    folder.fold_expr(&mut g);
    assert_eq!(literal_value(&g), Some(9));
}

#[test]
fn folding_keeps_what_is_not_an_integer() {
    let table = ConstTable { decls: vec![], symbols: vec![] };
    let mut folder = ConstFolder::new(&table);
    let mut cmp = ConstExpr {
        kind: ConstExprKind::Infix(InfixOperator::LessThan, Box::new(lit(1)), Box::new(lit(2))),
        ty: ConstTypeClass::Bool,
    };
    folder.fold_expr(&mut cmp);
    assert!(matches!(cmp.kind, ConstExprKind::Infix(InfixOperator::LessThan, _, _)));
    let mut partly = infix(InfixOperator::Add, global(9), infix(InfixOperator::Add, lit(1), lit(2)));
    folder.fold_expr(&mut partly);
    match &partly.kind {
        ConstExprKind::Infix(InfixOperator::Add, lhs, rhs) => {
            assert!(matches!(lhs.kind, ConstExprKind::GlobalVar(9)));
            assert_eq!(literal_value(rhs), Some(3));
        }
        _ => panic!("the expression with a non-constant was folded away"),
    }
}

#[test]
fn integer_of_an_expression() {
    let table = ConstTable { decls: vec![constant(1, lit(10))], symbols: vec![] };
    let mut folder = ConstFolder::new(&table);
    let bool_typed = ConstExpr { kind: ConstExprKind::IntLiteral(5), ty: ConstTypeClass::Bool };
    assert_eq!(folder.expr_as_const_int(&bool_typed), Some(5));
    assert_eq!(folder.expr_as_const_int(&global(1)), Some(10));
    let truth = ConstExpr { kind: ConstExprKind::BoolLiteral(true), ty: ConstTypeClass::Bool };
    assert_eq!(folder.expr_as_const_int(&truth), None);
    assert_eq!(folder.expr_as_const_int(&global(2)), None);
}
