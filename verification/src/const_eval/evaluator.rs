//! Evaluation of constant expressions that refer to other constants: each
//! referenced constant's initializer is evaluated once and remembered, and a
//! constant whose evaluation needs itself is reported as cyclic.
use crate::const_eval::{
    coerce_to_expected_type, eval_infix, eval_prefix, spec_coerce, spec_eval_infix, spec_eval_prefix,
    ConstEvalError, ConstTypeClass, ConstValue, ConstValueView, InfixOperator, PrefixOperator,
};
use std::collections::HashMap;
use vstd::prelude::*;

verus! {

broadcast use {vstd::std_specs::hash::group_hash_axioms, vstd::set::group_set_axioms};

/// What a typed expression is, as far as constant evaluation reads it.
#[derive(Debug)]
pub enum ConstExprKind {
    /// A reference to a global variable, by its declaration number.
    GlobalVar(u64),
    IntLiteral(i128),
    BoolLiteral(bool),
    Prefix(PrefixOperator, Box<ConstExpr>),
    Infix(InfixOperator, Box<ConstExpr>, Box<ConstExpr>),
    /// Any other expression: local symbols, calls, string literals, ...
    Unsupported,
}

/// A typed expression: what it is and the kind of type it has.
#[derive(Debug)]
pub struct ConstExpr {
    pub kind: ConstExprKind,
    pub ty: ConstTypeClass,
}

/// What the evaluator asks of the declarations around it.
pub trait ConstResolver {
    /// The declarations that are constants.
    spec fn spec_const_decls(&self) -> Set<u64>;

    /// The initializer of a declaration, if it has one.
    spec fn spec_rhs(&self, decl_id: u64) -> Option<ConstExpr>;

    /// The declaration a symbol names, if any.
    spec fn spec_symbol_decl(&self, symbol_id: u64) -> Option<u64>;

    /// There are finitely many constants.
    proof fn lemma_const_decls_finite(&self)
        ensures
            self.spec_const_decls().finite(),
    ;

    fn is_decl_const(&self, decl_id: u64) -> (r: bool)
        ensures
            r == self.spec_const_decls().contains(decl_id),
    ;

    fn get_var_rhs_expr(&self, decl_id: u64) -> (r: Option<ConstExpr>)
        ensures
            r == self.spec_rhs(decl_id),
    ;

    fn lookup_symbol_as_decl_id(&self, symbol_id: u64) -> (r: Option<u64>)
        ensures
            r == self.spec_symbol_decl(symbol_id),
    ;
}

/// The state of an evaluation: the values of the constants evaluated so far,
/// and the constants whose evaluation has begun and not succeeded.
#[verifier::ext_equal]
pub struct EvalState {
    pub cache: Map<u64, ConstValueView>,
    pub evaluating: Set<u64>,
}

/// How many constants have not begun evaluating: it falls with each nested
/// constant, which bounds the evaluation.
pub open spec fn spec_pending<R: ConstResolver>(r: &R, evaluating: Set<u64>) -> nat {
    r.spec_const_decls().difference(evaluating).len()
}

/// Marking a constant that has not begun lowers the count of those that
/// have not.
pub proof fn lemma_pending_falls<R: ConstResolver>(r: &R, evaluating: Set<u64>, d: u64)
    requires
        r.spec_const_decls().finite(),
        r.spec_const_decls().contains(d),
        !evaluating.contains(d),
    ensures
        spec_pending(r, evaluating.insert(d)) < spec_pending(r, evaluating),
{
    let rest = r.spec_const_decls().difference(evaluating);
    assert(r.spec_const_decls().difference(evaluating.insert(d)) =~= rest.remove(d));
    assert(rest.contains(d));
}

/// The value of an expression from a state, and the state after it.
/// A global variable's value comes from what was remembered of it; one
/// whose evaluation has begun is cyclic; one that is not a constant is an
/// error; otherwise its initializer is evaluated with the variable marked
/// as begun, and on success remembered and unmarked (on failure it stays
/// marked). Every value is converted to the kind of type of its
/// expression; operands are evaluated left to right, and the first error
/// stops the evaluation. The right operand starts from the marks the left
/// one started from: a successful evaluation leaves them as they were
/// (`lemma_eval_success_unmarks`).
pub open spec fn spec_eval<R: ConstResolver>(r: &R, st: EvalState, e: ConstExpr) -> (EvalState, Result<
    ConstValueView,
    ConstEvalError,
>)
    decreases spec_pending(r, st.evaluating), e,
    when r.spec_const_decls().finite()
{
    match e.kind {
        ConstExprKind::GlobalVar(d) => {
            if st.cache.contains_key(d) {
                (st, spec_coerce(st.cache[d], e.ty))
            } else if st.evaluating.contains(d) {
                (st, Err(ConstEvalError::CyclicConst(d)))
            } else if !r.spec_const_decls().contains(d) {
                (st, Err(ConstEvalError::NonConstSymbol(d)))
            } else {
                let marked = EvalState { cache: st.cache, evaluating: st.evaluating.insert(d) };
                match r.spec_rhs(d) {
                    None => (marked, Err(ConstEvalError::UnsupportedExpr)),
                    Some(rhs) => {
                        proof {
                            lemma_pending_falls(r, st.evaluating, d);
                        }
                        let (after, res) = spec_eval(r, marked, rhs);
                        match res {
                            Ok(v) => (
                                EvalState { cache: after.cache.insert(d, v), evaluating: after.evaluating.remove(d) },
                                spec_coerce(v, e.ty),
                            ),
                            Err(err) => (after, Err(err)),
                        }
                    },
                }
            }
        },
        ConstExprKind::IntLiteral(v) => (st, spec_coerce(ConstValueView::Int(v), e.ty)),
        ConstExprKind::BoolLiteral(b) => (st, spec_coerce(ConstValueView::Bool(b), e.ty)),
        ConstExprKind::Prefix(op, operand) => {
            let (after, res) = spec_eval(r, st, *operand);
            match res {
                Err(err) => (after, Err(err)),
                Ok(v) => match spec_eval_prefix(op, v) {
                    Err(err) => (after, Err(err)),
                    Ok(w) => (after, spec_coerce(w, e.ty)),
                },
            }
        },
        ConstExprKind::Infix(op, lhs, rhs) => {
            let (after_lhs, res_lhs) = spec_eval(r, st, *lhs);
            match res_lhs {
                Err(err) => (after_lhs, Err(err)),
                Ok(l) => {
                    let (after_rhs, res_rhs) = spec_eval(
                        r,
                        EvalState { cache: after_lhs.cache, evaluating: st.evaluating },
                        *rhs,
                    );
                    match res_rhs {
                        Err(err) => (after_rhs, Err(err)),
                        Ok(v) => match spec_eval_infix(op, l, v) {
                            Err(err) => (after_rhs, Err(err)),
                            Ok(w) => (after_rhs, spec_coerce(w, e.ty)),
                        },
                    }
                },
            }
        },
        ConstExprKind::Unsupported => (st, Err(ConstEvalError::UnsupportedExpr)),
    }
}

/// Evaluation never forgets or changes a remembered value: the values
/// remembered before are remembered after, unchanged.
pub proof fn lemma_eval_keeps_cache<R: ConstResolver>(r: &R, st: EvalState, e: ConstExpr)
    ensures
        forall|k: u64| #[trigger] st.cache.contains_key(k) ==> spec_eval(r, st, e).0.cache.contains_key(k)
            && spec_eval(r, st, e).0.cache[k] == st.cache[k],
    decreases spec_pending(r, st.evaluating), e,
{
    r.lemma_const_decls_finite();
    let result = spec_eval(r, st, e).0;
    match e.kind {
        ConstExprKind::GlobalVar(d) => {
            if st.cache.contains_key(d) || st.evaluating.contains(d) || !r.spec_const_decls().contains(d) {
                assert(result == st);
            } else {
                let marked = EvalState { cache: st.cache, evaluating: st.evaluating.insert(d) };
                match r.spec_rhs(d) {
                    None => {
                        assert(result == marked);
                    },
                    Some(rhs) => {
                        lemma_pending_falls(r, st.evaluating, d);
                        lemma_eval_keeps_cache(r, marked, rhs);
                        let after = spec_eval(r, marked, rhs).0;
                        match spec_eval(r, marked, rhs).1 {
                            Ok(v) => {
                                assert(result.cache == after.cache.insert(d, v));
                                assert forall|k: u64| #[trigger] st.cache.contains_key(k) implies result.cache.contains_key(k)
                                    && result.cache[k] == st.cache[k] by {
                                    assert(marked.cache.contains_key(k));
                                }
                            },
                            Err(_) => {
                                assert(result == after);
                                assert forall|k: u64| #[trigger] st.cache.contains_key(k) implies result.cache.contains_key(k)
                                    && result.cache[k] == st.cache[k] by {
                                    assert(marked.cache.contains_key(k));
                                }
                            },
                        }
                    },
                }
            }
        },
        ConstExprKind::Prefix(op, operand) => {
            lemma_eval_keeps_cache(r, st, *operand);
        },
        ConstExprKind::Infix(op, lhs, rhs) => {
            lemma_eval_keeps_cache(r, st, *lhs);
            let after_lhs = spec_eval(r, st, *lhs).0;
            let mid = EvalState { cache: after_lhs.cache, evaluating: st.evaluating };
            lemma_eval_keeps_cache(r, mid, *rhs);
            assert forall|k: u64| #[trigger] st.cache.contains_key(k) implies result.cache.contains_key(k)
                && result.cache[k] == st.cache[k] by {
                if spec_eval(r, st, *lhs).1 is Ok {
                    assert(mid.cache.contains_key(k));
                }
            }
        },
        _ => {},
    }
}

/// A successful evaluation leaves exactly the constants marked as begun
/// that were marked before it.
pub proof fn lemma_eval_success_unmarks<R: ConstResolver>(r: &R, st: EvalState, e: ConstExpr)
    requires
        spec_eval(r, st, e).1 is Ok,
    ensures
        spec_eval(r, st, e).0.evaluating == st.evaluating,
    decreases spec_pending(r, st.evaluating), e,
{
    r.lemma_const_decls_finite();
    match e.kind {
        ConstExprKind::GlobalVar(d) => {
            if !st.cache.contains_key(d) && !st.evaluating.contains(d) && r.spec_const_decls().contains(d) {
                if let Some(rhs) = r.spec_rhs(d) {
                    lemma_pending_falls(r, st.evaluating, d);
                    let marked = EvalState { cache: st.cache, evaluating: st.evaluating.insert(d) };
                    lemma_eval_success_unmarks(r, marked, rhs);
                    assert(st.evaluating.insert(d).remove(d) =~= st.evaluating);
                }
            }
        },
        ConstExprKind::Prefix(op, operand) => {
            lemma_eval_success_unmarks(r, st, *operand);
        },
        ConstExprKind::Infix(op, lhs, rhs) => {
            let after_lhs = spec_eval(r, st, *lhs).0;
            lemma_eval_success_unmarks(r, EvalState { cache: after_lhs.cache, evaluating: st.evaluating }, *rhs);
        },
        _ => {},
    }
}

proof fn lemma_eval_again_from<R: ConstResolver>(r: &R, st: EvalState, e: ConstExpr, cache: Map<u64, ConstValueView>)
    requires
        r.spec_const_decls().finite(),
        spec_eval(r, st, e).1 is Ok,
        spec_eval(r, st, e).0.cache.submap_of(cache),
    ensures
        spec_eval(r, EvalState { cache, evaluating: st.evaluating }, e) == (
        EvalState { cache, evaluating: st.evaluating },
        spec_eval(r, st, e).1,
        ),
    decreases e,
{
    let again = EvalState { cache, evaluating: st.evaluating };
    match e.kind {
        ConstExprKind::GlobalVar(d) => {
            lemma_global_remembered(r, st, d, e.ty);
            assert(spec_eval(r, st, e).0.cache.contains_key(d));
            assert(cache.contains_key(d));
        },
        ConstExprKind::Prefix(op, operand) => {
            lemma_eval_again_from(r, st, *operand, cache);
        },
        ConstExprKind::Infix(op, lhs, rhs) => {
            let after_lhs = spec_eval(r, st, *lhs).0;
            let mid = EvalState { cache: after_lhs.cache, evaluating: st.evaluating };
            lemma_eval_keeps_cache(r, mid, *rhs);
            let first = spec_eval(r, st, e).0;
            assert(spec_eval(r, st, *lhs).1 is Ok);
            assert(first == spec_eval(r, mid, *rhs).0);
            assert forall|k: u64| #[trigger] after_lhs.cache.contains_key(k) implies cache.contains_key(k)
                && cache[k] == after_lhs.cache[k] by {
                assert(mid.cache.contains_key(k));
                assert(first.cache.contains_key(k) && first.cache[k] == after_lhs.cache[k]);
            }
            lemma_eval_again_from(r, st, *lhs, cache);
            lemma_eval_again_from(r, mid, *rhs, cache);
        },
        _ => {},
    }
}

/// Evaluating an expression again, after it succeeded and with what that
/// evaluation remembered, gives the same value and changes nothing.
pub proof fn lemma_eval_again<R: ConstResolver>(r: &R, st: EvalState, e: ConstExpr)
    requires
        spec_eval(r, st, e).1 is Ok,
    ensures
        ({
            let after = spec_eval(r, st, e).0;
            let again = EvalState { cache: after.cache, evaluating: st.evaluating };
            spec_eval(r, again, e) == (again, spec_eval(r, st, e).1)
        }),
{
    r.lemma_const_decls_finite();
    lemma_eval_again_from(r, st, e, spec_eval(r, st, e).0.cache);
}

/// A global variable whose evaluation succeeded has its value remembered.
pub proof fn lemma_global_remembered<R: ConstResolver>(r: &R, st: EvalState, d: u64, ty: ConstTypeClass)
    requires
        spec_eval(r, st, ConstExpr { kind: ConstExprKind::GlobalVar(d), ty }).1 is Ok,
    ensures
        spec_eval(r, st, ConstExpr { kind: ConstExprKind::GlobalVar(d), ty }).0.cache.contains_key(d),
{
    r.lemma_const_decls_finite();
}

/// A constant whose initializer is the constant itself is reported as
/// cyclic by a fresh evaluation.
pub proof fn lemma_self_reference_is_cyclic<R: ConstResolver>(r: &R, d: u64, ty: ConstTypeClass, rhs_ty: ConstTypeClass)
    requires
        r.spec_const_decls().contains(d),
        r.spec_rhs(d) == Some(ConstExpr { kind: ConstExprKind::GlobalVar(d), ty: rhs_ty }),
    ensures
        spec_eval(
            r,
            EvalState { cache: Map::empty(), evaluating: Set::empty() },
            ConstExpr { kind: ConstExprKind::GlobalVar(d), ty },
        ).1 == Err::<ConstValueView, ConstEvalError>(ConstEvalError::CyclicConst(d)),
{
    r.lemma_const_decls_finite();
    let fresh = EvalState { cache: Map::empty(), evaluating: Set::empty() };
    let marked = EvalState { cache: Map::empty(), evaluating: Set::empty().insert(d) };
    assert(spec_eval(r, marked, ConstExpr { kind: ConstExprKind::GlobalVar(d), ty: rhs_ty }).1
        == Err::<ConstValueView, ConstEvalError>(ConstEvalError::CyclicConst(d)));
}

/// The value of a result, by view.
pub open spec fn spec_result_view(r: Result<ConstValue, ConstEvalError>) -> Result<ConstValueView, ConstEvalError> {
    match r {
        Ok(v) => Ok(v@),
        Err(e) => Err(e),
    }
}

/// A copy of a constant.
fn copy_value(v: &ConstValue) -> (r: ConstValue)
    ensures
        r@ == v@,
{
    match v {
        ConstValue::Int(i) => ConstValue::Int(*i),
        ConstValue::Bool(b) => ConstValue::Bool(*b),
        ConstValue::String(s) => ConstValue::String(s.clone()),
    }
}

/// A copy of an expression.
fn copy_expr(e: &ConstExpr) -> (r: ConstExpr)
    ensures
        r == *e,
    decreases e,
{
    let kind = match &e.kind {
        ConstExprKind::GlobalVar(d) => ConstExprKind::GlobalVar(*d),
        ConstExprKind::IntLiteral(v) => ConstExprKind::IntLiteral(*v),
        ConstExprKind::BoolLiteral(b) => ConstExprKind::BoolLiteral(*b),
        ConstExprKind::Prefix(op, a) => ConstExprKind::Prefix(*op, Box::new(copy_expr(&**a))),
        ConstExprKind::Infix(op, a, b) => ConstExprKind::Infix(
            *op,
            Box::new(copy_expr(&**a)),
            Box::new(copy_expr(&**b)),
        ),
        ConstExprKind::Unsupported => ConstExprKind::Unsupported,
    };
    ConstExpr { kind, ty: e.ty }
}

/// Evaluates constant expressions against the declarations a resolver
/// describes, remembering the value of each constant it evaluates.
pub struct ConstEvaluator<'a, R: ConstResolver> {
    resolver: &'a R,
    cache: HashMap<u64, ConstValue>,
    evaluating: HashMap<u64, ()>,
}

impl<'a, R: ConstResolver> ConstEvaluator<'a, R> {
    /// The declarations evaluated against.
    pub closed spec fn spec_resolver(&self) -> &'a R {
        self.resolver
    }

    /// The remembered values and the constants whose evaluation has begun.
    pub closed spec fn state(&self) -> EvalState {
        EvalState { cache: self.cache@.map_values(|v: ConstValue| v@), evaluating: self.evaluating@.dom() }
    }

    /// An evaluator that remembers nothing yet.
    pub fn new(resolver: &'a R) -> (r: Self)
        ensures
            r.spec_resolver() == resolver,
            r.state() == (EvalState { cache: Map::empty(), evaluating: Set::empty() }),
    {
        let r = ConstEvaluator { resolver, cache: HashMap::new(), evaluating: HashMap::new() };
        proof {
            assert(r.state().cache =~= Map::empty());
            assert(r.state().evaluating =~= Set::empty());
        }
        r
    }

    /// The value of an expression, converted to the kind of type it has
    /// (see `spec_eval`); a successful evaluation leaves no constant marked
    /// that was not marked before.
    pub fn eval_expr(&mut self, expr: &ConstExpr) -> (r: Result<ConstValue, ConstEvalError>)
        ensures
            final(self).spec_resolver() == old(self).spec_resolver(),
            final(self).state() == spec_eval(old(self).spec_resolver(), old(self).state(), *expr).0,
            spec_result_view(r) == spec_eval(old(self).spec_resolver(), old(self).state(), *expr).1,
            r is Ok ==> final(self).state().evaluating == old(self).state().evaluating,
        decreases spec_pending(old(self).spec_resolver(), old(self).state().evaluating), expr,
    {
        proof {
            self.resolver.lemma_const_decls_finite();
        }
        let ghost st0 = self.state();
        match &expr.kind {
            ConstExprKind::GlobalVar(d) => {
                let d = *d;
                if let Some(v) = self.cache.get(&d) {
                    let v = copy_value(v);
                    return coerce_to_expected_type(v, expr.ty);
                }
                if self.evaluating.contains_key(&d) {
                    return Err(ConstEvalError::CyclicConst(d));
                }
                if !self.resolver.is_decl_const(d) {
                    return Err(ConstEvalError::NonConstSymbol(d));
                }
                self.evaluating.insert(d, ());
                proof {
                    assert(self.state().evaluating =~= st0.evaluating.insert(d));
                    assert(self.state().cache =~= st0.cache);
                }
                let rhs = match self.resolver.get_var_rhs_expr(d) {
                    Some(x) => x,
                    None => return Err(ConstEvalError::UnsupportedExpr),
                };
                proof {
                    lemma_pending_falls(self.resolver, st0.evaluating, d);
                }
                let ghost st1 = self.state();
                let value = match self.eval_expr(&rhs) {
                    Ok(v) => v,
                    Err(e) => return Err(e),
                };
                let ghost st2 = self.state();
                self.cache.insert(d, copy_value(&value));
                self.evaluating.remove(&d);
                proof {
                    assert(self.state().cache =~= st2.cache.insert(d, value@));
                    assert(self.state().evaluating =~= st2.evaluating.remove(d));
                    assert(st2.evaluating.remove(d) =~= st0.evaluating);
                }
                coerce_to_expected_type(value, expr.ty)
            },
            ConstExprKind::IntLiteral(v) => coerce_to_expected_type(ConstValue::Int(*v), expr.ty),
            ConstExprKind::BoolLiteral(b) => coerce_to_expected_type(ConstValue::Bool(*b), expr.ty),
            ConstExprKind::Prefix(op, operand) => {
                let v = match self.eval_expr(&**operand) {
                    Ok(v) => v,
                    Err(e) => return Err(e),
                };
                let w = match eval_prefix(*op, v) {
                    Ok(w) => w,
                    Err(e) => return Err(e),
                };
                coerce_to_expected_type(w, expr.ty)
            },
            ConstExprKind::Infix(op, lhs, rhs) => {
                let l = match self.eval_expr(&**lhs) {
                    Ok(v) => v,
                    Err(e) => return Err(e),
                };
                let rv = match self.eval_expr(&**rhs) {
                    Ok(v) => v,
                    Err(e) => return Err(e),
                };
                let w = match eval_infix(*op, l, rv) {
                    Ok(w) => w,
                    Err(e) => return Err(e),
                };
                coerce_to_expected_type(w, expr.ty)
            },
            ConstExprKind::Unsupported => Err(ConstEvalError::UnsupportedExpr),
        }
    }
}

/// An expression with its operands folded first, then replaced by the
/// literal of its value where that value is an integer; the state after is
/// the one the evaluations leave.
pub open spec fn spec_fold<R: ConstResolver>(r: &R, st: EvalState, e: ConstExpr) -> (EvalState, ConstExpr)
    decreases e,
{
    let (st1, e1) = match e.kind {
        ConstExprKind::Prefix(op, operand) => {
            let (s, folded) = spec_fold(r, st, *operand);
            (s, ConstExpr { kind: ConstExprKind::Prefix(op, Box::new(folded)), ty: e.ty })
        },
        ConstExprKind::Infix(op, lhs, rhs) => {
            let (s1, folded_lhs) = spec_fold(r, st, *lhs);
            let (s2, folded_rhs) = spec_fold(r, s1, *rhs);
            (s2, ConstExpr { kind: ConstExprKind::Infix(op, Box::new(folded_lhs), Box::new(folded_rhs)), ty: e.ty })
        },
        _ => (st, e),
    };
    let (st2, res) = spec_eval(r, st1, e1);
    match res {
        Ok(ConstValueView::Int(v)) => (st2, ConstExpr { kind: ConstExprKind::IntLiteral(v), ty: e.ty }),
        _ => (st2, e1),
    }
}

/// Whether an expression refers to no global variable.
pub open spec fn spec_refers_to_no_global(e: ConstExpr) -> bool
    decreases e,
{
    match e.kind {
        ConstExprKind::GlobalVar(_) => false,
        ConstExprKind::Prefix(_, operand) => spec_refers_to_no_global(*operand),
        ConstExprKind::Infix(_, lhs, rhs) => spec_refers_to_no_global(*lhs) && spec_refers_to_no_global(*rhs),
        _ => true,
    }
}

proof fn lemma_eval_without_globals<R: ConstResolver>(r: &R, st: EvalState, e: ConstExpr)
    requires
        r.spec_const_decls().finite(),
        spec_refers_to_no_global(e),
    ensures
        spec_eval(r, st, e).0 == st,
    decreases e,
{
    match e.kind {
        ConstExprKind::Prefix(_, operand) => lemma_eval_without_globals(r, st, *operand),
        ConstExprKind::Infix(_, lhs, rhs) => {
            lemma_eval_without_globals(r, st, *lhs);
            lemma_eval_without_globals(r, st, *rhs);
        },
        _ => {},
    }
}

/// Converting a value to the kind of type it was converted to changes
/// nothing.
proof fn lemma_coerce_again(x: ConstValueView, v: i128, ty: ConstTypeClass)
    requires
        spec_coerce(x, ty) == Ok::<ConstValueView, ConstEvalError>(ConstValueView::Int(v)),
    ensures
        spec_coerce(ConstValueView::Int(v), ty) == Ok::<ConstValueView, ConstEvalError>(ConstValueView::Int(v)),
{
}

/// Folding an expression that refers to no global variable changes
/// neither the evaluator's state nor what the expression evaluates to.
pub proof fn lemma_fold_keeps_value<R: ConstResolver>(r: &R, st: EvalState, e: ConstExpr)
    requires
        spec_refers_to_no_global(e),
    ensures
        spec_fold(r, st, e).0 == st,
        spec_eval(r, st, spec_fold(r, st, e).1) == spec_eval(r, st, e),
    decreases e,
{
    r.lemma_const_decls_finite();
    lemma_eval_without_globals(r, st, e);
    let (st1, e1) = match e.kind {
        ConstExprKind::Prefix(op, operand) => {
            lemma_fold_keeps_value(r, st, *operand);
            let (s, folded) = spec_fold(r, st, *operand);
            (s, ConstExpr { kind: ConstExprKind::Prefix(op, Box::new(folded)), ty: e.ty })
        },
        ConstExprKind::Infix(op, lhs, rhs) => {
            lemma_fold_keeps_value(r, st, *lhs);
            let (s1, folded_lhs) = spec_fold(r, st, *lhs);
            lemma_fold_keeps_value(r, s1, *rhs);
            let (s2, folded_rhs) = spec_fold(r, s1, *rhs);
            lemma_eval_without_globals(r, st, *lhs);
            let mid = EvalState { cache: st.cache, evaluating: st.evaluating };
            assert(mid == st);
            assert(spec_eval(r, st, folded_lhs) == spec_eval(r, st, *lhs));
            assert(spec_eval(r, st, folded_rhs) == spec_eval(r, st, *rhs));
            (s2, ConstExpr { kind: ConstExprKind::Infix(op, Box::new(folded_lhs), Box::new(folded_rhs)), ty: e.ty })
        },
        _ => (st, e),
    };
    assert(st1 == st);
    assert(spec_eval(r, st, e1) == spec_eval(r, st, e));
    if let Ok(ConstValueView::Int(v)) = spec_eval(r, st, e1).1 {
        match e.kind {
            ConstExprKind::IntLiteral(x) => lemma_coerce_again(ConstValueView::Int(x), v, e.ty),
            ConstExprKind::BoolLiteral(b) => lemma_coerce_again(ConstValueView::Bool(b), v, e.ty),
            ConstExprKind::Prefix(op, operand) => {
                let w = spec_eval(r, st, *operand).1->Ok_0;
                lemma_coerce_again(spec_eval_prefix(op, w)->Ok_0, v, e.ty);
            },
            ConstExprKind::Infix(op, lhs, rhs) => {
                let l = spec_eval(r, st, *lhs).1->Ok_0;
                let rv = spec_eval(r, st, *rhs).1->Ok_0;
                lemma_coerce_again(spec_eval_infix(op, l, rv)->Ok_0, v, e.ty);
            },
            _ => {},
        }
    }
}

/// Folds constant expressions into literals, evaluating them with an
/// evaluator of its own.
pub struct ConstFolder<'a, R: ConstResolver> {
    evaluator: ConstEvaluator<'a, R>,
}

impl<'a, R: ConstResolver> ConstFolder<'a, R> {
    /// The declarations evaluated against.
    pub closed spec fn spec_resolver(&self) -> &'a R {
        self.evaluator.spec_resolver()
    }

    /// The state of the folder's evaluator.
    pub closed spec fn state(&self) -> EvalState {
        self.evaluator.state()
    }

    /// A folder whose evaluator remembers nothing yet.
    pub fn new(resolver: &'a R) -> (r: Self)
        ensures
            r.spec_resolver() == resolver,
            r.state() == (EvalState { cache: Map::empty(), evaluating: Set::empty() }),
    {
        ConstFolder { evaluator: ConstEvaluator::new(resolver) }
    }

    fn fold(&mut self, expr: ConstExpr) -> (r: ConstExpr)
        ensures
            final(self).spec_resolver() == old(self).spec_resolver(),
            (final(self).state(), r) == spec_fold(old(self).spec_resolver(), old(self).state(), expr),
        decreases expr,
    {
        let ty = expr.ty;
        let folded = match expr.kind {
            ConstExprKind::Prefix(op, operand) => {
                let f = self.fold(*operand);
                ConstExpr { kind: ConstExprKind::Prefix(op, Box::new(f)), ty }
            },
            ConstExprKind::Infix(op, lhs, rhs) => {
                let fl = self.fold(*lhs);
                let fr = self.fold(*rhs);
                ConstExpr { kind: ConstExprKind::Infix(op, Box::new(fl), Box::new(fr)), ty }
            },
            kind => ConstExpr { kind, ty },
        };
        match self.evaluator.eval_expr(&folded) {
            Ok(ConstValue::Int(v)) => ConstExpr { kind: ConstExprKind::IntLiteral(v), ty },
            _ => folded,
        }
    }

    /// Folds an expression in place: its operands first, then the
    /// expression itself where it evaluates to an integer.
    pub fn fold_expr(&mut self, expr: &mut ConstExpr)
        ensures
            final(self).spec_resolver() == old(self).spec_resolver(),
            (final(self).state(), *final(expr)) == spec_fold(old(self).spec_resolver(), old(self).state(), *old(expr)),
    {
        let mut taken = ConstExpr { kind: ConstExprKind::Unsupported, ty: expr.ty };
        std::mem::swap(&mut taken, expr);
        *expr = self.fold(taken);
    }

    /// The integer an expression stands for: a literal's own value, else
    /// the value of its evaluation when that is an integer.
    pub fn expr_as_const_int(&mut self, expr: &ConstExpr) -> (r: Option<i128>)
        ensures
            final(self).spec_resolver() == old(self).spec_resolver(),
            match expr.kind {
                ConstExprKind::IntLiteral(v) => r == Some(v) && final(self).state() == old(self).state(),
                _ => final(self).state() == spec_eval(old(self).spec_resolver(), old(self).state(), *expr).0
                    && r == match spec_eval(old(self).spec_resolver(), old(self).state(), *expr).1 {
                    Ok(ConstValueView::Int(v)) => Some(v),
                    _ => None,
                },
            },
    {
        if let ConstExprKind::IntLiteral(v) = expr.kind {
            return Some(v);
        }
        match self.evaluator.eval_expr(expr) {
            Ok(value) => value.as_int(),
            Err(_) => None,
        }
    }
}

/// A declaration as constant evaluation sees it.
pub struct ConstDecl {
    pub decl_id: u64,
    pub is_const: bool,
    pub rhs: Option<ConstExpr>,
}

/// The first declaration with an id.
pub open spec fn spec_find_decl(decls: Seq<ConstDecl>, decl_id: u64) -> Option<ConstDecl>
    decreases decls.len(),
{
    if decls.len() == 0 {
        None
    } else if decls[0].decl_id == decl_id {
        Some(decls[0])
    } else {
        spec_find_decl(decls.drop_first(), decl_id)
    }
}

/// The declaration the first entry for a symbol names.
pub open spec fn spec_find_symbol(symbols: Seq<(u64, u64)>, symbol_id: u64) -> Option<u64>
    decreases symbols.len(),
{
    if symbols.len() == 0 {
        None
    } else if symbols[0].0 == symbol_id {
        Some(symbols[0].1)
    } else {
        spec_find_symbol(symbols.drop_first(), symbol_id)
    }
}

/// Declarations, and the symbols that name them, held in lists where the
/// first entry for an id counts.
pub struct ConstTable {
    pub decls: Vec<ConstDecl>,
    pub symbols: Vec<(u64, u64)>,
}

proof fn lemma_found_decl_listed(decls: Seq<ConstDecl>, decl_id: u64)
    requires
        spec_find_decl(decls, decl_id) is Some,
    ensures
        decls.map_values(|c: ConstDecl| c.decl_id).contains(decl_id),
    decreases decls.len(),
{
    let ids = decls.map_values(|c: ConstDecl| c.decl_id);
    if decls[0].decl_id == decl_id {
        assert(ids[0] == decl_id);
    } else {
        lemma_found_decl_listed(decls.drop_first(), decl_id);
        let rest = decls.drop_first().map_values(|c: ConstDecl| c.decl_id);
        let k = choose|k: int| 0 <= k < rest.len() && rest[k] == decl_id;
        assert(ids[k + 1] == decl_id);
    }
}

impl ConstTable {
    /// Where the first declaration with an id stands.
    fn find_decl(&self, decl_id: u64) -> (r: Option<usize>)
        ensures
            match r {
                Some(i) => i < self.decls.len() && spec_find_decl(self.decls@, decl_id) == Some(self.decls@[i as int]),
                None => spec_find_decl(self.decls@, decl_id) is None,
            },
    {
        let mut i: usize = 0;
        proof {
            assert(self.decls@.skip(0) =~= self.decls@);
        }
        while i < self.decls.len()
            invariant
                i <= self.decls.len(),
                spec_find_decl(self.decls@, decl_id) == spec_find_decl(self.decls@.skip(i as int), decl_id),
            decreases self.decls.len() - i,
        {
            if self.decls[i].decl_id == decl_id {
                return Some(i);
            }
            proof {
                assert(self.decls@.skip(i as int).drop_first() =~= self.decls@.skip(i + 1));
            }
            i = i + 1;
        }
        None
    }
}

impl ConstResolver for ConstTable {
    open spec fn spec_const_decls(&self) -> Set<u64> {
        Set::new(|d: u64| spec_find_decl(self.decls@, d) matches Some(c) && c.is_const)
    }

    open spec fn spec_rhs(&self, decl_id: u64) -> Option<ConstExpr> {
        match spec_find_decl(self.decls@, decl_id) {
            Some(c) => c.rhs,
            None => None,
        }
    }

    open spec fn spec_symbol_decl(&self, symbol_id: u64) -> Option<u64> {
        spec_find_symbol(self.symbols@, symbol_id)
    }

    proof fn lemma_const_decls_finite(&self) {
        let ids = self.decls@.map_values(|c: ConstDecl| c.decl_id).to_set();
        assert forall|d: u64| self.spec_const_decls().contains(d) implies ids.contains(d) by {
            lemma_found_decl_listed(self.decls@, d);
        }
        vstd::seq_lib::seq_to_set_is_finite(self.decls@.map_values(|c: ConstDecl| c.decl_id));
        vstd::set_lib::lemma_set_subset_finite(ids, self.spec_const_decls());
    }

    fn is_decl_const(&self, decl_id: u64) -> (r: bool) {
        match self.find_decl(decl_id) {
            Some(i) => self.decls[i].is_const,
            None => false,
        }
    }

    fn get_var_rhs_expr(&self, decl_id: u64) -> (r: Option<ConstExpr>) {
        match self.find_decl(decl_id) {
            Some(i) => match &self.decls[i].rhs {
                Some(e) => Some(copy_expr(e)),
                None => None,
            },
            None => None,
        }
    }

    fn lookup_symbol_as_decl_id(&self, symbol_id: u64) -> (r: Option<u64>) {
        let mut i: usize = 0;
        proof {
            assert(self.symbols@.skip(0) =~= self.symbols@);
        }
        while i < self.symbols.len()
            invariant
                i <= self.symbols.len(),
                spec_find_symbol(self.symbols@, symbol_id) == spec_find_symbol(self.symbols@.skip(i as int), symbol_id),
            decreases self.symbols.len() - i,
        {
            if self.symbols[i].0 == symbol_id {
                return Some(self.symbols[i].1);
            }
            proof {
                assert(self.symbols@.skip(i as int).drop_first() =~= self.symbols@.skip(i + 1));
            }
            i = i + 1;
        }
        None
    }
}

} // verus!
