//! The evaluator: a single recursive descent over the term with an explicit
//! error channel, proved to implement the semantics
//! [`eval_spec`](crate::model::eval_spec) exactly.
//!
//! Because the result, the final scope and the emitted text all equal a pure
//! function of the term's model, the starting bindings and the fuel,
//! re-evaluating the same term against an equivalent fresh scope always
//! yields the same value or the same error.

use vstd::prelude::*;

use crate::ast::{
    clone_parameters, lemma_view_terms, params_view, view_term, view_terms, BinaryOp, Parameter,
    Term,
};
use crate::model::{
    apply_arith, apply_binary, apply_comparison, apply_logical, eval_args_spec, eval_spec,
    render, Outcome, ScopeX,
};
use crate::value::{int_to_string, vals_view, Closure, EvalError, Output, Scope, Val};
use vstd::string::StringExecFns;

verus! {

/// Whether the executable pieces of one evaluation — its result, the scope
/// it leaves and how the output grew — are exactly the model outcome `o`.
pub open spec fn matches_outcome(
    r: Result<Val, EvalError>,
    scope_after: ScopeX,
    out_before: Seq<char>,
    out_after: Seq<char>,
    o: Outcome,
) -> bool {
    &&& scope_after == o.scope
    &&& out_after == out_before + o.emitted
    &&& match r {
        Ok(v) => o.result matches Ok(w) && v@ == w,
        Err(e) => o.result matches Err(f) && e@ == f,
    }
}

/// `Add`, `Sub` or `Mul` on two evaluated operands: wrap-around arithmetic
/// on two integers, text concatenation when a string is involved.
fn apply_arith_op(op: &BinaryOp, a: Val, b: Val) -> (r: Result<Val, EvalError>)
    requires
        *op == BinaryOp::Add || *op == BinaryOp::Sub || *op == BinaryOp::Mul,
    ensures
        match r {
            Ok(v) => apply_arith(*op, a@, b@) matches Ok(w) && v@ == w,
            Err(e) => apply_arith(*op, a@, b@) matches Err(f) && e@ == f,
        },
{
    match (a, b) {
        (Val::Int(x), Val::Int(y)) => {
            let z = match op {
                BinaryOp::Add => x.wrapping_add(y),
                BinaryOp::Sub => x.wrapping_sub(y),
                _ => x.wrapping_mul(y),
            };
            Ok(Val::Int(z))
        },
        (Val::Str(x), Val::Int(y)) => {
            let t = int_to_string(y);
            Ok(Val::Str(x.concat(t.as_str())))
        },
        (Val::Int(x), Val::Str(y)) => {
            let t = int_to_string(x);
            Ok(Val::Str(t.concat(y.as_str())))
        },
        (Val::Str(x), Val::Str(y)) => Ok(Val::Str(x.concat(y.as_str()))),
        (av, bv) => {
            let ghost m = seq![av@, bv@];
            let vs = vec![av, bv];
            proof {
                assert(vals_view(vs@) =~= m);
            }
            Err(EvalError::TypeMismatch(vs))
        },
    }
}

/// A comparison on two evaluated operands: defined on two integers only.
fn apply_comparison_op(op: &BinaryOp, a: Val, b: Val) -> (r: Result<Val, EvalError>)
    requires
        *op == BinaryOp::Eq || *op == BinaryOp::Neq || *op == BinaryOp::Lt || *op
            == BinaryOp::Gt || *op == BinaryOp::Lte || *op == BinaryOp::Gte,
    ensures
        match r {
            Ok(v) => apply_comparison(*op, a@, b@) matches Ok(w) && v@ == w,
            Err(e) => apply_comparison(*op, a@, b@) matches Err(f) && e@ == f,
        },
{
    match (a, b) {
        (Val::Int(x), Val::Int(y)) => {
            let z = match op {
                BinaryOp::Eq => x == y,
                BinaryOp::Neq => x != y,
                BinaryOp::Lt => x < y,
                BinaryOp::Gt => x > y,
                BinaryOp::Lte => x <= y,
                _ => x >= y,
            };
            Ok(Val::Bool(z))
        },
        (av, bv) => {
            let ghost m = seq![av@, bv@];
            let vs = vec![av, bv];
            proof {
                assert(vals_view(vs@) =~= m);
            }
            Err(EvalError::TypeMismatch(vs))
        },
    }
}

/// `And` or `Or` on two evaluated operands: defined on two booleans only;
/// both operands were already evaluated, so nothing short-circuits.
fn apply_logical_op(op: &BinaryOp, a: Val, b: Val) -> (r: Result<Val, EvalError>)
    requires
        *op == BinaryOp::And || *op == BinaryOp::Or,
    ensures
        match r {
            Ok(v) => apply_logical(*op, a@, b@) matches Ok(w) && v@ == w,
            Err(e) => apply_logical(*op, a@, b@) matches Err(f) && e@ == f,
        },
{
    match (a, b) {
        (Val::Bool(x), Val::Bool(y)) => {
            let z = match op {
                BinaryOp::And => x && y,
                _ => x || y,
            };
            Ok(Val::Bool(z))
        },
        (av, bv) => {
            let ghost m = seq![av@, bv@];
            let vs = vec![av, bv];
            proof {
                assert(vals_view(vs@) =~= m);
            }
            Err(EvalError::TypeMismatch(vs))
        },
    }
}

/// Applies a binary operator to its two evaluated operands, exactly as
/// [`apply_binary`] says.
pub fn apply_binary_op(op: &BinaryOp, a: Val, b: Val) -> (r: Result<Val, EvalError>)
    ensures
        match r {
            Ok(v) => apply_binary(*op, a@, b@) matches Ok(w) && v@ == w,
            Err(e) => apply_binary(*op, a@, b@) matches Err(f) && e@ == f,
        },
{
    match op {
        BinaryOp::Add => apply_arith_op(op, a, b),
        BinaryOp::Sub => apply_arith_op(op, a, b),
        BinaryOp::Mul => apply_arith_op(op, a, b),
        BinaryOp::And => apply_logical_op(op, a, b),
        BinaryOp::Or => apply_logical_op(op, a, b),
        _ => apply_comparison_op(op, a, b),
    }
}

/// Evaluates the arguments of a call from position `i` on, binding each
/// value to the matching parameter name in `bound`.  Arguments run in the
/// caller's scope, threaded left to right; the zip stops at the shorter of
/// the two lists, exactly as [`eval_args_spec`] says.
fn eval_call_args(
    params: &Vec<Parameter>,
    args: &Vec<Term>,
    i: usize,
    caller: &mut Scope,
    bound: &mut Scope,
    out: &mut Output,
    fuel: u64,
) -> (r: Result<(), EvalError>)
    ensures
        ({
            let oa = eval_args_spec(
                params_view(params@),
                view_terms(args@),
                i as int,
                old(caller)@,
                old(bound)@,
                fuel as nat,
            );
            &&& final(caller)@ == oa.caller
            &&& final(out)@ == old(out)@ + oa.emitted
            &&& match r {
                Ok(_) => oa.result matches Ok(m) && final(bound)@ == m,
                Err(e) => oa.result matches Err(f) && e@ == f,
            }
        }),
    decreases fuel, args@, args@.len() - i,
{
    proof {
        lemma_view_terms(args@);
    }
    if i >= params.len() || i >= args.len() {
        proof {
            assert(old(out)@ + Seq::<char>::empty() =~= old(out)@);
        }
        Ok(())
    } else {
        let ghost o1 = eval_spec(view_term(args@[i as int]), caller@, fuel as nat);
        match eval_fuel(&args[i], caller, out, fuel) {
            Err(e) => Err(e),
            Ok(v) => {
                let ghost vv = v@;
                bound.insert(params[i].text.clone(), v);
                let ghost orest = eval_args_spec(
                    params_view(params@),
                    view_terms(args@),
                    i as int + 1,
                    caller@,
                    bound@,
                    fuel as nat,
                );
                let r = eval_call_args(params, args, i + 1, caller, bound, out, fuel);
                proof {
                    assert(out@ =~= old(out)@ + (o1.emitted + orest.emitted));
                }
                r
            },
        }
    }
}

/// Evaluates one term.  The result, the bindings the scope ends with, and
/// the text appended to `out` are together exactly
/// `eval_spec(term@, old(scope)@, fuel)`: a pure function of the term's
/// model, the starting bindings and the fuel.  `fuel` bounds the nesting
/// depth of function calls; exceeding it yields
/// [`EvalError::DepthExceeded`].
pub fn eval_fuel(term: &Term, scope: &mut Scope, out: &mut Output, fuel: u64) -> (r: Result<
    Val,
    EvalError,
>)
    ensures
        matches_outcome(
            r,
            final(scope)@,
            old(out)@,
            final(out)@,
            eval_spec(term@, old(scope)@, fuel as nat),
        ),
    decreases fuel, *term, 0int,
{
    match term {
        Term::Int(n) => {
            proof {
                assert(old(out)@ + Seq::<char>::empty() =~= old(out)@);
            }
            Ok(Val::Int(n.value))
        },
        Term::Str(s) => {
            proof {
                assert(old(out)@ + Seq::<char>::empty() =~= old(out)@);
            }
            Ok(Val::Str(s.value.clone()))
        },
        Term::Bool(b) => {
            proof {
                assert(old(out)@ + Seq::<char>::empty() =~= old(out)@);
            }
            Ok(Val::Bool(b.value))
        },
        Term::Print(p) => {
            let ghost o_i = eval_spec(view_term(*p.value), old(scope)@, fuel as nat);
            match eval_fuel(&*p.value, scope, out, fuel) {
                Err(e) => Err(e),
                Ok(v) => {
                    out.emit_val(&v);
                    proof {
                        assert(out@ =~= old(out)@ + (o_i.emitted + render(v@)));
                    }
                    Ok(v)
                },
            }
        },
        Term::Binary(b) => {
            let ghost o_l = eval_spec(view_term(*b.lhs), old(scope)@, fuel as nat);
            match eval_fuel(&*b.lhs, scope, out, fuel) {
                Err(e) => Err(e),
                Ok(av) => {
                    let ghost o_r = eval_spec(view_term(*b.rhs), scope@, fuel as nat);
                    match eval_fuel(&*b.rhs, scope, out, fuel) {
                        Err(e) => {
                            proof {
                                assert(out@ =~= old(out)@ + (o_l.emitted + o_r.emitted));
                            }
                            Err(e)
                        },
                        Ok(bv) => {
                            let r = apply_binary_op(&b.op, av, bv);
                            proof {
                                assert(out@ =~= old(out)@ + (o_l.emitted + o_r.emitted));
                            }
                            r
                        },
                    }
                },
            }
        },
        Term::If(i) => {
            let ghost o_c = eval_spec(view_term(*i.condition), old(scope)@, fuel as nat);
            match eval_fuel(&*i.condition, scope, out, fuel) {
                Err(e) => Err(e),
                Ok(v) => match v {
                    Val::Bool(bb) => {
                        let ghost o_b = eval_spec(
                            if bb {
                                view_term(*i.then_branch)
                            } else {
                                view_term(*i.otherwise)
                            },
                            scope@,
                            fuel as nat,
                        );
                        let r = eval_fuel(
                            if bb {
                                &*i.then_branch
                            } else {
                                &*i.otherwise
                            },
                            scope,
                            out,
                            fuel,
                        );
                        proof {
                            assert(out@ =~= old(out)@ + (o_c.emitted + o_b.emitted));
                        }
                        r
                    },
                    other => {
                        let ghost m = seq![other@];
                        let vs = vec![other];
                        proof {
                            assert(vals_view(vs@) =~= m);
                        }
                        Err(EvalError::TypeMismatch(vs))
                    },
                },
            }
        },
        Term::Let(l) => {
            match eval_fuel(&*l.value, scope, out, fuel) {
                Err(e) => Err(e),
                Ok(v) => {
                    let ghost o_v = eval_spec(view_term(*l.value), old(scope)@, fuel as nat);
                    scope.insert(l.name.text.clone(), v);
                    let ghost o_n = eval_spec(view_term(*l.next), scope@, fuel as nat);
                    let r = eval_fuel(&*l.next, scope, out, fuel);
                    proof {
                        assert(out@ =~= old(out)@ + (o_v.emitted + o_n.emitted));
                    }
                    r
                },
            }
        },
        Term::Var(v) => {
            proof {
                assert(old(out)@ + Seq::<char>::empty() =~= old(out)@);
            }
            match scope.get(&v.text) {
                Some(val) => Ok(val.clone()),
                None => Err(EvalError::UndefinedVariable(v.text.clone())),
            }
        },
        Term::Function(f) => {
            proof {
                assert(old(out)@ + Seq::<char>::empty() =~= old(out)@);
            }
            let body = (*f.value).clone();
            let params = clone_parameters(&f.parameters);
            Ok(Val::Closure(Closure::new(body, params)))
        },
        Term::Call(c) => {
            let ghost o_c = eval_spec(view_term(*c.callee), old(scope)@, fuel as nat);
            match eval_fuel(&*c.callee, scope, out, fuel) {
                Err(e) => Err(e),
                Ok(v) => match v {
                    Val::Closure(clo) => {
                        if fuel == 0 {
                            Err(EvalError::DepthExceeded)
                        } else {
                            let mut bound = scope.clone();
                            let ghost o_a = eval_args_spec(
                                params_view(clo.parameters@),
                                view_terms(c.arguments@),
                                0,
                                scope@,
                                scope@,
                                fuel as nat,
                            );
                            match eval_call_args(
                                &clo.parameters,
                                &c.arguments,
                                0,
                                scope,
                                &mut bound,
                                out,
                                fuel,
                            ) {
                                Err(e) => {
                                    proof {
                                        assert(out@ =~= old(out)@ + (o_c.emitted + o_a.emitted));
                                    }
                                    Err(e)
                                },
                                Ok(_) => {
                                    let ghost o_b = eval_spec(
                                        view_term(clo.body),
                                        bound@,
                                        (fuel - 1) as nat,
                                    );
                                    let r = eval_fuel(&clo.body, &mut bound, out, fuel - 1);
                                    proof {
                                        assert(out@ =~= old(out)@ + (o_c.emitted + o_a.emitted
                                            + o_b.emitted));
                                    }
                                    r
                                },
                            }
                        }
                    },
                    other => Err(EvalError::NotAFunction(other)),
                },
            }
        },
    }
}

/// Evaluates one root term against the given scope, collecting printed text
/// in `out`.  Equivalent to [`eval_fuel`] with the largest fuel, so the call
/// depth is bounded only by the machine.
pub fn eval(term: &Term, scope: &mut Scope, out: &mut Output) -> (r: Result<Val, EvalError>)
    ensures
        matches_outcome(
            r,
            final(scope)@,
            old(out)@,
            final(out)@,
            eval_spec(term@, old(scope)@, u64::MAX as nat),
        ),
{
    eval_fuel(term, scope, out, u64::MAX)
}

impl Val {
    /// Evaluates `term`; the entry point the driver calls.
    pub fn eval(term: &Term, scope: &mut Scope, out: &mut Output) -> (r: Result<Val, EvalError>)
        ensures
            matches_outcome(
                r,
                final(scope)@,
                old(out)@,
                final(out)@,
                eval_spec(term@, old(scope)@, u64::MAX as nat),
            ),
    {
        Self::try_from(term, scope, out)
    }

    /// Evaluates `term` to the value it denotes, if any.
    pub fn try_from(term: &Term, scope: &mut Scope, out: &mut Output) -> (r: Result<
        Val,
        EvalError,
    >)
        ensures
            matches_outcome(
                r,
                final(scope)@,
                old(out)@,
                final(out)@,
                eval_spec(term@, old(scope)@, u64::MAX as nat),
            ),
    {
        eval(term, scope, out)
    }
}

} // verus!
