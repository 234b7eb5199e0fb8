//! The general laws of the language, stated over the semantics in
//! [`crate::model`] and proved once for all inputs.  Together with the
//! evaluator's contract — its result is exactly
//! [`eval_spec`](crate::model::eval_spec) of its inputs — each law carries
//! over to every run of the executable evaluator.

use vstd::prelude::*;

use crate::ast::BinaryOp;
use crate::model::{
    apply_binary, eval_args_spec, eval_spec, render, text_of, ArgsOutcome, ClosureX, ErrX,
    Outcome, ScopeX, TermX, ValX,
};

verus! {

/// Literals are identities: evaluating an integer, string or boolean
/// literal yields exactly the wrapped value, touches no binding and prints
/// nothing.
pub proof fn lemma_literal_identity(n: i32, s: Seq<char>, b: bool, scope: ScopeX, fuel: nat)
    ensures
        eval_spec(TermX::Int(n), scope, fuel) == (Outcome {
            result: Ok::<ValX, ErrX>(ValX::Int(n)),
            scope,
            emitted: Seq::<char>::empty(),
        }),
        eval_spec(TermX::Str(s), scope, fuel) == (Outcome {
            result: Ok::<ValX, ErrX>(ValX::Str(s)),
            scope,
            emitted: Seq::<char>::empty(),
        }),
        eval_spec(TermX::Bool(b), scope, fuel) == (Outcome {
            result: Ok::<ValX, ErrX>(ValX::Bool(b)),
            scope,
            emitted: Seq::<char>::empty(),
        }),
{
}

/// `Print` is transparent: it returns exactly the value of its sub-term,
/// leaves the scope as the sub-term left it, and appends that value's
/// rendering to whatever the sub-term printed; on error it adds nothing.
pub proof fn lemma_print_transparent(x: TermX, scope: ScopeX, fuel: nat)
    ensures
        ({
            let o = eval_spec(x, scope, fuel);
            let op = eval_spec(TermX::Print(Box::new(x)), scope, fuel);
            &&& op.result == o.result
            &&& op.scope == o.scope
            &&& (o.result matches Ok(v) ==> op.emitted == o.emitted + render(v))
            &&& (o.result is Err ==> op.emitted == o.emitted)
        }),
{
}

/// Addition of two integer literals is commutative.
pub proof fn lemma_add_commutative(a: i32, b: i32, scope: ScopeX, fuel: nat)
    ensures
        eval_spec(
            TermX::Binary(Box::new(TermX::Int(a)), BinaryOp::Add, Box::new(TermX::Int(b))),
            scope,
            fuel,
        ) == eval_spec(
            TermX::Binary(Box::new(TermX::Int(b)), BinaryOp::Add, Box::new(TermX::Int(a))),
            scope,
            fuel,
        ),
{
    reveal_with_fuel(eval_spec, 3);
}

/// Addition of integer literals is associative (wrap-around arithmetic is
/// associative, so grouping does not matter).
pub proof fn lemma_add_associative(a: i32, b: i32, c: i32, scope: ScopeX, fuel: nat)
    ensures
        eval_spec(
            TermX::Binary(
                Box::new(
                    TermX::Binary(Box::new(TermX::Int(a)), BinaryOp::Add, Box::new(TermX::Int(b))),
                ),
                BinaryOp::Add,
                Box::new(TermX::Int(c)),
            ),
            scope,
            fuel,
        ).result == eval_spec(
            TermX::Binary(
                Box::new(TermX::Int(a)),
                BinaryOp::Add,
                Box::new(
                    TermX::Binary(Box::new(TermX::Int(b)), BinaryOp::Add, Box::new(TermX::Int(c))),
                ),
            ),
            scope,
            fuel,
        ).result,
{
    reveal_with_fuel(eval_spec, 4);
}

/// On two integers whose true sum or difference fits in 32 bits, `Add` and
/// `Sub` are genuine arithmetic: no wrap-around happens and the result is
/// exactly the sum or the difference.
pub proof fn lemma_int_arithmetic_exact(a: i32, b: i32)
    ensures
        i32::MIN <= a + b <= i32::MAX ==> apply_binary(BinaryOp::Add, ValX::Int(a), ValX::Int(b))
            == Ok::<ValX, ErrX>(ValX::Int((a + b) as i32)),
        i32::MIN <= a - b <= i32::MAX ==> apply_binary(BinaryOp::Sub, ValX::Int(a), ValX::Int(b))
            == Ok::<ValX, ErrX>(ValX::Int((a - b) as i32)),
{
}

/// String coercion: for any of `Add`, `Sub` and `Mul`, if either operand is
/// a string and each operand is a string or an integer, the operator is
/// ignored and the result is the left operand's text concatenated with the
/// right operand's text.
pub proof fn lemma_string_coercion(op: BinaryOp, a: ValX, b: ValX)
    requires
        op == BinaryOp::Add || op == BinaryOp::Sub || op == BinaryOp::Mul,
        a is Str || b is Str,
        a is Str || a is Int,
        b is Str || b is Int,
    ensures
        apply_binary(op, a, b) == Ok::<ValX, ErrX>(ValX::Str(text_of(a) + text_of(b))),
{
}

/// Comparisons on anything but two integers fail with a type mismatch
/// naming both operand values — they never quietly yield a boolean.
pub proof fn lemma_comparison_type_error(op: BinaryOp, a: ValX, b: ValX)
    requires
        op == BinaryOp::Eq || op == BinaryOp::Neq || op == BinaryOp::Lt || op == BinaryOp::Gt
            || op == BinaryOp::Lte || op == BinaryOp::Gte,
        !(a is Int && b is Int),
    ensures
        apply_binary(op, a, b) == Err::<ValX, ErrX>(ErrX::TypeMismatch(seq![a, b])),
{
}

/// `Let` shadowing: binding a name and then binding it again makes the
/// inner binding the one a variable reference sees — `let x = t1 in
/// (let x = t2 in x)` yields `t2`'s value whenever both bound terms
/// evaluate successfully.
pub proof fn lemma_let_shadowing(name: Seq<char>, t1: TermX, t2: TermX, scope: ScopeX, fuel: nat)
    requires
        eval_spec(t1, scope, fuel).result is Ok,
        eval_spec(
            t2,
            eval_spec(t1, scope, fuel).scope.insert(
                name,
                eval_spec(t1, scope, fuel).result->Ok_0,
            ),
            fuel,
        ).result is Ok,
    ensures
        eval_spec(
            TermX::Let(
                name,
                Box::new(t1),
                Box::new(TermX::Let(name, Box::new(t2), Box::new(TermX::Var(name)))),
            ),
            scope,
            fuel,
        ).result == Ok::<ValX, ErrX>(
            eval_spec(
                t2,
                eval_spec(t1, scope, fuel).scope.insert(
                    name,
                    eval_spec(t1, scope, fuel).result->Ok_0,
                ),
                fuel,
            ).result->Ok_0,
        ),
{
    reveal_with_fuel(eval_spec, 4);
}

/// Referencing a name the scope does not bind is the undefined-variable
/// error, and nothing else happens.
pub proof fn lemma_undefined_variable(name: Seq<char>, scope: ScopeX, fuel: nat)
    requires
        !scope.contains_key(name),
    ensures
        eval_spec(TermX::Var(name), scope, fuel) == (Outcome {
            result: Err::<ValX, ErrX>(ErrX::UndefinedVariable(name)),
            scope,
            emitted: Seq::<char>::empty(),
        }),
{
}

/// Closures do not retain a defining scope: a function literal evaluates to
/// the same closure value in every scope, so the names in its body can only
/// be resolved against the scope of the call.
pub proof fn lemma_function_ignores_scope(
    params: Seq<Seq<char>>,
    body: TermX,
    s1: ScopeX,
    s2: ScopeX,
    fuel: nat,
)
    ensures
        eval_spec(TermX::Function(params, Box::new(body)), s1, fuel).result == eval_spec(
            TermX::Function(params, Box::new(body)),
            s2,
            fuel,
        ).result,
        eval_spec(TermX::Function(params, Box::new(body)), s1, fuel).result == Ok::<ValX, ErrX>(
            ValX::Closure(ClosureX { body, params }),
        ),
{
}

/// Calling with no arguments binds no parameter: the callee scope is left
/// exactly as it started, so a parameter referenced in the body resolves
/// like any other name — unbound ones fail as undefined variables, not as
/// an arity error.
pub proof fn lemma_no_arguments_bind_nothing(
    params: Seq<Seq<char>>,
    i: int,
    caller: ScopeX,
    bound: ScopeX,
    fuel: nat,
)
    ensures
        eval_args_spec(params, Seq::empty(), i, caller, bound, fuel) == (ArgsOutcome {
            result: Ok::<ScopeX, ErrX>(bound),
            caller,
            emitted: Seq::<char>::empty(),
        }),
{
}

/// Evaluation is a pure function of the term, the starting bindings and the
/// fuel: equivalent scopes give equal outcomes, so re-evaluating the same
/// term against a fresh equivalent scope always yields the same value or
/// the same error.
pub proof fn lemma_eval_deterministic(t: TermX, s1: ScopeX, s2: ScopeX, fuel: nat)
    requires
        s1 =~= s2,
    ensures
        eval_spec(t, s1, fuel) == eval_spec(t, s2, fuel),
{
}

} // verus!
