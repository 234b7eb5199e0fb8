//! The mathematical model of the language: ghost mirrors of the syntax tree
//! and of runtime values, and the denotational semantics `eval_spec` that the
//! executable evaluator is proved to implement.
//!
//! Source locations are deliberately absent from the model: evaluation is
//! thereby proved never to depend on them.

use vstd::prelude::*;

use crate::ast::BinaryOp;

verus! {

/// A syntax-tree node, stripped of source locations.
pub ghost enum TermX {
    Int(i32),
    Str(Seq<char>),
    Bool(bool),
    Print(Box<TermX>),
    /// left operand, operator, right operand
    Binary(Box<TermX>, BinaryOp, Box<TermX>),
    /// condition, branch taken on true, branch taken on false
    If(Box<TermX>, Box<TermX>, Box<TermX>),
    /// bound name, bound value, continuation
    Let(Seq<char>, Box<TermX>, Box<TermX>),
    Var(Seq<char>),
    /// parameter names, body
    Function(Seq<Seq<char>>, Box<TermX>),
    /// callee, arguments
    Call(Box<TermX>, Seq<TermX>),
}

/// A function value: its body and formal parameter names.  No defining
/// environment is captured; calls resolve names in the caller's scope.
pub ghost struct ClosureX {
    pub body: TermX,
    pub params: Seq<Seq<char>>,
}

/// A runtime value.
pub ghost enum ValX {
    Void,
    Int(i32),
    Bool(bool),
    Str(Seq<char>),
    Closure(ClosureX),
}

/// The failure kinds evaluation can raise.
pub ghost enum ErrX {
    /// An operator or an `if` condition received the listed value(s)
    /// outside its domain.
    TypeMismatch(Seq<ValX>),
    /// A variable lookup found no binding for the name.
    UndefinedVariable(Seq<char>),
    /// A call's callee evaluated to the given non-closure value.
    NotAFunction(ValX),
    /// The nesting depth of calls exceeded the evaluator's fuel.
    DepthExceeded,
}

/// The environment: names bound to values, last write winning.
pub type ScopeX = Map<Seq<char>, ValX>;

/// Everything one evaluation step produces: its result, the caller-visible
/// scope after it, and the text it printed.
pub ghost struct Outcome {
    pub result: Result<ValX, ErrX>,
    pub scope: ScopeX,
    pub emitted: Seq<char>,
}

/// Outcome of binding a call's arguments: the callee scope on success, the
/// caller scope after the argument evaluations, and the text they printed.
pub ghost struct ArgsOutcome {
    pub result: Result<ScopeX, ErrX>,
    pub caller: ScopeX,
    pub emitted: Seq<char>,
}

/// The decimal digit character for `d < 10`.
pub open spec fn digit_char(d: nat) -> char {
    if d == 0 {
        '0'
    } else if d == 1 {
        '1'
    } else if d == 2 {
        '2'
    } else if d == 3 {
        '3'
    } else if d == 4 {
        '4'
    } else if d == 5 {
        '5'
    } else if d == 6 {
        '6'
    } else if d == 7 {
        '7'
    } else if d == 8 {
        '8'
    } else {
        '9'
    }
}

/// The decimal digits of `n`, most significant first, no leading zeros
/// (a single `'0'` for zero).
pub open spec fn digits_of(n: nat) -> Seq<char>
    decreases n,
{
    if n < 10 {
        seq![digit_char(n)]
    } else {
        digits_of(n / 10).push(digit_char(n % 10))
    }
}

/// The decimal rendering of an integer, with a leading `'-'` if negative.
pub open spec fn int_text(n: int) -> Seq<char> {
    if n < 0 {
        seq!['-'] + digits_of((-n) as nat)
    } else {
        digits_of(n as nat)
    }
}

/// How a value is rendered when printed: integers as decimal digits,
/// booleans as `true`/`false`, strings verbatim; void and closures
/// produce no text.
pub open spec fn render(v: ValX) -> Seq<char> {
    match v {
        ValX::Int(n) => int_text(n as int),
        ValX::Bool(b) => if b {
            seq!['t', 'r', 'u', 'e']
        } else {
            seq!['f', 'a', 'l', 's', 'e']
        },
        ValX::Str(s) => s,
        ValX::Void => Seq::empty(),
        ValX::Closure(_) => Seq::empty(),
    }
}

/// The text an operand contributes to a string concatenation.
pub open spec fn text_of(v: ValX) -> Seq<char> {
    match v {
        ValX::Int(n) => int_text(n as int),
        ValX::Str(s) => s,
        _ => Seq::empty(),
    }
}

/// Two's-complement wrap-around arithmetic on 32-bit integers for
/// `Add`, `Sub` and `Mul`.
pub open spec fn wrap_arith(op: BinaryOp, x: i32, y: i32) -> i32 {
    match op {
        BinaryOp::Add => vstd::wrapping::i32_specs::wrapping_add(x, y),
        BinaryOp::Sub => vstd::wrapping::i32_specs::wrapping_sub(x, y),
        _ => vstd::wrapping::i32_specs::wrapping_mul(x, y),
    }
}

/// The natural numeric comparison for `Eq`, `Neq`, `Lt`, `Gt`, `Lte`, `Gte`.
pub open spec fn compare_ints(op: BinaryOp, x: i32, y: i32) -> bool {
    match op {
        BinaryOp::Eq => x == y,
        BinaryOp::Neq => x != y,
        BinaryOp::Lt => x < y,
        BinaryOp::Gt => x > y,
        BinaryOp::Lte => x <= y,
        _ => x >= y,
    }
}

/// `Add`, `Sub`, `Mul`: arithmetic on two integers; if either operand is a
/// string and the other an integer or a string, the operator is ignored and
/// the operands are concatenated as text in left-to-right order.  Anything
/// else is a type mismatch.
pub open spec fn apply_arith(op: BinaryOp, a: ValX, b: ValX) -> Result<ValX, ErrX> {
    match (a, b) {
        (ValX::Int(x), ValX::Int(y)) => Ok(ValX::Int(wrap_arith(op, x, y))),
        (ValX::Str(_), ValX::Int(_)) => Ok(ValX::Str(text_of(a) + text_of(b))),
        (ValX::Int(_), ValX::Str(_)) => Ok(ValX::Str(text_of(a) + text_of(b))),
        (ValX::Str(_), ValX::Str(_)) => Ok(ValX::Str(text_of(a) + text_of(b))),
        _ => Err(ErrX::TypeMismatch(seq![a, b])),
    }
}

/// Comparisons are defined on two integers only.
pub open spec fn apply_comparison(op: BinaryOp, a: ValX, b: ValX) -> Result<ValX, ErrX> {
    match (a, b) {
        (ValX::Int(x), ValX::Int(y)) => Ok(ValX::Bool(compare_ints(op, x, y))),
        _ => Err(ErrX::TypeMismatch(seq![a, b])),
    }
}

/// `And` and `Or` are defined on two booleans only; both operands have
/// already been evaluated (no short-circuiting).
pub open spec fn apply_logical(op: BinaryOp, a: ValX, b: ValX) -> Result<ValX, ErrX> {
    match (a, b) {
        (ValX::Bool(x), ValX::Bool(y)) => Ok(
            ValX::Bool(if op == BinaryOp::And {
                x && y
            } else {
                x || y
            }),
        ),
        _ => Err(ErrX::TypeMismatch(seq![a, b])),
    }
}

/// What a binary operator yields on two already-evaluated operands.
pub open spec fn apply_binary(op: BinaryOp, a: ValX, b: ValX) -> Result<ValX, ErrX> {
    match op {
        BinaryOp::Add => apply_arith(op, a, b),
        BinaryOp::Sub => apply_arith(op, a, b),
        BinaryOp::Mul => apply_arith(op, a, b),
        BinaryOp::And => apply_logical(op, a, b),
        BinaryOp::Or => apply_logical(op, a, b),
        _ => apply_comparison(op, a, b),
    }
}

/// The semantics of one term: its result, the scope it leaves behind, and
/// the text it prints, all a pure function of the term, the scope it starts
/// from, and the fuel.  Fuel bounds the nesting depth of function calls and
/// decreases only when a call's body is entered; exceeding it is the typed
/// error `ErrX::DepthExceeded`.
pub open spec fn eval_spec(t: TermX, scope: ScopeX, fuel: nat) -> Outcome
    decreases fuel, t, 0int,
{
    match t {
        TermX::Int(n) => Outcome { result: Ok(ValX::Int(n)), scope, emitted: Seq::empty() },
        TermX::Str(s) => Outcome { result: Ok(ValX::Str(s)), scope, emitted: Seq::empty() },
        TermX::Bool(b) => Outcome { result: Ok(ValX::Bool(b)), scope, emitted: Seq::empty() },
        TermX::Print(inner) => {
            let o = eval_spec(*inner, scope, fuel);
            match o.result {
                Ok(v) => Outcome { result: Ok(v), scope: o.scope, emitted: o.emitted + render(v) },
                Err(_) => o,
            }
        },
        TermX::Binary(lhs, op, rhs) => {
            let ol = eval_spec(*lhs, scope, fuel);
            match ol.result {
                Err(_) => ol,
                Ok(a) => {
                    let or = eval_spec(*rhs, ol.scope, fuel);
                    match or.result {
                        Err(e) => Outcome {
                            result: Err(e),
                            scope: or.scope,
                            emitted: ol.emitted + or.emitted,
                        },
                        Ok(b) => Outcome {
                            result: apply_binary(op, a, b),
                            scope: or.scope,
                            emitted: ol.emitted + or.emitted,
                        },
                    }
                },
            }
        },
        TermX::If(cond, on_true, on_false) => {
            let oc = eval_spec(*cond, scope, fuel);
            match oc.result {
                Err(_) => oc,
                Ok(v) => match v {
                    ValX::Bool(b) => {
                        let ob = eval_spec(if b {
                            *on_true
                        } else {
                            *on_false
                        }, oc.scope, fuel);
                        Outcome {
                            result: ob.result,
                            scope: ob.scope,
                            emitted: oc.emitted + ob.emitted,
                        }
                    },
                    _ => Outcome {
                        result: Err(ErrX::TypeMismatch(seq![v])),
                        scope: oc.scope,
                        emitted: oc.emitted,
                    },
                },
            }
        },
        TermX::Let(name, value, next) => {
            let ov = eval_spec(*value, scope, fuel);
            match ov.result {
                Err(_) => ov,
                Ok(v) => {
                    let on = eval_spec(*next, ov.scope.insert(name, v), fuel);
                    Outcome { result: on.result, scope: on.scope, emitted: ov.emitted + on.emitted }
                },
            }
        },
        TermX::Var(name) => {
            if scope.contains_key(name) {
                Outcome { result: Ok(scope[name]), scope, emitted: Seq::empty() }
            } else {
                Outcome {
                    result: Err(ErrX::UndefinedVariable(name)),
                    scope,
                    emitted: Seq::empty(),
                }
            }
        },
        TermX::Function(params, body) => Outcome {
            result: Ok(ValX::Closure(ClosureX { body: *body, params })),
            scope,
            emitted: Seq::empty(),
        },
        TermX::Call(callee, args) => {
            let oc = eval_spec(*callee, scope, fuel);
            match oc.result {
                Err(_) => oc,
                Ok(v) => match v {
                    ValX::Closure(clo) => {
                        if fuel == 0 {
                            Outcome {
                                result: Err(ErrX::DepthExceeded),
                                scope: oc.scope,
                                emitted: oc.emitted,
                            }
                        } else {
                            // The callee scope starts as a full copy of the
                            // caller's scope as it stands after the callee
                            // evaluated; argument side effects on the caller
                            // scope persist but callee bindings do not leak
                            // back.
                            let oa = eval_args_spec(clo.params, args, 0, oc.scope, oc.scope, fuel);
                            match oa.result {
                                Err(e) => Outcome {
                                    result: Err(e),
                                    scope: oa.caller,
                                    emitted: oc.emitted + oa.emitted,
                                },
                                Ok(bound) => {
                                    let ob = eval_spec(clo.body, bound, (fuel - 1) as nat);
                                    Outcome {
                                        result: ob.result,
                                        scope: oa.caller,
                                        emitted: oc.emitted + oa.emitted + ob.emitted,
                                    }
                                },
                            }
                        }
                    },
                    _ => Outcome {
                        result: Err(ErrX::NotAFunction(v)),
                        scope: oc.scope,
                        emitted: oc.emitted,
                    },
                },
            }
        },
    }
}

/// Pairwise binding of a call's arguments to the closure's parameter names,
/// from position `i` on.  Each argument is evaluated in the caller's scope,
/// threaded left to right, and its value inserted into the callee scope
/// being built (`bound`).  The zip stops at the shorter list: surplus
/// parameters stay unbound and surplus arguments are never evaluated.
pub open spec fn eval_args_spec(
    params: Seq<Seq<char>>,
    args: Seq<TermX>,
    i: int,
    caller: ScopeX,
    bound: ScopeX,
    fuel: nat,
) -> ArgsOutcome
    decreases fuel, args, args.len() - i,
{
    if i < 0 || i >= params.len() || i >= args.len() {
        ArgsOutcome { result: Ok(bound), caller, emitted: Seq::empty() }
    } else {
        let o = eval_spec(args[i], caller, fuel);
        match o.result {
            Err(e) => ArgsOutcome { result: Err(e), caller: o.scope, emitted: o.emitted },
            Ok(v) => {
                let rest = eval_args_spec(
                    params,
                    args,
                    i + 1,
                    o.scope,
                    bound.insert(params[i], v),
                    fuel,
                );
                ArgsOutcome {
                    result: rest.result,
                    caller: rest.caller,
                    emitted: o.emitted + rest.emitted,
                }
            },
        }
    }
}

} // verus!
