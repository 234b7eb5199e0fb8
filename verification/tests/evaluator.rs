//! End-to-end tests of the evaluator: per-node-kind rules, operator
//! semantics with the deliberate string-coercion quirk, scoping, calls,
//! and the error taxonomy.

use xpto::ast::{Binary, BinaryOp, Bool, Call, Function, If, Int, Let, Location, Parameter, Print,
    Str, Term, Var};
use xpto::eval::{eval, eval_fuel};
use xpto::value::{EvalError, Output, Scope, Val};

fn loc() -> Location {
    Location { start: 0, end: 0, filename: String::from("test") }
}

fn num(n: i32) -> Term {
    Term::Int(Int { value: n, location: loc() })
}

fn text(s: &str) -> Term {
    Term::Str(Str { value: String::from(s), location: loc() })
}

fn boolean(b: bool) -> Term {
    Term::Bool(Bool { value: b, location: loc() })
}

fn print(t: Term) -> Term {
    Term::Print(Print { value: Box::new(t), location: loc() })
}

fn binary(l: Term, op: BinaryOp, r: Term) -> Term {
    Term::Binary(Binary { lhs: Box::new(l), op, rhs: Box::new(r), location: loc() })
}

fn cond(c: Term, t: Term, e: Term) -> Term {
    Term::If(If {
        condition: Box::new(c),
        then_branch: Box::new(t),
        otherwise: Box::new(e),
        location: loc(),
    })
}

fn bind(name: &str, value: Term, next: Term) -> Term {
    Term::Let(Let {
        name: Parameter { text: String::from(name), location: loc() },
        value: Box::new(value),
        next: Box::new(next),
        location: loc(),
    })
}

fn var(name: &str) -> Term {
    Term::Var(Var { text: String::from(name), location: loc() })
}

fn function(params: &[&str], body: Term) -> Term {
    let parameters = params
        .iter()
        .map(|p| Parameter { text: String::from(*p), location: loc() })
        .collect();
    Term::Function(Function { parameters, value: Box::new(body), location: loc() })
}

fn call(callee: Term, arguments: Vec<Term>) -> Term {
    Term::Call(Call { callee: Box::new(callee), arguments, location: loc() })
}

fn run(t: &Term) -> (Result<Val, EvalError>, String) {
    let mut scope = Scope::new();
    let mut out = Output::new();
    let r = eval(t, &mut scope, &mut out);
    (r, String::from(out.as_str()))
}

fn is_type_mismatch(r: &Result<Val, EvalError>) -> bool {
    matches!(r, Err(EvalError::TypeMismatch(_)))
}

#[test]
fn int_literal_identity() {
    let (r, out) = run(&num(42));
    assert_eq!(r.unwrap(), Val::Int(42));
    assert_eq!(out, "");
}

#[test]
fn str_literal_identity() {
    let (r, out) = run(&text("hello"));
    assert_eq!(r.unwrap(), Val::Str(String::from("hello")));
    assert_eq!(out, "");
}

#[test]
fn bool_literal_identity() {
    let (r, out) = run(&boolean(true));
    assert_eq!(r.unwrap(), Val::Bool(true));
    assert_eq!(out, "");
}

#[test]
fn print_int_emits_digits_and_passes_value_through() {
    let (r, out) = run(&print(num(5)));
    assert_eq!(r.unwrap(), Val::Int(5));
    assert_eq!(out, "5");
}

#[test]
fn print_bool_emits_true() {
    let (r, out) = run(&print(boolean(true)));
    assert_eq!(r.unwrap(), Val::Bool(true));
    assert_eq!(out, "true");
}

#[test]
fn print_bool_emits_false() {
    let (r, out) = run(&print(boolean(false)));
    assert_eq!(r.unwrap(), Val::Bool(false));
    assert_eq!(out, "false");
}

#[test]
fn print_str_emits_text_verbatim() {
    let (r, out) = run(&print(text("hi there")));
    assert_eq!(r.unwrap(), Val::Str(String::from("hi there")));
    assert_eq!(out, "hi there");
}

#[test]
fn print_negative_int() {
    let (r, out) = run(&print(num(-42)));
    assert_eq!(r.unwrap(), Val::Int(-42));
    assert_eq!(out, "-42");
}

#[test]
fn print_extreme_ints() {
    let (_, out) = run(&print(num(i32::MIN)));
    assert_eq!(out, "-2147483648");
    let (_, out) = run(&print(num(i32::MAX)));
    assert_eq!(out, "2147483647");
    let (_, out) = run(&print(num(0)));
    assert_eq!(out, "0");
}

#[test]
fn print_closure_emits_nothing() {
    let (r, out) = run(&print(function(&["x"], var("x"))));
    assert!(matches!(r.unwrap(), Val::Closure(_)));
    assert_eq!(out, "");
}

#[test]
fn prints_concatenate_in_emission_order() {
    // print(1) + print(2), then the sum printed: "12" then "3".
    let (r, out) = run(&print(binary(print(num(1)), BinaryOp::Add, print(num(2)))));
    assert_eq!(r.unwrap(), Val::Int(3));
    assert_eq!(out, "123");
}

#[test]
fn addition_of_ints() {
    let (r, _) = run(&binary(num(2), BinaryOp::Add, num(3)));
    assert_eq!(r.unwrap(), Val::Int(5));
}

#[test]
fn addition_commutes_and_associates() {
    let (a, _) = run(&binary(num(2), BinaryOp::Add, num(3)));
    let (b, _) = run(&binary(num(3), BinaryOp::Add, num(2)));
    assert_eq!(a.unwrap(), b.unwrap());
    let (l, _) = run(&binary(binary(num(1), BinaryOp::Add, num(2)), BinaryOp::Add, num(3)));
    let (r, _) = run(&binary(num(1), BinaryOp::Add, binary(num(2), BinaryOp::Add, num(3))));
    assert_eq!(l.unwrap(), r.unwrap());
}

#[test]
fn subtraction_and_multiplication_of_ints() {
    let (r, _) = run(&binary(num(7), BinaryOp::Sub, num(10)));
    assert_eq!(r.unwrap(), Val::Int(-3));
    let (r, _) = run(&binary(num(6), BinaryOp::Mul, num(7)));
    assert_eq!(r.unwrap(), Val::Int(42));
}

#[test]
fn addition_wraps_around() {
    let (r, _) = run(&binary(num(i32::MAX), BinaryOp::Add, num(1)));
    assert_eq!(r.unwrap(), Val::Int(i32::MIN));
}

#[test]
fn string_coercion_sub_str_int() {
    // The deliberately reproduced quirk: `Sub` on a string concatenates.
    let (r, _) = run(&binary(text("a"), BinaryOp::Sub, num(1)));
    assert_eq!(r.unwrap(), Val::Str(String::from("a1")));
}

#[test]
fn string_coercion_all_mixes() {
    let (r, _) = run(&binary(text("a"), BinaryOp::Add, num(1)));
    assert_eq!(r.unwrap(), Val::Str(String::from("a1")));
    let (r, _) = run(&binary(num(1), BinaryOp::Add, text("b")));
    assert_eq!(r.unwrap(), Val::Str(String::from("1b")));
    let (r, _) = run(&binary(text("a"), BinaryOp::Mul, text("b")));
    assert_eq!(r.unwrap(), Val::Str(String::from("ab")));
    let (r, _) = run(&binary(num(-2), BinaryOp::Mul, text("x")));
    assert_eq!(r.unwrap(), Val::Str(String::from("-2x")));
}

#[test]
fn arith_on_bool_is_type_mismatch() {
    let (r, _) = run(&binary(boolean(true), BinaryOp::Add, num(1)));
    assert!(is_type_mismatch(&r));
    let (r, _) = run(&binary(text("a"), BinaryOp::Add, boolean(false)));
    assert!(is_type_mismatch(&r));
}

#[test]
fn comparisons_on_ints() {
    let (r, _) = run(&binary(num(1), BinaryOp::Lt, num(2)));
    assert_eq!(r.unwrap(), Val::Bool(true));
    let (r, _) = run(&binary(num(2), BinaryOp::Gt, num(2)));
    assert_eq!(r.unwrap(), Val::Bool(false));
    let (r, _) = run(&binary(num(2), BinaryOp::Lte, num(2)));
    assert_eq!(r.unwrap(), Val::Bool(true));
    let (r, _) = run(&binary(num(3), BinaryOp::Gte, num(2)));
    assert_eq!(r.unwrap(), Val::Bool(true));
    let (r, _) = run(&binary(num(3), BinaryOp::Eq, num(3)));
    assert_eq!(r.unwrap(), Val::Bool(true));
    let (r, _) = run(&binary(num(3), BinaryOp::Neq, num(3)));
    assert_eq!(r.unwrap(), Val::Bool(false));
}

#[test]
fn comparison_on_bools_is_type_mismatch() {
    let (r, _) = run(&binary(boolean(true), BinaryOp::Lt, boolean(false)));
    assert!(is_type_mismatch(&r));
}

#[test]
fn comparison_on_strings_is_type_mismatch() {
    let (r, _) = run(&binary(text("a"), BinaryOp::Eq, text("a")));
    assert!(is_type_mismatch(&r));
}

#[test]
fn logical_operators_on_bools() {
    let (r, _) = run(&binary(boolean(true), BinaryOp::And, boolean(false)));
    assert_eq!(r.unwrap(), Val::Bool(false));
    let (r, _) = run(&binary(boolean(true), BinaryOp::Or, boolean(false)));
    assert_eq!(r.unwrap(), Val::Bool(true));
}

#[test]
fn logical_operators_on_ints_are_type_mismatch() {
    let (r, _) = run(&binary(num(1), BinaryOp::And, num(0)));
    assert!(is_type_mismatch(&r));
    let (r, _) = run(&binary(boolean(true), BinaryOp::Or, num(0)));
    assert!(is_type_mismatch(&r));
}

#[test]
fn logical_operators_do_not_short_circuit() {
    // Both operands always run: the right-hand print fires even when the
    // left operand already decides an `And`.
    let (r, out) = run(&binary(boolean(false), BinaryOp::And, print(boolean(true))));
    assert_eq!(r.unwrap(), Val::Bool(false));
    assert_eq!(out, "true");
}

#[test]
fn if_takes_the_right_branch() {
    let (r, _) = run(&cond(boolean(true), num(1), num(2)));
    assert_eq!(r.unwrap(), Val::Int(1));
    let (r, _) = run(&cond(boolean(false), num(1), num(2)));
    assert_eq!(r.unwrap(), Val::Int(2));
}

#[test]
fn if_on_non_bool_condition_is_type_mismatch() {
    let (r, _) = run(&cond(num(1), num(1), num(2)));
    assert!(is_type_mismatch(&r));
}

#[test]
fn let_binds_a_value() {
    let (r, _) = run(&bind("x", num(7), var("x")));
    assert_eq!(r.unwrap(), Val::Int(7));
}

#[test]
fn let_shadowing_inner_binding_wins() {
    let (r, _) = run(&bind("x", num(1), bind("x", num(2), var("x"))));
    assert_eq!(r.unwrap(), Val::Int(2));
}

#[test]
fn let_bindings_visible_to_later_siblings() {
    // `let` mutates the current scope, so the right operand of the sum
    // still sees `x` bound by the left operand.
    let (r, _) = run(&binary(bind("x", num(1), var("x")), BinaryOp::Add, var("x")));
    assert_eq!(r.unwrap(), Val::Int(2));
}

#[test]
fn undefined_variable_in_empty_scope() {
    let (r, _) = run(&var("y"));
    match r {
        Err(EvalError::UndefinedVariable(name)) => assert_eq!(name, "y"),
        other => panic!("expected an undefined-variable error, got {:?}", other),
    }
}

#[test]
fn closures_resolve_names_in_the_callers_scope() {
    // `x` is bound only after the function is defined; the body still sees
    // it because calls resolve names against the caller's scope.
    let program = bind(
        "f",
        function(&[], var("x")),
        bind("x", num(10), call(var("f"), vec![])),
    );
    let (r, _) = run(&program);
    assert_eq!(r.unwrap(), Val::Int(10));
}

#[test]
fn callee_bindings_do_not_leak_back() {
    // The call's parameter binding lives in a copy of the caller's scope:
    // after the call, `a` is still unbound outside.
    let program = bind(
        "f",
        function(&["a"], var("a")),
        binary(call(var("f"), vec![num(1)]), BinaryOp::Add, var("a")),
    );
    let (r, _) = run(&program);
    assert!(matches!(r, Err(EvalError::UndefinedVariable(_))));
}

#[test]
fn arity_mismatch_leaves_parameter_unbound() {
    // Calling a one-parameter closure with no arguments raises no arity
    // error; the body fails only when it references the unbound parameter.
    let program = bind("f", function(&["a"], var("a")), call(var("f"), vec![]));
    let (r, _) = run(&program);
    match r {
        Err(EvalError::UndefinedVariable(name)) => assert_eq!(name, "a"),
        other => panic!("expected an undefined-variable error, got {:?}", other),
    }
}

#[test]
fn surplus_arguments_are_never_evaluated() {
    // The zip stops at the parameter list, so the surplus print argument
    // does not run and emits nothing.
    let program = bind("f", function(&[], num(1)), call(var("f"), vec![print(num(9))]));
    let (r, out) = run(&program);
    assert_eq!(r.unwrap(), Val::Int(1));
    assert_eq!(out, "");
}

#[test]
fn call_arguments_run_in_the_caller_scope() {
    // The argument is evaluated in the caller's scope, where `x` is 3; the
    // parameter shadows `x` inside the call only.
    let program = bind(
        "x",
        num(3),
        bind(
            "f",
            function(&["x"], binary(var("x"), BinaryOp::Mul, num(2))),
            call(var("f"), vec![binary(var("x"), BinaryOp::Add, num(1))]),
        ),
    );
    let (r, _) = run(&program);
    assert_eq!(r.unwrap(), Val::Int(8));
}

#[test]
fn calling_a_non_function_fails() {
    let (r, _) = run(&call(num(1), vec![]));
    match r {
        Err(EvalError::NotAFunction(v)) => assert_eq!(v, Val::Int(1)),
        other => panic!("expected a not-a-function error, got {:?}", other),
    }
}

#[test]
fn recursion_works_through_the_caller_scope() {
    // sum(n) = n + sum(n - 1) down to 0; `sum` stays visible inside its own
    // body because the callee scope copies the caller's.
    let body = cond(
        binary(var("n"), BinaryOp::Lt, num(1)),
        num(0),
        binary(
            var("n"),
            BinaryOp::Add,
            call(var("sum"), vec![binary(var("n"), BinaryOp::Sub, num(1))]),
        ),
    );
    let program = bind("sum", function(&["n"], body), call(var("sum"), vec![num(4)]));
    let (r, _) = run(&program);
    assert_eq!(r.unwrap(), Val::Int(10));
}

#[test]
fn fuel_bounds_call_depth() {
    let program = bind("f", function(&[], num(1)), call(var("f"), vec![]));
    let mut scope = Scope::new();
    let mut out = Output::new();
    let r = eval_fuel(&program, &mut scope, &mut out, 0);
    assert!(matches!(r, Err(EvalError::DepthExceeded)));
    let mut scope = Scope::new();
    let r = eval_fuel(&program, &mut scope, &mut out, 1);
    assert_eq!(r.unwrap(), Val::Int(1));
}

#[test]
fn evaluation_is_deterministic() {
    // The same term against a fresh equivalent scope yields the same value
    // and the same output, run after run.
    let program = bind(
        "x",
        num(2),
        print(binary(var("x"), BinaryOp::Mul, binary(var("x"), BinaryOp::Add, num(1)))),
    );
    let (r1, out1) = run(&program);
    let (r2, out2) = run(&program);
    assert_eq!(r1.unwrap(), r2.unwrap());
    assert_eq!(out1, out2);

    let failing = binary(boolean(true), BinaryOp::Lt, boolean(false));
    let (e1, _) = run(&failing);
    let (e2, _) = run(&failing);
    assert_eq!(e1.unwrap_err(), e2.unwrap_err());
}

#[test]
fn type_mismatch_carries_the_offending_values() {
    let (r, _) = run(&binary(boolean(true), BinaryOp::Add, num(1)));
    match r {
        Err(EvalError::TypeMismatch(vs)) => {
            assert_eq!(vs, vec![Val::Bool(true), Val::Int(1)]);
        },
        other => panic!("expected a type mismatch, got {:?}", other),
    }
}

#[test]
fn val_entry_points_agree_with_eval() {
    let t = binary(num(2), BinaryOp::Add, num(3));
    let mut s1 = Scope::new();
    let mut o1 = Output::new();
    assert_eq!(Val::eval(&t, &mut s1, &mut o1).unwrap(), Val::Int(5));
    let mut s2 = Scope::new();
    let mut o2 = Output::new();
    assert_eq!(Val::try_from(&t, &mut s2, &mut o2).unwrap(), Val::Int(5));
}
