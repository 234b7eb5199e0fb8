//! Tests of the data model around the evaluator: node accessors, scope
//! behaviour, the output sink and integer rendering.

use xpto::ast::{Binary, BinaryOp, Bool, Call, File, Function, If, Int, Let, Location, Parameter,
    Print, Str, Term, Var};
use xpto::value::{int_to_string, Closure, Output, Scope, Val};

fn loc_at(start: usize, end: usize) -> Location {
    Location { start, end, filename: String::from("files.rinha") }
}

fn int_at(n: i32) -> Term {
    Term::Int(Int { value: n, location: loc_at(0, 1) })
}

#[test]
fn accessors_return_the_fields() {
    let b = Binary {
        lhs: Box::new(int_at(1)),
        op: BinaryOp::Add,
        rhs: Box::new(int_at(2)),
        location: loc_at(0, 5),
    };
    assert_eq!(*b.lhs(), int_at(1));
    assert_eq!(*b.op(), BinaryOp::Add);
    assert_eq!(*b.rhs(), int_at(2));
    assert_eq!(b.location().start, 0);
    assert_eq!(b.location().end, 5);

    let i = If {
        condition: Box::new(Term::Bool(Bool { value: true, location: loc_at(0, 4) })),
        then_branch: Box::new(int_at(1)),
        otherwise: Box::new(int_at(2)),
        location: loc_at(0, 9),
    };
    assert_eq!(*i.condition(), Term::Bool(Bool { value: true, location: loc_at(0, 4) }));
    assert_eq!(*i.then_branch(), int_at(1));
    assert_eq!(*i.otherwise(), int_at(2));

    let l = Let {
        name: Parameter { text: String::from("x"), location: loc_at(4, 5) },
        value: Box::new(int_at(1)),
        next: Box::new(Term::Var(Var { text: String::from("x"), location: loc_at(9, 10) })),
        location: loc_at(0, 10),
    };
    assert_eq!(l.name().text(), "x");
    assert_eq!(*l.value(), int_at(1));
    assert_eq!(*l.next(), Term::Var(Var { text: String::from("x"), location: loc_at(9, 10) }));

    let f = Function {
        parameters: vec![Parameter { text: String::from("n"), location: loc_at(3, 4) }],
        value: Box::new(int_at(0)),
        location: loc_at(0, 8),
    };
    assert_eq!(f.parameters().len(), 1);
    assert_eq!(f.parameters()[0].text(), "n");
    assert_eq!(*f.value(), int_at(0));

    let c = Call {
        callee: Box::new(Term::Var(Var { text: String::from("f"), location: loc_at(0, 1) })),
        arguments: vec![int_at(1), int_at(2)],
        location: loc_at(0, 7),
    };
    assert_eq!(*c.callee(), Term::Var(Var { text: String::from("f"), location: loc_at(0, 1) }));
    assert_eq!(c.arguments().len(), 2);

    let p = Print { value: Box::new(int_at(3)), location: loc_at(0, 8) };
    assert_eq!(*p.value(), int_at(3));

    let n = Int { value: 9, location: loc_at(0, 1) };
    assert_eq!(n.value(), 9);
    let s = Str { value: String::from("hi"), location: loc_at(0, 4) };
    assert_eq!(s.value(), "hi");
    let b = Bool { value: false, location: loc_at(0, 5) };
    assert!(!b.value());
    let v = Var { text: String::from("z"), location: loc_at(0, 1) };
    assert_eq!(v.text(), "z");

    let file = File {
        name: String::from("files.rinha"),
        expression: int_at(1),
        location: loc_at(0, 1),
    };
    assert_eq!(file.name(), "files.rinha");
    assert_eq!(*file.expression(), int_at(1));
    assert_eq!(file.location().filename, "files.rinha");
}

#[test]
fn closure_holds_body_and_parameters() {
    let params = vec![Parameter { text: String::from("a"), location: loc_at(0, 1) }];
    let c = Closure::new(int_at(5), params);
    assert_eq!(*c.body(), int_at(5));
    assert_eq!(c.parameters().len(), 1);
    assert_eq!(c.parameters()[0].text(), "a");
}

#[test]
fn term_clone_preserves_the_whole_tree() {
    let t = Term::Binary(Binary {
        lhs: Box::new(Term::Function(Function {
            parameters: vec![Parameter { text: String::from("p"), location: loc_at(0, 1) }],
            value: Box::new(int_at(1)),
            location: loc_at(0, 9),
        })),
        op: BinaryOp::Sub,
        rhs: Box::new(Term::Call(Call {
            callee: Box::new(Term::Var(Var { text: String::from("f"), location: loc_at(0, 1) })),
            arguments: vec![int_at(2), Term::Str(Str {
                value: String::from("s"),
                location: loc_at(2, 5),
            })],
            location: loc_at(0, 7),
        })),
        location: loc_at(0, 20),
    });
    assert_eq!(t.clone(), t);
}

#[test]
fn val_new_is_void() {
    assert_eq!(Val::new(), Val::Void);
    assert_eq!(Val::default(), Val::Void);
}

#[test]
fn scope_lookup_finds_the_last_binding() {
    let mut scope = Scope::new();
    assert!(scope.get(&String::from("x")).is_none());
    scope.insert(String::from("x"), Val::Int(1));
    assert_eq!(scope.get(&String::from("x")), Some(&Val::Int(1)));
    scope.insert(String::from("y"), Val::Bool(true));
    scope.insert(String::from("x"), Val::Int(2));
    assert_eq!(scope.get(&String::from("x")), Some(&Val::Int(2)));
    assert_eq!(scope.get(&String::from("y")), Some(&Val::Bool(true)));
    assert!(scope.get(&String::from("z")).is_none());
}

#[test]
fn scope_clone_is_independent() {
    let mut scope = Scope::new();
    scope.insert(String::from("x"), Val::Int(1));
    let mut fork = scope.clone();
    fork.insert(String::from("x"), Val::Int(9));
    fork.insert(String::from("only"), Val::Int(3));
    assert_eq!(scope.get(&String::from("x")), Some(&Val::Int(1)));
    assert!(scope.get(&String::from("only")).is_none());
    assert_eq!(fork.get(&String::from("x")), Some(&Val::Int(9)));
}

#[test]
fn val_clone_preserves_the_value() {
    let v = Val::Str(String::from("text"));
    assert_eq!(v.clone(), v);
    let c = Val::Closure(Closure::new(int_at(1), vec![]));
    assert_eq!(c.clone(), c);
}

#[test]
fn output_collects_renderings_in_order() {
    let mut out = Output::new();
    assert_eq!(out.as_str(), "");
    out.emit_val(&Val::Int(-5));
    out.emit_val(&Val::Str(String::from("x")));
    out.emit_val(&Val::Void);
    out.emit_val(&Val::Bool(false));
    out.emit_val(&Val::Closure(Closure::new(int_at(1), vec![])));
    assert_eq!(out.as_str(), "-5xfalse");
}

#[test]
fn int_rendering_exact_values() {
    assert_eq!(int_to_string(0), "0");
    assert_eq!(int_to_string(7), "7");
    assert_eq!(int_to_string(-7), "-7");
    assert_eq!(int_to_string(120), "120");
    assert_eq!(int_to_string(-1000), "-1000");
    assert_eq!(int_to_string(i32::MAX), "2147483647");
    assert_eq!(int_to_string(i32::MIN), "-2147483648");
}
