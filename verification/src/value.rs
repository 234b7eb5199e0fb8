//! Runtime values, the variable environment, and the output sink.
//!
//! A [`Val`] is what evaluating a term produces.  A [`Scope`] maps variable
//! names to values, last write winning.  An [`Output`] collects the text
//! that `print` expressions emit, in emission order; the driver decides
//! where that text finally goes.

use vstd::prelude::*;
use vstd::string::StringExecFns;

use crate::ast::{clone_parameters, params_view, Parameter, Term};
use crate::model::{digit_char, digits_of, int_text, render, ClosureX, ErrX, ScopeX, ValX};

verus! {

/// A function value: the function's body and its ordered parameter names.
/// No defining environment is captured (see [`crate::model::ClosureX`]).
#[derive(Debug, PartialEq)]
pub struct Closure {
    pub body: Term,
    pub parameters: Vec<Parameter>,
}

impl View for Closure {
    type V = ClosureX;

    open spec fn view(&self) -> ClosureX {
        ClosureX { body: self.body@, params: params_view(self.parameters@) }
    }
}

impl Closure {
    pub fn new(body: Term, parameters: Vec<Parameter>) -> (r: Self)
        ensures
            r@ == (ClosureX { body: body@, params: params_view(parameters@) }),
    {
        Closure { body, parameters }
    }

    pub fn body(&self) -> (r: &Term)
        ensures
            *r == self.body,
    {
        &self.body
    }

    pub fn parameters(&self) -> (r: &Vec<Parameter>)
        ensures
            *r == self.parameters,
    {
        &self.parameters
    }
}

impl Clone for Closure {
    fn clone(&self) -> (r: Self)
        ensures
            r@ == self@,
    {
        Closure { body: self.body.clone(), parameters: clone_parameters(&self.parameters) }
    }
}

/// A runtime value.
#[derive(Debug, PartialEq)]
pub enum Val {
    Void,
    Int(i32),
    Bool(bool),
    Str(String),
    Closure(Closure),
}

impl View for Val {
    type V = ValX;

    open spec fn view(&self) -> ValX {
        match self {
            Val::Void => ValX::Void,
            Val::Int(n) => ValX::Int(*n),
            Val::Bool(b) => ValX::Bool(*b),
            Val::Str(s) => ValX::Str(s@),
            Val::Closure(c) => ValX::Closure(c@),
        }
    }
}

impl Clone for Val {
    fn clone(&self) -> (r: Self)
        ensures
            r@ == self@,
    {
        match self {
            Val::Void => Val::Void,
            Val::Int(n) => Val::Int(*n),
            Val::Bool(b) => Val::Bool(*b),
            Val::Str(s) => Val::Str(s.clone()),
            Val::Closure(c) => Val::Closure(c.clone()),
        }
    }
}

impl Default for Val {
    fn default() -> (r: Self)
        ensures
            r@ == ValX::Void,
    {
        Val::Void
    }
}

impl Val {
    /// The value an effect-only evaluation path yields.
    pub fn new() -> (r: Self)
        ensures
            r@ == ValX::Void,
    {
        Self::default()
    }
}

/// The models of a list of values, in order.
pub open spec fn vals_view(s: Seq<Val>) -> Seq<ValX> {
    Seq::new(s.len(), |i: int| s[i]@)
}

/// A failure raised by evaluation.  Every error short-circuits the
/// enclosing evaluation immediately; nothing is retried or aggregated.
#[derive(Debug, PartialEq)]
pub enum EvalError {
    /// A binary operator or an `if` condition received the listed value(s)
    /// outside its defined domain.
    TypeMismatch(Vec<Val>),
    /// A variable lookup found no binding for this name.
    UndefinedVariable(String),
    /// A call's callee evaluated to this non-closure value.
    NotAFunction(Val),
    /// The nesting depth of function calls exceeded the evaluator's fuel.
    DepthExceeded,
}

impl View for EvalError {
    type V = ErrX;

    open spec fn view(&self) -> ErrX {
        match self {
            EvalError::TypeMismatch(vs) => ErrX::TypeMismatch(vals_view(vs@)),
            EvalError::UndefinedVariable(n) => ErrX::UndefinedVariable(n@),
            EvalError::NotAFunction(v) => ErrX::NotAFunction(v@),
            EvalError::DepthExceeded => ErrX::DepthExceeded,
        }
    }
}

/// The variable environment: names bound to values.  Represented as the
/// history of insertions; a later binding for a name shadows an earlier
/// one, which is never visible again.
#[derive(Debug, PartialEq)]
pub struct Scope {
    pub entries: Vec<(String, Val)>,
}

/// The binding table a history of insertions denotes: each entry applied
/// in order, last write winning.
pub open spec fn scope_map(s: Seq<(String, Val)>) -> ScopeX
    decreases s.len(),
{
    if s.len() == 0 {
        Map::empty()
    } else {
        scope_map(s.drop_last()).insert(s.last().0@, s.last().1@)
    }
}

impl View for Scope {
    type V = ScopeX;

    open spec fn view(&self) -> ScopeX {
        scope_map(self.entries@)
    }
}

/// An entry whose key no later entry repeats decides that key's binding.
proof fn lemma_scope_map_found(s: Seq<(String, Val)>, i: int)
    requires
        0 <= i < s.len(),
        forall|j: int| i < j < s.len() ==> s[j].0@ != s[i].0@,
    ensures
        scope_map(s).contains_key(s[i].0@),
        scope_map(s)[s[i].0@] == s[i].1@,
    decreases s.len(),
{
    if i < s.len() - 1 {
        lemma_scope_map_found(s.drop_last(), i);
    }
}

/// A key no entry holds is unbound.
proof fn lemma_scope_map_absent(s: Seq<(String, Val)>, k: Seq<char>)
    requires
        forall|j: int| 0 <= j < s.len() ==> s[j].0@ != k,
    ensures
        !scope_map(s).contains_key(k),
    decreases s.len(),
{
    if s.len() > 0 {
        lemma_scope_map_absent(s.drop_last(), k);
    }
}

/// Histories equal entry for entry denote the same binding table.
proof fn lemma_scope_map_congruent(a: Seq<(String, Val)>, b: Seq<(String, Val)>)
    requires
        a.len() == b.len(),
        forall|j: int| 0 <= j < a.len() ==> a[j].0@ == b[j].0@ && a[j].1@ == b[j].1@,
    ensures
        scope_map(a) == scope_map(b),
    decreases a.len(),
{
    if a.len() > 0 {
        lemma_scope_map_congruent(a.drop_last(), b.drop_last());
    }
}

impl Scope {
    /// The empty environment.
    pub fn new() -> (r: Self)
        ensures
            r@ == Map::<Seq<char>, ValX>::empty(),
    {
        Scope { entries: Vec::new() }
    }

    /// Binds `name` to `value`, shadowing any earlier binding.
    pub fn insert(&mut self, name: String, value: Val)
        ensures
            final(self)@ == old(self)@.insert(name@, value@),
    {
        let ghost s0 = self.entries@;
        self.entries.push((name, value));
        proof {
            assert(self.entries@.drop_last() =~= s0);
        }
    }

    /// Looks `name` up: the most recently inserted binding for it, if any.
    pub fn get(&self, name: &String) -> (r: Option<&Val>)
        ensures
            match r {
                Some(v) => self@.contains_key(name@) && v@ == self@[name@],
                None => !self@.contains_key(name@),
            },
    {
        let mut i: usize = self.entries.len();
        while i > 0
            invariant
                i <= self.entries@.len(),
                forall|j: int| i <= j < self.entries@.len() ==> self.entries@[j].0@ != name@,
            decreases i,
        {
            i = i - 1;
            if self.entries[i].0 == *name {
                proof {
                    lemma_scope_map_found(self.entries@, i as int);
                }
                return Some(&self.entries[i].1);
            }
        }
        proof {
            lemma_scope_map_absent(self.entries@, name@);
        }
        None
    }
}

impl Clone for Scope {
    /// The full copy taken at a call boundary: same bindings, so a callee's
    /// later insertions never leak back to the caller.
    fn clone(&self) -> (r: Self)
        ensures
            r@ == self@,
    {
        let mut entries: Vec<(String, Val)> = Vec::new();
        let mut i: usize = 0;
        while i < self.entries.len()
            invariant
                i <= self.entries@.len(),
                entries@.len() == i,
                forall|j: int|
                    0 <= j < i ==> entries@[j].0@ == self.entries@[j].0@ && entries@[j].1@
                        == self.entries@[j].1@,
            decreases self.entries@.len() - i,
        {
            let name = self.entries[i].0.clone();
            let value = self.entries[i].1.clone();
            entries.push((name, value));
            i += 1;
        }
        proof {
            lemma_scope_map_congruent(entries@, self.entries@);
        }
        Scope { entries }
    }
}

impl Default for Scope {
    fn default() -> (r: Self)
        ensures
            r@ == Map::<Seq<char>, ValX>::empty(),
    {
        Self::new()
    }
}

/// The output sink: the text printed so far, in emission order.
#[derive(Debug, PartialEq)]
pub struct Output {
    pub text: String,
}

impl View for Output {
    type V = Seq<char>;

    open spec fn view(&self) -> Seq<char> {
        self.text@
    }
}

/// Appends one decimal digit character for `d`.
fn push_digit(d: u64, s: &mut String)
    requires
        d < 10,
    ensures
        final(s)@ == old(s)@ + seq![digit_char(d as nat)],
{
    if d == 0 {
        s.append("0");
        proof {
            reveal_strlit("0");
            assert(s@ =~= old(s)@ + seq![digit_char(d as nat)]);
        }
    } else if d == 1 {
        s.append("1");
        proof {
            reveal_strlit("1");
            assert(s@ =~= old(s)@ + seq![digit_char(d as nat)]);
        }
    } else if d == 2 {
        s.append("2");
        proof {
            reveal_strlit("2");
            assert(s@ =~= old(s)@ + seq![digit_char(d as nat)]);
        }
    } else if d == 3 {
        s.append("3");
        proof {
            reveal_strlit("3");
            assert(s@ =~= old(s)@ + seq![digit_char(d as nat)]);
        }
    } else if d == 4 {
        s.append("4");
        proof {
            reveal_strlit("4");
            assert(s@ =~= old(s)@ + seq![digit_char(d as nat)]);
        }
    } else if d == 5 {
        s.append("5");
        proof {
            reveal_strlit("5");
            assert(s@ =~= old(s)@ + seq![digit_char(d as nat)]);
        }
    } else if d == 6 {
        s.append("6");
        proof {
            reveal_strlit("6");
            assert(s@ =~= old(s)@ + seq![digit_char(d as nat)]);
        }
    } else if d == 7 {
        s.append("7");
        proof {
            reveal_strlit("7");
            assert(s@ =~= old(s)@ + seq![digit_char(d as nat)]);
        }
    } else if d == 8 {
        s.append("8");
        proof {
            reveal_strlit("8");
            assert(s@ =~= old(s)@ + seq![digit_char(d as nat)]);
        }
    } else {
        s.append("9");
        proof {
            reveal_strlit("9");
            assert(s@ =~= old(s)@ + seq![digit_char(d as nat)]);
        }
    }
}

/// Appends the decimal digits of `n`, most significant first.
fn push_digits(n: u64, s: &mut String)
    ensures
        final(s)@ == old(s)@ + digits_of(n as nat),
    decreases n,
{
    if n < 10 {
        push_digit(n, s);
    } else {
        push_digits(n / 10, s);
        push_digit(n % 10, s);
        proof {
            assert(s@ =~= old(s)@ + digits_of(n as nat));
        }
    }
}

/// Renders an integer in decimal, with a leading `-` if negative.
pub fn int_to_string(n: i32) -> (r: String)
    ensures
        r@ == int_text(n as int),
{
    let mut s = String::new();
    if n < 0 {
        s.append("-");
        let m: i64 = -(n as i64);
        push_digits(m as u64, &mut s);
        proof {
            reveal_strlit("-");
            assert(s@ =~= int_text(n as int));
        }
    } else {
        push_digits(n as u64, &mut s);
    }
    s
}

impl Output {
    /// An empty sink.
    pub fn new() -> (r: Self)
        ensures
            r@ == Seq::<char>::empty(),
    {
        Output { text: String::new() }
    }

    /// The text printed so far.
    pub fn as_str(&self) -> (r: &str)
        ensures
            r@ == self@,
    {
        self.text.as_str()
    }

    /// Writes the rendering of `v`: integers in decimal, booleans as
    /// `true`/`false`, strings verbatim; void and closures write nothing.
    pub fn emit_val(&mut self, v: &Val)
        ensures
            final(self)@ == old(self)@ + render(v@),
    {
        match v {
            Val::Int(n) => {
                let t = int_to_string(*n);
                self.text.append(t.as_str());
            },
            Val::Bool(b) => {
                if *b {
                    self.text.append("true");
                    proof {
                        reveal_strlit("true");
                        assert(self@ =~= old(self)@ + render(v@));
                    }
                } else {
                    self.text.append("false");
                    proof {
                        reveal_strlit("false");
                        assert(self@ =~= old(self)@ + render(v@));
                    }
                }
            },
            Val::Str(s) => {
                self.text.append(s.as_str());
            },
            Val::Void => {
                proof {
                    assert(self@ =~= old(self)@ + render(v@));
                }
            },
            Val::Closure(_) => {
                proof {
                    assert(self@ =~= old(self)@ + render(v@));
                }
            },
        }
    }
}

} // verus!
