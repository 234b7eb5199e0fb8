//! The syntax tree the evaluator walks: a closed set of ten node kinds, each
//! with its payload record.  Every node carries a source [`Location`], which
//! is structural metadata only; the view of a term (its [`TermX`] model)
//! drops locations, so everything proved of evaluation is independent of
//! them.

use vstd::prelude::*;

use crate::model::TermX;

verus! {

/// Span of source text a node was parsed from.  Carried through evaluation
/// but never inspected by it.
#[derive(Debug, PartialEq)]
pub struct Location {
    pub start: usize,
    pub end: usize,
    pub filename: String,
}

impl Clone for Location {
    fn clone(&self) -> (r: Self)
        ensures
            r == *self,
    {
        Location { start: self.start, end: self.end, filename: self.filename.clone() }
    }
}

/// A formal parameter name with its source location.
#[derive(Debug, PartialEq)]
pub struct Parameter {
    pub text: String,
    pub location: Location,
}

impl View for Parameter {
    type V = Seq<char>;

    open spec fn view(&self) -> Seq<char> {
        self.text@
    }
}

impl Clone for Parameter {
    fn clone(&self) -> (r: Self)
        ensures
            r == *self,
    {
        Parameter { text: self.text.clone(), location: self.location.clone() }
    }
}

impl Parameter {
    pub fn text(&self) -> (r: &str)
        ensures
            r@ == self@,
    {
        self.text.as_str()
    }

    pub fn location(&self) -> (r: &Location)
        ensures
            *r == self.location,
    {
        &self.location
    }
}

/// An integer literal.
#[derive(Debug, PartialEq)]
pub struct Int {
    pub value: i32,
    pub location: Location,
}

impl Int {
    pub fn value(&self) -> (r: i32)
        ensures
            r == self.value,
    {
        self.value
    }

    pub fn location(&self) -> (r: &Location)
        ensures
            *r == self.location,
    {
        &self.location
    }
}

/// A string literal.
#[derive(Debug, PartialEq)]
pub struct Str {
    pub value: String,
    pub location: Location,
}

impl Str {
    pub fn value(&self) -> (r: &str)
        ensures
            r@ == self.value@,
    {
        self.value.as_str()
    }

    pub fn location(&self) -> (r: &Location)
        ensures
            *r == self.location,
    {
        &self.location
    }
}

/// A boolean literal.
#[derive(Debug, PartialEq)]
pub struct Bool {
    pub value: bool,
    pub location: Location,
}

impl Bool {
    pub fn value(&self) -> (r: bool)
        ensures
            r == self.value,
    {
        self.value
    }

    pub fn location(&self) -> (r: &Location)
        ensures
            *r == self.location,
    {
        &self.location
    }
}

/// A print expression: evaluates its sub-term, writes its rendering to the
/// output, and passes the value through unchanged.
#[derive(Debug, PartialEq)]
pub struct Print {
    pub value: Box<Term>,
    pub location: Location,
}

impl Print {
    pub fn value(&self) -> (r: &Term)
        ensures
            *r == *self.value,
    {
        &*self.value
    }

    pub fn location(&self) -> (r: &Location)
        ensures
            *r == self.location,
    {
        &self.location
    }
}

/// The binary operators.
#[derive(Debug, Clone, Copy, PartialEq, Eq, Structural)]
pub enum BinaryOp {
    Add,
    Sub,
    Mul,
    Eq,
    Neq,
    Lt,
    Gt,
    Lte,
    Gte,
    And,
    Or,
}

/// A binary operation on two sub-terms.
#[derive(Debug, PartialEq)]
pub struct Binary {
    pub lhs: Box<Term>,
    pub op: BinaryOp,
    pub rhs: Box<Term>,
    pub location: Location,
}

impl Binary {
    pub fn lhs(&self) -> (r: &Term)
        ensures
            *r == *self.lhs,
    {
        &*self.lhs
    }

    pub fn op(&self) -> (r: &BinaryOp)
        ensures
            *r == self.op,
    {
        &self.op
    }

    pub fn rhs(&self) -> (r: &Term)
        ensures
            *r == *self.rhs,
    {
        &*self.rhs
    }

    pub fn location(&self) -> (r: &Location)
        ensures
            *r == self.location,
    {
        &self.location
    }
}

/// A conditional: the condition must evaluate to a boolean.
#[derive(Debug, PartialEq)]
pub struct If {
    pub condition: Box<Term>,
    pub then_branch: Box<Term>,
    pub otherwise: Box<Term>,
    pub location: Location,
}

impl If {
    pub fn condition(&self) -> (r: &Term)
        ensures
            *r == *self.condition,
    {
        &*self.condition
    }

    pub fn then_branch(&self) -> (r: &Term)
        ensures
            *r == *self.then_branch,
    {
        &*self.then_branch
    }

    pub fn otherwise(&self) -> (r: &Term)
        ensures
            *r == *self.otherwise,
    {
        &*self.otherwise
    }

    pub fn location(&self) -> (r: &Location)
        ensures
            *r == self.location,
    {
        &self.location
    }
}

/// A sequential let-binding: binds `name` to the value of `value` in the
/// current scope, then evaluates `next` in that same mutated scope.
#[derive(Debug, PartialEq)]
pub struct Let {
    pub name: Parameter,
    pub value: Box<Term>,
    pub next: Box<Term>,
    pub location: Location,
}

impl Let {
    pub fn name(&self) -> (r: &Parameter)
        ensures
            *r == self.name,
    {
        &self.name
    }

    pub fn value(&self) -> (r: &Term)
        ensures
            *r == *self.value,
    {
        &*self.value
    }

    pub fn next(&self) -> (r: &Term)
        ensures
            *r == *self.next,
    {
        &*self.next
    }

    pub fn location(&self) -> (r: &Location)
        ensures
            *r == self.location,
    {
        &self.location
    }
}

/// A variable reference, looked up in the current scope.
#[derive(Debug, PartialEq)]
pub struct Var {
    pub text: String,
    pub location: Location,
}

impl Var {
    pub fn text(&self) -> (r: &str)
        ensures
            r@ == self.text@,
    {
        self.text.as_str()
    }

    pub fn location(&self) -> (r: &Location)
        ensures
            *r == self.location,
    {
        &self.location
    }
}

/// A function literal: evaluates to a closure holding its body and its
/// ordered parameter names.  It does not capture the current scope.
#[derive(Debug, PartialEq)]
pub struct Function {
    pub parameters: Vec<Parameter>,
    pub value: Box<Term>,
    pub location: Location,
}

impl Function {
    pub fn parameters(&self) -> (r: &Vec<Parameter>)
        ensures
            *r == self.parameters,
    {
        &self.parameters
    }

    pub fn value(&self) -> (r: &Term)
        ensures
            *r == *self.value,
    {
        &*self.value
    }

    pub fn location(&self) -> (r: &Location)
        ensures
            *r == self.location,
    {
        &self.location
    }
}

/// A call: the callee must evaluate to a closure; the arguments are zipped
/// against its parameter names, stopping at the shorter list.
#[derive(Debug, PartialEq)]
pub struct Call {
    pub callee: Box<Term>,
    pub arguments: Vec<Term>,
    pub location: Location,
}

impl Call {
    pub fn callee(&self) -> (r: &Term)
        ensures
            *r == *self.callee,
    {
        &*self.callee
    }

    pub fn arguments(&self) -> (r: &Vec<Term>)
        ensures
            *r == self.arguments,
    {
        &self.arguments
    }

    pub fn location(&self) -> (r: &Location)
        ensures
            *r == self.location,
    {
        &self.location
    }
}

/// One node of the syntax tree.
#[derive(Debug, PartialEq)]
pub enum Term {
    Int(Int),
    Str(Str),
    Bool(Bool),
    Print(Print),
    Binary(Binary),
    If(If),
    Let(Let),
    Var(Var),
    Function(Function),
    Call(Call),
}

/// A whole source file: its name and its root expression.
#[derive(Debug, PartialEq)]
pub struct File {
    pub name: String,
    pub expression: Term,
    pub location: Location,
}

impl File {
    pub fn name(&self) -> (r: &str)
        ensures
            r@ == self.name@,
    {
        self.name.as_str()
    }

    pub fn expression(&self) -> (r: &Term)
        ensures
            *r == self.expression,
    {
        &self.expression
    }

    pub fn location(&self) -> (r: &Location)
        ensures
            *r == self.location,
    {
        &self.location
    }
}

/// The parameter names of a parameter list, in order.
pub open spec fn params_view(s: Seq<Parameter>) -> Seq<Seq<char>> {
    Seq::new(s.len(), |i: int| s[i].text@)
}

/// The model of each term of a list, in order.
pub open spec fn view_terms(s: Seq<Term>) -> Seq<TermX>
    decreases s,
{
    if s.len() == 0 {
        Seq::empty()
    } else {
        view_terms(s.drop_last()).push(view_term(s.last()))
    }
}

/// A term list's model has one entry per term, in order.
pub proof fn lemma_view_terms(s: Seq<Term>)
    ensures
        view_terms(s).len() == s.len(),
        forall|i: int| 0 <= i < s.len() ==> view_terms(s)[i] == view_term(s[i]),
    decreases s.len(),
{
    if s.len() > 0 {
        lemma_view_terms(s.drop_last());
    }
}

/// The model of a term: the same tree with locations dropped, names and
/// strings as character sequences.
pub open spec fn view_term(t: Term) -> TermX
    decreases t,
{
    match t {
        Term::Int(n) => TermX::Int(n.value),
        Term::Str(s) => TermX::Str(s.value@),
        Term::Bool(b) => TermX::Bool(b.value),
        Term::Print(p) => TermX::Print(Box::new(view_term(*p.value))),
        Term::Binary(b) => TermX::Binary(
            Box::new(view_term(*b.lhs)),
            b.op,
            Box::new(view_term(*b.rhs)),
        ),
        Term::If(i) => TermX::If(
            Box::new(view_term(*i.condition)),
            Box::new(view_term(*i.then_branch)),
            Box::new(view_term(*i.otherwise)),
        ),
        Term::Let(l) => TermX::Let(
            l.name.text@,
            Box::new(view_term(*l.value)),
            Box::new(view_term(*l.next)),
        ),
        Term::Var(v) => TermX::Var(v.text@),
        Term::Function(f) => TermX::Function(
            params_view(f.parameters@),
            Box::new(view_term(*f.value)),
        ),
        Term::Call(c) => TermX::Call(Box::new(view_term(*c.callee)), view_terms(c.arguments@)),
    }
}

impl View for Term {
    type V = TermX;

    open spec fn view(&self) -> TermX {
        view_term(*self)
    }
}

/// Copies a parameter list; the copy has the same names in the same order.
pub fn clone_parameters(v: &Vec<Parameter>) -> (r: Vec<Parameter>)
    ensures
        r@ =~= v@,
        params_view(r@) == params_view(v@),
{
    let mut r: Vec<Parameter> = Vec::new();
    let mut i: usize = 0;
    while i < v.len()
        invariant
            i <= v.len(),
            r@ =~= v@.subrange(0, i as int),
        decreases v.len() - i,
    {
        r.push(v[i].clone());
        proof {
            assert(r@ =~= v@.subrange(0, i as int + 1));
        }
        i += 1;
    }
    proof {
        assert(r@ =~= v@);
    }
    r
}

/// Copies a term list; each copy has the model of the term it copies.
pub fn clone_terms(v: &Vec<Term>) -> (r: Vec<Term>)
    ensures
        r@.len() == v@.len(),
        forall|i: int| 0 <= i < v@.len() ==> r@[i]@ == v@[i]@,
        view_terms(r@) == view_terms(v@),
    decreases v@,
{
    let mut r: Vec<Term> = Vec::new();
    let mut i: usize = 0;
    while i < v.len()
        invariant
            i <= v.len(),
            r@.len() == i,
            forall|j: int| 0 <= j < i ==> r@[j]@ == v@[j]@,
        decreases v.len() - i,
    {
        r.push(v[i].clone());
        i += 1;
    }
    proof {
        lemma_view_terms(r@);
        lemma_view_terms(v@);
        assert(view_terms(r@) =~= view_terms(v@));
    }
    r
}

impl Clone for Term {
    /// Copies a term; the copy has the same model.
    fn clone(&self) -> (r: Self)
        ensures
            r@ == self@,
        decreases self,
    {
        match self {
            Term::Int(n) => Term::Int(
                Int { value: n.value, location: n.location.clone() },
            ),
            Term::Str(s) => Term::Str(
                Str { value: s.value.clone(), location: s.location.clone() },
            ),
            Term::Bool(b) => Term::Bool(
                Bool { value: b.value, location: b.location.clone() },
            ),
            Term::Print(p) => Term::Print(
                Print { value: Box::new((*p.value).clone()), location: p.location.clone() },
            ),
            Term::Binary(b) => Term::Binary(
                Binary {
                    lhs: Box::new((*b.lhs).clone()),
                    op: b.op,
                    rhs: Box::new((*b.rhs).clone()),
                    location: b.location.clone(),
                },
            ),
            Term::If(i) => Term::If(
                If {
                    condition: Box::new((*i.condition).clone()),
                    then_branch: Box::new((*i.then_branch).clone()),
                    otherwise: Box::new((*i.otherwise).clone()),
                    location: i.location.clone(),
                },
            ),
            Term::Let(l) => Term::Let(
                Let {
                    name: l.name.clone(),
                    value: Box::new((*l.value).clone()),
                    next: Box::new((*l.next).clone()),
                    location: l.location.clone(),
                },
            ),
            Term::Var(v) => Term::Var(
                Var { text: v.text.clone(), location: v.location.clone() },
            ),
            Term::Function(f) => Term::Function(
                Function {
                    parameters: clone_parameters(&f.parameters),
                    value: Box::new((*f.value).clone()),
                    location: f.location.clone(),
                },
            ),
            Term::Call(c) => Term::Call(
                Call {
                    callee: Box::new((*c.callee).clone()),
                    arguments: clone_terms(&c.arguments),
                    location: c.location.clone(),
                },
            ),
        }
    }
}

} // verus!
