//! The expression model: an immutable, structurally recursive term type shared
//! by source code, runtime values and quoted data, together with its
//! mathematical view, structural equality, deep cloning, free-variable tests
//! and binder renaming.

use vstd::prelude::*;

verus! {

broadcast use vstd::std_specs::vec::group_vec_axioms;

/// A handle into the fixed table of native (built-in) procedure
/// implementations. Natives participate in the same application and currying
/// machinery as interpreted procedures.
#[derive(Clone, Copy, Debug, PartialEq, Eq, Structural)]
pub enum NativeFn {
    Add,
    Sub,
    Mul,
    Div,
    Eq,
    Ne,
    Cons,
    ListOf,
    First,
    Second,
    Third,
    Nth,
    IsAtom,
    Print,
    PrintLn,
    StringAppend,
    StringHead,
    StringTail,
    StringInit,
    StringLast,
    SymbolToString,
}

/// An expression tree. Each composite variant exclusively owns its
/// sub-expressions: the tree is a pure value, deep-copied wherever it must
/// appear in two places. Text payloads are kept as character vectors so that
/// every operation on them is verified at the character level.
#[derive(Debug, PartialEq, Eq)]
pub enum Exp {
    /// The empty value.
    Nil,
    /// A truth value.
    Bool(bool),
    /// An exact 64-bit signed integer.
    Integer(i64),
    /// A string literal.
    Text(Vec<char>),
    /// A variable reference or binder name.
    Symbol(Vec<char>),
    /// A single-parameter function literal: parameter name and body.
    Lambda(Vec<char>, Box<Exp>),
    /// A function call: function expression and argument expression.
    Apply(Box<Exp>, Box<Exp>),
    /// An ordered list of expressions. A list whose evaluated head is callable
    /// is applied to the remaining elements; otherwise it is a literal list.
    List(Vec<Exp>),
    /// Branching: condition, then-branch, else-branch.
    If(Box<Exp>, Box<Exp>, Box<Exp>),
    /// Suppresses evaluation of the wrapped expression.
    Quote(Box<Exp>),
    /// A single non-recursive local binding: name, value, body.
    Let(Vec<char>, Box<Exp>, Box<Exp>),
    /// First-match pattern dispatch: scrutinee and ordered clause list.
    Case(Box<Exp>, Vec<(Exp, Exp)>),
    /// A partially- or fully-applied built-in procedure: the native function
    /// reference and the accumulated argument values.
    BuildIn(NativeFn, Vec<Exp>),
}

/// The mathematical view of an expression: the same tree over `Seq` payloads.
#[verifier::ext_equal]
pub enum ExpV {
    Nil,
    Bool(bool),
    Integer(i64),
    Text(Seq<char>),
    Symbol(Seq<char>),
    Lambda(Seq<char>, Box<ExpV>),
    Apply(Box<ExpV>, Box<ExpV>),
    List(Seq<ExpV>),
    If(Box<ExpV>, Box<ExpV>, Box<ExpV>),
    Quote(Box<ExpV>),
    Let(Seq<char>, Box<ExpV>, Box<ExpV>),
    Case(Box<ExpV>, Seq<(ExpV, ExpV)>),
    BuildIn(NativeFn, Seq<ExpV>),
}

/// The view of an expression tree.
pub open spec fn expv(e: Exp) -> ExpV
    decreases e,
{
    match e {
        Exp::Nil => ExpV::Nil,
        Exp::Bool(b) => ExpV::Bool(b),
        Exp::Integer(i) => ExpV::Integer(i),
        Exp::Text(s) => ExpV::Text(s@),
        Exp::Symbol(s) => ExpV::Symbol(s@),
        Exp::Lambda(p, b) => ExpV::Lambda(p@, Box::new(expv(*b))),
        Exp::Apply(f, a) => ExpV::Apply(Box::new(expv(*f)), Box::new(expv(*a))),
        Exp::List(items) => {
            proof {
                assert(decreases_to!(e => items));
                assert(decreases_to!(items => items@));
            }
            ExpV::List(view_elems(items@))
        },
        Exp::If(c, t, els) => ExpV::If(
            Box::new(expv(*c)),
            Box::new(expv(*t)),
            Box::new(expv(*els)),
        ),
        Exp::Quote(i) => ExpV::Quote(Box::new(expv(*i))),
        Exp::Let(n, v, b) => ExpV::Let(n@, Box::new(expv(*v)), Box::new(expv(*b))),
        Exp::Case(s, cls) => {
            proof {
                assert(decreases_to!(e => cls));
                assert(decreases_to!(cls => cls@));
            }
            ExpV::Case(Box::new(expv(*s)), view_clauses(cls@))
        },
        Exp::BuildIn(f, args) => {
            proof {
                assert(decreases_to!(e => args));
                assert(decreases_to!(args => args@));
            }
            ExpV::BuildIn(f, view_elems(args@))
        },
    }
}

/// The elementwise view of a sequence of expressions.
pub open spec fn view_elems(items: Seq<Exp>) -> Seq<ExpV>
    decreases items,
{
    if items.len() == 0 {
        Seq::empty()
    } else {
        seq![expv(items[0])] + view_elems(items.drop_first())
    }
}

/// The pairwise view of a clause list.
pub open spec fn view_clauses(cls: Seq<(Exp, Exp)>) -> Seq<(ExpV, ExpV)>
    decreases cls,
{
    if cls.len() == 0 {
        Seq::empty()
    } else {
        seq![(expv(cls[0].0), expv(cls[0].1))] + view_clauses(cls.drop_first())
    }
}

impl View for Exp {
    type V = ExpV;

    open spec fn view(&self) -> ExpV {
        expv(*self)
    }
}

/// `view_elems` is the elementwise image of the view.
pub proof fn lemma_view_elems(s: Seq<Exp>)
    ensures
        view_elems(s).len() == s.len(),
        forall|i: int| 0 <= i < s.len() ==> view_elems(s)[i] == expv(s[i]),
    decreases s.len(),
{
    if s.len() > 0 {
        lemma_view_elems(s.drop_first());
    }
}

/// `view_clauses` is the pairwise image of the view.
pub proof fn lemma_view_clauses(s: Seq<(Exp, Exp)>)
    ensures
        view_clauses(s).len() == s.len(),
        forall|i: int| 0 <= i < s.len() ==> view_clauses(s)[i] == (
            expv(s[i].0),
            expv(s[i].1),
        ),
    decreases s.len(),
{
    if s.len() > 0 {
        lemma_view_clauses(s.drop_first());
    }
}

/// The empty value.
pub fn nil() -> (r: Exp)
    ensures
        r@ == ExpV::Nil,
{
    Exp::Nil
}

/// A truth value.
pub fn bool(b: bool) -> (r: Exp)
    ensures
        r@ == ExpV::Bool(b),
{
    Exp::Bool(b)
}

/// An integer literal.
pub fn integer(i: i64) -> (r: Exp)
    ensures
        r@ == ExpV::Integer(i),
{
    Exp::Integer(i)
}

/// A string literal.
pub fn string(s: &str) -> (r: Exp)
    ensures
        r@ == ExpV::Text(s@),
{
    Exp::Text(str_to_chars(s))
}

/// A variable reference or binder name.
pub fn symbol(sym: &str) -> (r: Exp)
    ensures
        r@ == ExpV::Symbol(sym@),
{
    Exp::Symbol(str_to_chars(sym))
}

/// A single-parameter function literal.
pub fn lambda(param: &str, body: Exp) -> (r: Exp)
    ensures
        r@ == ExpV::Lambda(param@, Box::new(body@)),
{
    Exp::Lambda(str_to_chars(param), Box::new(body))
}

/// A function call, function first.
pub fn apply(e1: Exp, e2: Exp) -> (r: Exp)
    ensures
        r@ == ExpV::Apply(Box::new(e1@), Box::new(e2@)),
{
    Exp::Apply(Box::new(e1), Box::new(e2))
}

/// A list expression holding a copy of the given elements.
pub fn list(elems: &[Exp]) -> (r: Exp)
    ensures
        r@ == ExpV::List(view_elems(elems@)),
{
    let mut out: Vec<Exp> = Vec::new();
    let mut i: usize = 0;
    while i < elems.len()
        invariant
            i <= elems@.len(),
            out@.len() == i,
            forall|j: int| 0 <= j < i ==> (#[trigger] out@[j])@ == expv(elems@[j]),
        decreases elems@.len() - i,
    {
        let c = clone_exp(&elems[i]);
        out.push(c);
        i = i + 1;
    }
    proof {
        lemma_view_elems(out@);
        lemma_view_elems(elems@);
        assert(view_elems(out@) =~= view_elems(elems@));
    }
    Exp::List(out)
}

/// Branching.
pub fn if_(cond: Exp, then: Exp, else_: Exp) -> (r: Exp)
    ensures
        r@ == ExpV::If(Box::new(cond@), Box::new(then@), Box::new(else_@)),
{
    Exp::If(Box::new(cond), Box::new(then), Box::new(else_))
}

/// A single non-recursive local binding.
pub fn let_(bind: (&str, Exp), exp: Exp) -> (r: Exp)
    ensures
        r@ == ExpV::Let(bind.0@, Box::new(bind.1@), Box::new(exp@)),
{
    Exp::Let(str_to_chars(bind.0), Box::new(bind.1), Box::new(exp))
}

/// First-match pattern dispatch over a copy of the given clauses.
pub fn case(exp: Exp, cases: &[(Exp, Exp)]) -> (r: Exp)
    ensures
        r@ == ExpV::Case(Box::new(exp@), view_clauses(cases@)),
{
    let mut out: Vec<(Exp, Exp)> = Vec::new();
    let mut i: usize = 0;
    while i < cases.len()
        invariant
            i <= cases@.len(),
            out@.len() == i,
            forall|j: int| 0 <= j < i ==> (#[trigger] out@[j]).0@ == expv(cases@[j].0)
                && out@[j].1@ == expv(cases@[j].1),
        decreases cases@.len() - i,
    {
        let p = clone_exp(&cases[i].0);
        let r = clone_exp(&cases[i].1);
        out.push((p, r));
        i = i + 1;
    }
    proof {
        lemma_view_clauses(out@);
        lemma_view_clauses(cases@);
        assert(view_clauses(out@) =~= view_clauses(cases@));
    }
    Exp::Case(Box::new(exp), out)
}

/// Suppresses evaluation of the wrapped expression.
pub fn quote(e: Exp) -> (r: Exp)
    ensures
        r@ == ExpV::Quote(Box::new(e@)),
{
    Exp::Quote(Box::new(e))
}

/// A built-in procedure value with a copy of the given accumulated arguments.
pub fn buildin(f: NativeFn, args: &[Exp]) -> (r: Exp)
    ensures
        r@ == ExpV::BuildIn(f, view_elems(args@)),
{
    let mut out: Vec<Exp> = Vec::new();
    let mut i: usize = 0;
    while i < args.len()
        invariant
            i <= args@.len(),
            out@.len() == i,
            forall|j: int| 0 <= j < i ==> (#[trigger] out@[j])@ == expv(args@[j]),
        decreases args@.len() - i,
    {
        let c = clone_exp(&args[i]);
        out.push(c);
        i = i + 1;
    }
    proof {
        lemma_view_elems(out@);
        lemma_view_elems(args@);
        assert(view_elems(out@) =~= view_elems(args@));
    }
    Exp::BuildIn(f, out)
}

/// Relies on `str::chars`: the characters of a string slice, in order, which
/// are exactly its view.
#[verifier::external_body]
pub(crate) fn str_to_chars(s: &str) -> (r: Vec<char>)
    ensures
        r@ == s@,
{
    s.chars().collect()
}

/// A copy of a character vector.
pub fn clone_chars(v: &Vec<char>) -> (r: Vec<char>)
    ensures
        r@ == v@,
{
    let mut out: Vec<char> = Vec::new();
    let mut i: usize = 0;
    while i < v.len()
        invariant
            i <= v@.len(),
            out@ == v@.subrange(0, i as int),
        decreases v@.len() - i,
    {
        out.push(v[i]);
        i = i + 1;
    }
    proof {
        assert(out@ =~= v@);
    }
    out
}

/// A deep copy of an expression: substitution must never alias into the
/// original tree, so trees are copied wherever they must appear twice.
pub fn clone_exp(e: &Exp) -> (r: Exp)
    ensures
        r@ == e@,
    decreases *e, 0nat,
{
    match e {
        Exp::Nil => Exp::Nil,
        Exp::Bool(b) => Exp::Bool(*b),
        Exp::Integer(i) => Exp::Integer(*i),
        Exp::Text(s) => Exp::Text(clone_chars(s)),
        Exp::Symbol(s) => Exp::Symbol(clone_chars(s)),
        Exp::Lambda(p, b) => Exp::Lambda(clone_chars(p), Box::new(clone_exp(b))),
        Exp::Apply(f, a) => Exp::Apply(Box::new(clone_exp(f)), Box::new(clone_exp(a))),
        Exp::List(items) => {
            proof {
                assert(decreases_to!(*e => *items));
                assert(decreases_to!(*items => items@));
            }
            let r = clone_vec(items);
            proof {
                lemma_view_elems(r@);
                lemma_view_elems(items@);
                assert(view_elems(r@) =~= view_elems(items@));
            }
            Exp::List(r)
        },
        Exp::If(c, t, els) => Exp::If(
            Box::new(clone_exp(c)),
            Box::new(clone_exp(t)),
            Box::new(clone_exp(els)),
        ),
        Exp::Quote(i) => Exp::Quote(Box::new(clone_exp(i))),
        Exp::Let(n, v, b) => Exp::Let(
            clone_chars(n),
            Box::new(clone_exp(v)),
            Box::new(clone_exp(b)),
        ),
        Exp::Case(s, cls) => {
            proof {
                assert(decreases_to!(*e => *cls));
                assert(decreases_to!(*cls => cls@));
            }
            let r = clone_clauses(cls);
            proof {
                lemma_view_clauses(r@);
                lemma_view_clauses(cls@);
                assert(view_clauses(r@) =~= view_clauses(cls@));
            }
            Exp::Case(Box::new(clone_exp(s)), r)
        },
        Exp::BuildIn(f, args) => {
            proof {
                assert(decreases_to!(*e => *args));
                assert(decreases_to!(*args => args@));
            }
            let r = clone_vec(args);
            proof {
                lemma_view_elems(r@);
                lemma_view_elems(args@);
                assert(view_elems(r@) =~= view_elems(args@));
            }
            Exp::BuildIn(*f, r)
        },
    }
}

/// A deep copy of an expression vector.
pub fn clone_vec(items: &Vec<Exp>) -> (r: Vec<Exp>)
    ensures
        r@.len() == items@.len(),
        forall|i: int| 0 <= i < items@.len() ==> (#[trigger] r@[i])@ == expv(items@[i]),
    decreases items@, items@.len(),
{
    let mut out: Vec<Exp> = Vec::new();
    let mut i: usize = 0;
    while i < items.len()
        invariant
            i <= items@.len(),
            out@.len() == i,
            forall|j: int| 0 <= j < i ==> (#[trigger] out@[j])@ == expv(items@[j]),
        decreases items@.len() - i,
    {
        proof {
            assert(decreases_to!(items@ => items@[i as int]));
        }
        let c = clone_exp(&items[i]);
        out.push(c);
        i = i + 1;
    }
    out
}

/// A deep copy of a clause vector.
pub fn clone_clauses(cls: &Vec<(Exp, Exp)>) -> (r: Vec<(Exp, Exp)>)
    ensures
        r@.len() == cls@.len(),
        forall|i: int| 0 <= i < cls@.len() ==> (#[trigger] r@[i]).0@ == expv(cls@[i].0)
            && r@[i].1@ == expv(cls@[i].1),
    decreases cls@, cls@.len(),
{
    let mut out: Vec<(Exp, Exp)> = Vec::new();
    let mut i: usize = 0;
    while i < cls.len()
        invariant
            i <= cls@.len(),
            out@.len() == i,
            forall|j: int| 0 <= j < i ==> (#[trigger] out@[j]).0@ == expv(cls@[j].0)
                && out@[j].1@ == expv(cls@[j].1),
        decreases cls@.len() - i,
    {
        proof {
            assert(decreases_to!(cls@ => cls@[i as int]));
            assert(decreases_to!(cls@[i as int] => cls@[i as int].0));
        }
        let p = clone_exp(&cls[i].0);
        let r = clone_exp(&cls[i].1);
        out.push((p, r));
        i = i + 1;
    }
    out
}

/// Character-vector equality.
pub fn chars_eq(a: &Vec<char>, b: &Vec<char>) -> (r: bool)
    ensures
        r == (a@ == b@),
{
    if a.len() != b.len() {
        return false;
    }
    let mut i: usize = 0;
    while i < a.len()
        invariant
            a@.len() == b@.len(),
            i <= a@.len(),
            forall|j: int| 0 <= j < i ==> a@[j] == b@[j],
        decreases a@.len() - i,
    {
        if a[i] != b[i] {
            return false;
        }
        i = i + 1;
    }
    proof {
        assert(a@ =~= b@);
    }
    true
}

/// Structural equality of two expressions, the equality used by the `==` and
/// `/=` native procedures: `true` exactly when the views are equal.
#[verifier::rlimit(60)]
pub fn exp_eq(a: &Exp, b: &Exp) -> (r: bool)
    ensures
        r == (a@ == b@),
    decreases *a, 0nat,
{
    match a {
        Exp::Nil => match b {
            Exp::Nil => true,
            _ => false,
        },
        Exp::Bool(x) => match b {
            Exp::Bool(y) => x == y,
            _ => false,
        },
        Exp::Integer(x) => match b {
            Exp::Integer(y) => x == y,
            _ => false,
        },
        Exp::Text(x) => match b {
            Exp::Text(y) => chars_eq(x, y),
            _ => false,
        },
        Exp::Symbol(x) => match b {
            Exp::Symbol(y) => chars_eq(x, y),
            _ => false,
        },
        Exp::Lambda(p1, b1) => match b {
            Exp::Lambda(p2, b2) => chars_eq(p1, p2) && exp_eq(b1, b2),
            _ => false,
        },
        Exp::Apply(f1, a1) => match b {
            Exp::Apply(f2, a2) => exp_eq(f1, f2) && exp_eq(a1, a2),
            _ => false,
        },
        Exp::List(x) => match b {
            Exp::List(y) => {
                proof {
                    assert(decreases_to!(*a => *x));
                    assert(decreases_to!(*x => x@));
                    lemma_view_elems(x@);
                    lemma_view_elems(y@);
                }
                let same = elems_eq(x, y);
                proof {
                    if same {
                        assert(view_elems(x@) =~= view_elems(y@));
                    } else {
                        if x@.len() == y@.len() {
                            let i = choose|i: int|
                                0 <= i < x@.len() && expv(x@[i]) != expv(y@[i]);
                            assert(view_elems(x@)[i] != view_elems(y@)[i]);
                        } else {
                            assert(view_elems(x@).len() != view_elems(y@).len());
                        }
                    }
                }
                same
            },
            _ => false,
        },
        Exp::If(c1, t1, e1) => match b {
            Exp::If(c2, t2, e2) => exp_eq(c1, c2) && exp_eq(t1, t2) && exp_eq(e1, e2),
            _ => false,
        },
        Exp::Quote(x) => match b {
            Exp::Quote(y) => exp_eq(x, y),
            _ => false,
        },
        Exp::Let(n1, v1, b1) => match b {
            Exp::Let(n2, v2, b2) => chars_eq(n1, n2) && exp_eq(v1, v2) && exp_eq(b1, b2),
            _ => false,
        },
        Exp::Case(s1, c1) => match b {
            Exp::Case(s2, c2) => {
                proof {
                    assert(decreases_to!(*a => *c1));
                    assert(decreases_to!(*c1 => c1@));
                    lemma_view_clauses(c1@);
                    lemma_view_clauses(c2@);
                }
                let same = exp_eq(s1, s2) && clauses_eq(c1, c2);
                proof {
                    if same {
                        assert(view_clauses(c1@) =~= view_clauses(c2@));
                    } else {
                        if expv(**s1) == expv(**s2) && c1@.len() == c2@.len() {
                            let i = choose|i: int|
                                0 <= i < c1@.len() && !(expv(c1@[i].0) == expv(c2@[i].0)
                                    && expv(c1@[i].1) == expv(c2@[i].1));
                            assert(view_clauses(c1@)[i] != view_clauses(c2@)[i]);
                        }
                    }
                }
                same
            },
            _ => false,
        },
        Exp::BuildIn(f1, a1) => match b {
            Exp::BuildIn(f2, a2) => {
                proof {
                    assert(decreases_to!(*a => *a1));
                    assert(decreases_to!(*a1 => a1@));
                    lemma_view_elems(a1@);
                    lemma_view_elems(a2@);
                }
                let same = *f1 == *f2 && elems_eq(a1, a2);
                proof {
                    if same {
                        assert(view_elems(a1@) =~= view_elems(a2@));
                    } else {
                        if *f1 == *f2 && a1@.len() == a2@.len() {
                            let i = choose|i: int|
                                0 <= i < a1@.len() && expv(a1@[i]) != expv(a2@[i]);
                            assert(view_elems(a1@)[i] != view_elems(a2@)[i]);
                        }
                    }
                }
                same
            },
            _ => false,
        },
    }
}

/// Elementwise structural equality of two expression vectors.
pub fn elems_eq(x: &Vec<Exp>, y: &Vec<Exp>) -> (r: bool)
    ensures
        r == (x@.len() == y@.len() && forall|i: int|
            0 <= i < x@.len() ==> expv(x@[i]) == expv(y@[i])),
    decreases x@, x@.len(),
{
    if x.len() != y.len() {
        return false;
    }
    let mut i: usize = 0;
    while i < x.len()
        invariant
            x@.len() == y@.len(),
            i <= x@.len(),
            forall|j: int| 0 <= j < i ==> expv(x@[j]) == expv(y@[j]),
        decreases x@.len() - i,
    {
        proof {
            assert(decreases_to!(x@ => x@[i as int]));
        }
        if !exp_eq(&x[i], &y[i]) {
            return false;
        }
        i = i + 1;
    }
    true
}

/// Pairwise structural equality of two clause vectors.
pub fn clauses_eq(x: &Vec<(Exp, Exp)>, y: &Vec<(Exp, Exp)>) -> (r: bool)
    ensures
        r == (x@.len() == y@.len() && forall|i: int|
            0 <= i < x@.len() ==> expv(x@[i].0) == expv(y@[i].0) && expv(x@[i].1) == expv(
                y@[i].1,
            )),
    decreases x@, x@.len(),
{
    if x.len() != y.len() {
        return false;
    }
    let mut i: usize = 0;
    while i < x.len()
        invariant
            x@.len() == y@.len(),
            i <= x@.len(),
            forall|j: int| 0 <= j < i ==> expv(x@[j].0) == expv(y@[j].0) && expv(x@[j].1)
                == expv(y@[j].1),
        decreases x@.len() - i,
    {
        proof {
            assert(decreases_to!(x@ => x@[i as int]));
            assert(decreases_to!(x@[i as int] => x@[i as int].0));
        }
        if !exp_eq(&x[i].0, &y[i].0) {
            return false;
        }
        if !exp_eq(&x[i].1, &y[i].1) {
            return false;
        }
        i = i + 1;
    }
    true
}


/// Whether the name `x` occurs free in `e`. `Lambda` and `Let` bind their
/// name; quotations are opaque to substitution, so nothing is free inside
/// them; `Case` patterns are literals and bind nothing.
pub open spec fn free_in(e: ExpV, x: Seq<char>) -> bool
    decreases e, 0nat,
{
    match e {
        ExpV::Nil => false,
        ExpV::Bool(_) => false,
        ExpV::Integer(_) => false,
        ExpV::Text(_) => false,
        ExpV::Symbol(n) => n == x,
        ExpV::Lambda(p, b) => p != x && free_in(*b, x),
        ExpV::Apply(f, a) => free_in(*f, x) || free_in(*a, x),
        ExpV::List(items) => free_in_elems(items, x),
        ExpV::If(c, t, els) => free_in(*c, x) || free_in(*t, x) || free_in(*els, x),
        ExpV::Quote(_) => false,
        ExpV::Let(n, v, b) => free_in(*v, x) || (n != x && free_in(*b, x)),
        ExpV::Case(scr, cls) => free_in(*scr, x) || free_in_clauses(cls, x),
        ExpV::BuildIn(_, args) => free_in_elems(args, x),
    }
}

/// Whether `x` occurs free in any element of `s`.
pub open spec fn free_in_elems(s: Seq<ExpV>, x: Seq<char>) -> bool
    decreases s, s.len(),
{
    if s.len() == 0 {
        false
    } else {
        free_in(s[0], x) || free_in_elems(s.drop_first(), x)
    }
}

/// Whether `x` occurs free in any pattern or result of `cls`.
pub open spec fn free_in_clauses(cls: Seq<(ExpV, ExpV)>, x: Seq<char>) -> bool
    decreases cls, cls.len(),
{
    if cls.len() == 0 {
        false
    } else {
        free_in(cls[0].0, x) || free_in(cls[0].1, x) || free_in_clauses(cls.drop_first(), x)
    }
}

/// `free_in_elems` is an existential over the elements.
pub proof fn lemma_free_in_elems(s: Seq<ExpV>, x: Seq<char>)
    ensures
        free_in_elems(s, x) == exists|i: int| 0 <= i < s.len() && free_in(#[trigger] s[i], x),
    decreases s.len(),
{
    if s.len() > 0 {
        lemma_free_in_elems(s.drop_first(), x);
        if free_in_elems(s, x) {
            if free_in(s[0], x) {
                assert(0 <= 0 < s.len() && free_in(s[0], x));
            } else {
                let i = choose|i: int|
                    0 <= i < s.drop_first().len() && free_in(#[trigger] s.drop_first()[i], x);
                assert(s.drop_first()[i] == s[i + 1]);
                assert(0 <= i + 1 < s.len() && free_in(s[i + 1], x));
            }
        }
        if exists|i: int| 0 <= i < s.len() && free_in(#[trigger] s[i], x) {
            let i = choose|i: int| 0 <= i < s.len() && free_in(#[trigger] s[i], x);
            if i > 0 {
                assert(s.drop_first()[i - 1] == s[i]);
                assert(free_in_elems(s.drop_first(), x));
            }
        }
    }
}

/// `free_in_clauses` is an existential over the clause pairs.
pub proof fn lemma_free_in_clauses(cls: Seq<(ExpV, ExpV)>, x: Seq<char>)
    ensures
        free_in_clauses(cls, x) == exists|i: int|
            0 <= i < cls.len() && (free_in((#[trigger] cls[i]).0, x) || free_in(cls[i].1, x)),
    decreases cls.len(),
{
    if cls.len() > 0 {
        lemma_free_in_clauses(cls.drop_first(), x);
        if free_in_clauses(cls, x) {
            if free_in(cls[0].0, x) || free_in(cls[0].1, x) {
                assert(0 <= 0 < cls.len() && (free_in(cls[0].0, x) || free_in(cls[0].1, x)));
            } else {
                let i = choose|i: int|
                    0 <= i < cls.drop_first().len() && (free_in(
                        (#[trigger] cls.drop_first()[i]).0,
                        x,
                    ) || free_in(cls.drop_first()[i].1, x));
                assert(cls.drop_first()[i] == cls[i + 1]);
                assert(0 <= i + 1 < cls.len() && (free_in(cls[i + 1].0, x) || free_in(
                    cls[i + 1].1,
                    x,
                )));
            }
        }
        if exists|i: int|
            0 <= i < cls.len() && (free_in((#[trigger] cls[i]).0, x) || free_in(cls[i].1, x)) {
            let i = choose|i: int|
                0 <= i < cls.len() && (free_in((#[trigger] cls[i]).0, x) || free_in(
                    cls[i].1,
                    x,
                ));
            if i > 0 {
                assert(cls.drop_first()[i - 1] == cls[i]);
                assert(free_in_clauses(cls.drop_first(), x));
            }
        }
    }
}

/// Whether the name `x` occurs free in `e`.
pub fn occurs_free(e: &Exp, x: &Vec<char>) -> (r: bool)
    ensures
        r == free_in(e@, x@),
    decreases *e, 0nat,
{
    match e {
        Exp::Nil => false,
        Exp::Bool(_) => false,
        Exp::Integer(_) => false,
        Exp::Text(_) => false,
        Exp::Symbol(n) => chars_eq(n, x),
        Exp::Lambda(p, b) => !chars_eq(p, x) && occurs_free(b, x),
        Exp::Apply(f, a) => occurs_free(f, x) || occurs_free(a, x),
        Exp::List(items) => {
            proof {
                assert(decreases_to!(*e => *items));
                assert(decreases_to!(*items => items@));
                lemma_view_elems(items@);
                lemma_free_in_elems(view_elems(items@), x@);
            }
            occurs_free_vec(items, x)
        },
        Exp::If(c, t, els) => occurs_free(c, x) || occurs_free(t, x) || occurs_free(els, x),
        Exp::Quote(_) => false,
        Exp::Let(n, v, b) => occurs_free(v, x) || (!chars_eq(n, x) && occurs_free(b, x)),
        Exp::Case(scr, cls) => {
            proof {
                assert(decreases_to!(*e => *cls));
                assert(decreases_to!(*cls => cls@));
                lemma_view_clauses(cls@);
                lemma_free_in_clauses(view_clauses(cls@), x@);
            }
            occurs_free(scr, x) || occurs_free_clauses(cls, x)
        },
        Exp::BuildIn(_, args) => {
            proof {
                assert(decreases_to!(*e => *args));
                assert(decreases_to!(*args => args@));
                lemma_view_elems(args@);
                lemma_free_in_elems(view_elems(args@), x@);
            }
            occurs_free_vec(args, x)
        },
    }
}

/// Whether `x` occurs free in any element of `items`.
pub fn occurs_free_vec(items: &Vec<Exp>, x: &Vec<char>) -> (r: bool)
    ensures
        r == free_in_elems(view_elems(items@), x@),
    decreases items@, items@.len(),
{
    proof {
        lemma_view_elems(items@);
        lemma_free_in_elems(view_elems(items@), x@);
    }
    let mut i: usize = 0;
    while i < items.len()
        invariant
            i <= items@.len(),
            forall|j: int| 0 <= j < i ==> !free_in(expv(#[trigger] items@[j]), x@),
        decreases items@.len() - i,
    {
        proof {
            assert(decreases_to!(items@ => items@[i as int]));
        }
        if occurs_free(&items[i], x) {
            proof {
                lemma_view_elems(items@);
                lemma_free_in_elems(view_elems(items@), x@);
                assert(view_elems(items@)[i as int] == expv(items@[i as int]));
                assert(0 <= (i as int) < view_elems(items@).len() && free_in(
                    view_elems(items@)[i as int],
                    x@,
                ));
            }
            return true;
        }
        i = i + 1;
    }
    proof {
        if free_in_elems(view_elems(items@), x@) {
            let j = choose|j: int|
                0 <= j < view_elems(items@).len() && free_in(
                    #[trigger] view_elems(items@)[j],
                    x@,
                );
            assert(view_elems(items@)[j] == expv(items@[j]));
            assert(false);
        }
    }
    false
}

/// Whether `x` occurs free in any pattern or result of `cls`.
pub fn occurs_free_clauses(cls: &Vec<(Exp, Exp)>, x: &Vec<char>) -> (r: bool)
    ensures
        r == free_in_clauses(view_clauses(cls@), x@),
    decreases cls@, cls@.len(),
{
    proof {
        lemma_view_clauses(cls@);
        lemma_free_in_clauses(view_clauses(cls@), x@);
    }
    let mut i: usize = 0;
    while i < cls.len()
        invariant
            i <= cls@.len(),
            forall|j: int| 0 <= j < i ==> !free_in(expv((#[trigger] cls@[j]).0), x@) && !free_in(
                expv(cls@[j].1),
                x@,
            ),
        decreases cls@.len() - i,
    {
        proof {
            assert(decreases_to!(cls@ => cls@[i as int]));
            assert(decreases_to!(cls@[i as int] => cls@[i as int].0));
        }
        let hit = occurs_free(&cls[i].0, x) || occurs_free(&cls[i].1, x);
        if hit {
            proof {
                lemma_view_clauses(cls@);
                lemma_free_in_clauses(view_clauses(cls@), x@);
                assert(view_clauses(cls@)[i as int] == (expv(cls@[i as int].0), expv(
                    cls@[i as int].1,
                )));
                assert(0 <= (i as int) < view_clauses(cls@).len() && (free_in(
                    view_clauses(cls@)[i as int].0,
                    x@,
                ) || free_in(view_clauses(cls@)[i as int].1, x@)));
            }
            return true;
        }
        i = i + 1;
    }
    proof {
        if free_in_clauses(view_clauses(cls@), x@) {
            let j = choose|j: int|
                0 <= j < view_clauses(cls@).len() && (free_in(
                    (#[trigger] view_clauses(cls@)[j]).0,
                    x@,
                ) || free_in(view_clauses(cls@)[j].1, x@));
            assert(view_clauses(cls@)[j] == (expv(cls@[j].0), expv(cls@[j].1)));
            assert(false);
        }
    }
    false
}

/// Renaming of a free name: every free occurrence of `x` becomes `y`. It is
/// used only with a fresh `y`, in which case it cannot capture; it performs
/// no capture check of its own, which keeps it structurally recursive.
pub open spec fn rename_s(e: ExpV, x: Seq<char>, y: Seq<char>) -> ExpV
    decreases e, 0nat,
{
    match e {
        ExpV::Nil => e,
        ExpV::Bool(_) => e,
        ExpV::Integer(_) => e,
        ExpV::Text(_) => e,
        ExpV::Symbol(n) => if n == x {
            ExpV::Symbol(y)
        } else {
            e
        },
        ExpV::Lambda(p, b) => if p == x {
            e
        } else {
            ExpV::Lambda(p, Box::new(rename_s(*b, x, y)))
        },
        ExpV::Apply(f, a) => ExpV::Apply(
            Box::new(rename_s(*f, x, y)),
            Box::new(rename_s(*a, x, y)),
        ),
        ExpV::List(items) => ExpV::List(rename_elems_s(items, x, y)),
        ExpV::If(c, t, els) => ExpV::If(
            Box::new(rename_s(*c, x, y)),
            Box::new(rename_s(*t, x, y)),
            Box::new(rename_s(*els, x, y)),
        ),
        ExpV::Quote(_) => e,
        ExpV::Let(n, v, b) => ExpV::Let(
            n,
            Box::new(rename_s(*v, x, y)),
            if n == x {
                b
            } else {
                Box::new(rename_s(*b, x, y))
            },
        ),
        ExpV::Case(scr, cls) => ExpV::Case(
            Box::new(rename_s(*scr, x, y)),
            rename_clauses_s(cls, x, y),
        ),
        ExpV::BuildIn(f, args) => ExpV::BuildIn(f, rename_elems_s(args, x, y)),
    }
}

/// Elementwise renaming.
pub open spec fn rename_elems_s(s: Seq<ExpV>, x: Seq<char>, y: Seq<char>) -> Seq<ExpV>
    decreases s, s.len(),
{
    if s.len() == 0 {
        s
    } else {
        seq![rename_s(s[0], x, y)] + rename_elems_s(s.drop_first(), x, y)
    }
}

/// Pairwise renaming of clauses.
pub open spec fn rename_clauses_s(cls: Seq<(ExpV, ExpV)>, x: Seq<char>, y: Seq<char>) -> Seq<
    (ExpV, ExpV),
>
    decreases cls, cls.len(),
{
    if cls.len() == 0 {
        cls
    } else {
        seq![(rename_s(cls[0].0, x, y), rename_s(cls[0].1, x, y))] + rename_clauses_s(
            cls.drop_first(),
            x,
            y,
        )
    }
}

/// The number of nodes of an expression tree; every node counts one.
pub open spec fn esize(e: ExpV) -> nat
    decreases e, 0nat,
{
    match e {
        ExpV::Nil => 1,
        ExpV::Bool(_) => 1,
        ExpV::Integer(_) => 1,
        ExpV::Text(_) => 1,
        ExpV::Symbol(_) => 1,
        ExpV::Lambda(_, b) => 1 + esize(*b),
        ExpV::Apply(f, a) => 1 + esize(*f) + esize(*a),
        ExpV::List(items) => 1 + esize_elems(items),
        ExpV::If(c, t, els) => 1 + esize(*c) + esize(*t) + esize(*els),
        ExpV::Quote(i) => 1 + esize(*i),
        ExpV::Let(_, v, b) => 1 + esize(*v) + esize(*b),
        ExpV::Case(scr, cls) => 1 + esize(*scr) + esize_clauses(cls),
        ExpV::BuildIn(_, args) => 1 + esize_elems(args),
    }
}

/// The total node count of a sequence of expressions.
pub open spec fn esize_elems(s: Seq<ExpV>) -> nat
    decreases s, s.len(),
{
    if s.len() == 0 {
        0
    } else {
        esize(s[0]) + esize_elems(s.drop_first())
    }
}

/// The total node count of a clause list.
pub open spec fn esize_clauses(cls: Seq<(ExpV, ExpV)>) -> nat
    decreases cls, cls.len(),
{
    if cls.len() == 0 {
        0
    } else {
        esize(cls[0].0) + esize(cls[0].1) + esize_clauses(cls.drop_first())
    }
}

/// Renaming a name preserves the node count.
pub proof fn lemma_rename_size(e: ExpV, x: Seq<char>, y: Seq<char>)
    ensures
        esize(rename_s(e, x, y)) == esize(e),
    decreases e, 0nat,
{
    match e {
        ExpV::Lambda(p, b) => {
            if p != x {
                lemma_rename_size(*b, x, y);
            }
        },
        ExpV::Apply(f, a) => {
            lemma_rename_size(*f, x, y);
            lemma_rename_size(*a, x, y);
        },
        ExpV::List(items) => {
            lemma_rename_size_elems(items, x, y);
        },
        ExpV::If(c, t, els) => {
            lemma_rename_size(*c, x, y);
            lemma_rename_size(*t, x, y);
            lemma_rename_size(*els, x, y);
        },
        ExpV::Let(n, v, b) => {
            lemma_rename_size(*v, x, y);
            if n != x {
                lemma_rename_size(*b, x, y);
            }
        },
        ExpV::Case(scr, cls) => {
            lemma_rename_size(*scr, x, y);
            lemma_rename_size_clauses(cls, x, y);
        },
        ExpV::BuildIn(_, args) => {
            lemma_rename_size_elems(args, x, y);
        },
        _ => {},
    }
}

/// Elementwise renaming preserves the total node count.
pub proof fn lemma_rename_size_elems(s: Seq<ExpV>, x: Seq<char>, y: Seq<char>)
    ensures
        esize_elems(rename_elems_s(s, x, y)) == esize_elems(s),
    decreases s, s.len(),
{
    if s.len() > 0 {
        lemma_rename_size(s[0], x, y);
        lemma_rename_size_elems(s.drop_first(), x, y);
        assert(rename_elems_s(s, x, y).drop_first() =~= rename_elems_s(s.drop_first(), x, y));
    }
}

/// Pairwise renaming preserves the total node count.
pub proof fn lemma_rename_size_clauses(cls: Seq<(ExpV, ExpV)>, x: Seq<char>, y: Seq<char>)
    ensures
        esize_clauses(rename_clauses_s(cls, x, y)) == esize_clauses(cls),
    decreases cls, cls.len(),
{
    if cls.len() > 0 {
        lemma_rename_size(cls[0].0, x, y);
        lemma_rename_size(cls[0].1, x, y);
        lemma_rename_size_clauses(cls.drop_first(), x, y);
        assert(rename_clauses_s(cls, x, y).drop_first() =~= rename_clauses_s(
            cls.drop_first(),
            x,
            y,
        ));
    }
}

/// Renaming of a free name: every free occurrence of `x` becomes `y`.
pub fn rename(e: &Exp, x: &Vec<char>, y: &Vec<char>) -> (r: Exp)
    ensures
        r@ == rename_s(e@, x@, y@),
    decreases *e, 0nat,
{
    match e {
        Exp::Nil => Exp::Nil,
        Exp::Bool(b) => Exp::Bool(*b),
        Exp::Integer(i) => Exp::Integer(*i),
        Exp::Text(s) => Exp::Text(clone_chars(s)),
        Exp::Symbol(n) => if chars_eq(n, x) {
            Exp::Symbol(clone_chars(y))
        } else {
            Exp::Symbol(clone_chars(n))
        },
        Exp::Lambda(p, b) => if chars_eq(p, x) {
            clone_exp(e)
        } else {
            Exp::Lambda(clone_chars(p), Box::new(rename(b, x, y)))
        },
        Exp::Apply(f, a) => Exp::Apply(Box::new(rename(f, x, y)), Box::new(rename(a, x, y))),
        Exp::List(items) => {
            proof {
                assert(decreases_to!(*e => *items));
                assert(decreases_to!(*items => items@));
            }
            let r = rename_vec(items, x, y);
            proof {
                lemma_view_elems(items@);
                lemma_view_elems(r@);
                lemma_rename_elems_index(view_elems(items@), x@, y@);
                assert(view_elems(r@) =~= rename_elems_s(view_elems(items@), x@, y@));
            }
            Exp::List(r)
        },
        Exp::If(c, t, els) => Exp::If(
            Box::new(rename(c, x, y)),
            Box::new(rename(t, x, y)),
            Box::new(rename(els, x, y)),
        ),
        Exp::Quote(i) => Exp::Quote(Box::new(clone_exp(i))),
        Exp::Let(n, v, b) => {
            let nv = Box::new(rename(v, x, y));
            if chars_eq(n, x) {
                Exp::Let(clone_chars(n), nv, Box::new(clone_exp(b)))
            } else {
                Exp::Let(clone_chars(n), nv, Box::new(rename(b, x, y)))
            }
        },
        Exp::Case(scr, cls) => {
            proof {
                assert(decreases_to!(*e => *cls));
                assert(decreases_to!(*cls => cls@));
            }
            let rc = rename_clauses(cls, x, y);
            proof {
                lemma_view_clauses(cls@);
                lemma_view_clauses(rc@);
                lemma_rename_clauses_index(view_clauses(cls@), x@, y@);
                assert(view_clauses(rc@) =~= rename_clauses_s(view_clauses(cls@), x@, y@));
            }
            Exp::Case(Box::new(rename(scr, x, y)), rc)
        },
        Exp::BuildIn(f, args) => {
            proof {
                assert(decreases_to!(*e => *args));
                assert(decreases_to!(*args => args@));
            }
            let r = rename_vec(args, x, y);
            proof {
                lemma_view_elems(args@);
                lemma_view_elems(r@);
                lemma_rename_elems_index(view_elems(args@), x@, y@);
                assert(view_elems(r@) =~= rename_elems_s(view_elems(args@), x@, y@));
            }
            Exp::BuildIn(*f, r)
        },
    }
}

/// `rename_elems_s` is the elementwise image of `rename_s`.
pub proof fn lemma_rename_elems_index(s: Seq<ExpV>, x: Seq<char>, y: Seq<char>)
    ensures
        rename_elems_s(s, x, y).len() == s.len(),
        forall|i: int| 0 <= i < s.len() ==> rename_elems_s(s, x, y)[i] == rename_s(s[i], x, y),
    decreases s.len(),
{
    if s.len() > 0 {
        lemma_rename_elems_index(s.drop_first(), x, y);
    }
}

/// `rename_clauses_s` is the pairwise image of `rename_s`.
pub proof fn lemma_rename_clauses_index(cls: Seq<(ExpV, ExpV)>, x: Seq<char>, y: Seq<char>)
    ensures
        rename_clauses_s(cls, x, y).len() == cls.len(),
        forall|i: int| 0 <= i < cls.len() ==> rename_clauses_s(cls, x, y)[i] == (
            rename_s(cls[i].0, x, y),
            rename_s(cls[i].1, x, y),
        ),
    decreases cls.len(),
{
    if cls.len() > 0 {
        lemma_rename_clauses_index(cls.drop_first(), x, y);
    }
}

/// Elementwise renaming of an expression vector.
pub fn rename_vec(items: &Vec<Exp>, x: &Vec<char>, y: &Vec<char>) -> (r: Vec<Exp>)
    ensures
        r@.len() == items@.len(),
        forall|i: int| 0 <= i < items@.len() ==> (#[trigger] r@[i])@ == rename_s(
            expv(items@[i]),
            x@,
            y@,
        ),
    decreases items@, items@.len(),
{
    let mut out: Vec<Exp> = Vec::new();
    let mut i: usize = 0;
    while i < items.len()
        invariant
            i <= items@.len(),
            out@.len() == i,
            forall|j: int| 0 <= j < i ==> (#[trigger] out@[j])@ == rename_s(
                expv(items@[j]),
                x@,
                y@,
            ),
        decreases items@.len() - i,
    {
        proof {
            assert(decreases_to!(items@ => items@[i as int]));
        }
        let c = rename(&items[i], x, y);
        out.push(c);
        i = i + 1;
    }
    out
}

/// Pairwise renaming of a clause vector.
pub fn rename_clauses(cls: &Vec<(Exp, Exp)>, x: &Vec<char>, y: &Vec<char>) -> (r: Vec<
    (Exp, Exp),
>)
    ensures
        r@.len() == cls@.len(),
        forall|i: int| 0 <= i < cls@.len() ==> (#[trigger] r@[i]).0@ == rename_s(
            expv(cls@[i].0),
            x@,
            y@,
        ) && r@[i].1@ == rename_s(expv(cls@[i].1), x@, y@),
    decreases cls@, cls@.len(),
{
    let mut out: Vec<(Exp, Exp)> = Vec::new();
    let mut i: usize = 0;
    while i < cls.len()
        invariant
            i <= cls@.len(),
            out@.len() == i,
            forall|j: int| 0 <= j < i ==> (#[trigger] out@[j]).0@ == rename_s(
                expv(cls@[j].0),
                x@,
                y@,
            ) && out@[j].1@ == rename_s(expv(cls@[j].1), x@, y@),
        decreases cls@.len() - i,
    {
        proof {
            assert(decreases_to!(cls@ => cls@[i as int]));
            assert(decreases_to!(cls@[i as int] => cls@[i as int].0));
        }
        let p = rename(&cls[i].0, x, y);
        let r = rename(&cls[i].1, x, y);
        out.push((p, r));
        i = i + 1;
    }
    out
}

} // verus!
