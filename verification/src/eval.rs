//! The reduction engine: capture-avoiding substitution with hygienic
//! renaming, the definition table consulted for top-level names, the
//! fresh-name generator, and the evaluator itself.

use vstd::prelude::*;

use crate::ast::{
    chars_eq, clone_chars, clone_exp, esize, esize_clauses, esize_elems, expv, free_in,
    lemma_rename_size, lemma_view_clauses, lemma_view_elems, occurs_free, rename, rename_s,
    view_clauses, view_elems, Exp, ExpV,
};
use crate::render::{dec_digits, u64_dec_chars};

verus! {

broadcast use vstd::std_specs::vec::group_vec_axioms;

/// A typed evaluation failure. Every reduction rule propagates the first
/// error met in evaluation order; no partial result is returned.
#[derive(Debug, PartialEq, Eq)]
pub enum EvalError {
    /// A free name did not resolve to an entry of the definition table.
    UnboundName(Vec<char>),
    /// A construct met a value of the wrong shape, such as a non-boolean
    /// condition; it carries the offending value.
    TypeMismatch(Box<Exp>),
    /// A non-function value was applied; it carries that value.
    NotApplicable(Box<Exp>),
    /// No clause of a `Case` matched the scrutinee value it carries.
    NonExhaustiveMatch(Box<Exp>),
    /// A native procedure rejected its argument list, which it carries.
    ArityOrTypeMismatch(Vec<Exp>),
    /// Division by zero; carries the application of the two operand values.
    DivideByZero(Box<Exp>),
    /// The nesting budget of the evaluation was exhausted; this surfaces the
    /// bounded recursion depth of the engine.
    DepthLimit,
}

/// The mathematical view of an evaluation failure.
pub enum ErrV {
    UnboundName(Seq<char>),
    TypeMismatch(ExpV),
    NotApplicable(ExpV),
    NonExhaustiveMatch(ExpV),
    ArityOrTypeMismatch(Seq<ExpV>),
    DivideByZero(ExpV),
    DepthLimit,
}

/// The view of an evaluation failure.
pub open spec fn err_view(e: EvalError) -> ErrV {
    match e {
        EvalError::UnboundName(n) => ErrV::UnboundName(n@),
        EvalError::TypeMismatch(v) => ErrV::TypeMismatch(expv(*v)),
        EvalError::NotApplicable(v) => ErrV::NotApplicable(expv(*v)),
        EvalError::NonExhaustiveMatch(v) => ErrV::NonExhaustiveMatch(expv(*v)),
        EvalError::ArityOrTypeMismatch(args) => ErrV::ArityOrTypeMismatch(view_elems(args@)),
        EvalError::DivideByZero(v) => ErrV::DivideByZero(expv(*v)),
        EvalError::DepthLimit => ErrV::DepthLimit,
    }
}

/// The view of an evaluation outcome.
pub open spec fn res_view(r: Result<Exp, EvalError>) -> Result<ExpV, ErrV> {
    match r {
        Ok(v) => Ok(expv(v)),
        Err(e) => Err(err_view(e)),
    }
}

/// The counter after drawing one fresh name; it saturates at the machine
/// limit rather than wrapping, so the generator never panics.
pub open spec fn bump(c: nat) -> nat {
    if c < usize::MAX as nat {
        c + 1
    } else {
        c
    }
}

/// The fresh name drawn at counter `c`: a reserved `'#'` prefix, which the
/// parser never produces in user identifiers, followed by the decimal
/// digits of the counter.
pub open spec fn fresh_name(c: nat) -> Seq<char> {
    seq!['#'] + dec_digits(c)
}

/// The monotonically increasing counter that manufactures guaranteed-fresh
/// identifiers for hygienic renaming. It is explicit state threaded through
/// evaluation, so the evaluator stays referentially transparent.
pub struct VariableGenerator {
    /// The number of names drawn so far.
    pub counter: usize,
}

impl View for VariableGenerator {
    type V = nat;

    open spec fn view(&self) -> nat {
        self.counter as nat
    }
}

impl VariableGenerator {
    /// A generator that has drawn no names.
    pub fn new() -> (r: VariableGenerator)
        ensures
            r@ == 0,
    {
        VariableGenerator { counter: 0 }
    }

    /// Draws the next fresh name and advances the counter.
    pub fn next(&mut self) -> (r: Vec<char>)
        ensures
            r@ == fresh_name(old(self)@),
            final(self)@ == bump(old(self)@),
    {
        let mut out: Vec<char> = Vec::new();
        out.push('#');
        let mut digits = u64_dec_chars(self.counter as u64);
        out.append(&mut digits);
        proof {
            assert(out@ =~= fresh_name(old(self)@));
        }
        if self.counter < usize::MAX {
            self.counter = self.counter + 1;
        }
        out
    }
}

/// Capture-avoiding substitution: every free occurrence of `x` in `e` is
/// replaced by `v`, and no free name of `v` is captured by a binder of `e`;
/// a binder whose name occurs free in `v` is first renamed to a fresh name.
/// Returns the substituted expression and the counter after any renaming.
pub open spec fn subst_s(e: ExpV, x: Seq<char>, v: ExpV, c: nat) -> (ExpV, nat)
    decreases esize(e), 0nat,
{
    match e {
        ExpV::Nil => (e, c),
        ExpV::Bool(_) => (e, c),
        ExpV::Integer(_) => (e, c),
        ExpV::Text(_) => (e, c),
        ExpV::Symbol(n) => if n == x {
            (v, c)
        } else {
            (e, c)
        },
        ExpV::Lambda(p, b) => {
            if p == x {
                (e, c)
            } else if free_in(v, p) {
                let f = fresh_name(c);
                let b1 = rename_s(*b, p, f);
                proof {
                    lemma_rename_size(*b, p, f);
                }
                let (b2, c2) = subst_s(b1, x, v, bump(c));
                (ExpV::Lambda(f, Box::new(b2)), c2)
            } else {
                let (b2, c2) = subst_s(*b, x, v, c);
                (ExpV::Lambda(p, Box::new(b2)), c2)
            }
        },
        ExpV::Apply(f, a) => {
            let (f2, c1) = subst_s(*f, x, v, c);
            let (a2, c2) = subst_s(*a, x, v, c1);
            (ExpV::Apply(Box::new(f2), Box::new(a2)), c2)
        },
        ExpV::List(items) => {
            let (items2, c2) = subst_elems_s(items, x, v, c);
            (ExpV::List(items2), c2)
        },
        ExpV::If(cond, t, els) => {
            let (c2, n1) = subst_s(*cond, x, v, c);
            let (t2, n2) = subst_s(*t, x, v, n1);
            let (e2, n3) = subst_s(*els, x, v, n2);
            (ExpV::If(Box::new(c2), Box::new(t2), Box::new(e2)), n3)
        },
        ExpV::Quote(_) => (e, c),
        ExpV::Let(n, ve, b) => {
            let (ve2, c1) = subst_s(*ve, x, v, c);
            if n == x {
                (ExpV::Let(n, Box::new(ve2), b), c1)
            } else if free_in(v, n) {
                let f = fresh_name(c1);
                let b1 = rename_s(*b, n, f);
                proof {
                    lemma_rename_size(*b, n, f);
                }
                let (b2, c2) = subst_s(b1, x, v, bump(c1));
                (ExpV::Let(f, Box::new(ve2), Box::new(b2)), c2)
            } else {
                let (b2, c2) = subst_s(*b, x, v, c1);
                (ExpV::Let(n, Box::new(ve2), Box::new(b2)), c2)
            }
        },
        ExpV::Case(scr, cls) => {
            let (s2, c1) = subst_s(*scr, x, v, c);
            let (cls2, c2) = subst_clauses_s(cls, x, v, c1);
            (ExpV::Case(Box::new(s2), cls2), c2)
        },
        ExpV::BuildIn(f, args) => {
            let (args2, c2) = subst_elems_s(args, x, v, c);
            (ExpV::BuildIn(f, args2), c2)
        },
    }
}

/// Substitution over each element in order, threading the counter.
pub open spec fn subst_elems_s(s: Seq<ExpV>, x: Seq<char>, v: ExpV, c: nat) -> (Seq<ExpV>, nat)
    decreases esize_elems(s), 1nat,
{
    if s.len() == 0 {
        (s, c)
    } else {
        proof {
            crate::eval::lemma_esize_pos(s[0]);
        }
        let (h, c1) = subst_s(s[0], x, v, c);
        let (rest, c2) = subst_elems_s(s.drop_first(), x, v, c1);
        (seq![h] + rest, c2)
    }
}

/// Substitution over each clause pair in order, threading the counter.
pub open spec fn subst_clauses_s(cls: Seq<(ExpV, ExpV)>, x: Seq<char>, v: ExpV, c: nat) -> (
    Seq<(ExpV, ExpV)>,
    nat,
)
    decreases esize_clauses(cls), 1nat,
{
    if cls.len() == 0 {
        (cls, c)
    } else {
        proof {
            crate::eval::lemma_esize_pos(cls[0].0);
            crate::eval::lemma_esize_pos(cls[0].1);
        }
        let (p2, c1) = subst_s(cls[0].0, x, v, c);
        let (r2, c2) = subst_s(cls[0].1, x, v, c1);
        let (rest, c3) = subst_clauses_s(cls.drop_first(), x, v, c2);
        (seq![(p2, r2)] + rest, c3)
    }
}

/// Every expression has at least one node.
pub proof fn lemma_esize_pos(e: ExpV)
    ensures
        esize(e) >= 1,
{
    match e {
        ExpV::Nil => {},
        ExpV::Bool(_) => {},
        ExpV::Integer(_) => {},
        ExpV::Text(_) => {},
        ExpV::Symbol(_) => {},
        ExpV::Lambda(_, _) => {},
        ExpV::Apply(_, _) => {},
        ExpV::List(_) => {},
        ExpV::If(_, _, _) => {},
        ExpV::Quote(_) => {},
        ExpV::Let(_, _, _) => {},
        ExpV::Case(_, _) => {},
        ExpV::BuildIn(_, _) => {},
    }
}

/// Capture-avoiding substitution of `v` for the free occurrences of `x`.
pub fn substitute(e: &Exp, x: &Vec<char>, v: &Exp, gen: &mut VariableGenerator) -> (r: Exp)
    ensures
        r@ == subst_s(e@, x@, v@, old(gen)@).0,
        final(gen)@ == subst_s(e@, x@, v@, old(gen)@).1,
    decreases esize(e@), 0nat,
{
    match e {
        Exp::Nil => Exp::Nil,
        Exp::Bool(b) => Exp::Bool(*b),
        Exp::Integer(i) => Exp::Integer(*i),
        Exp::Text(s) => Exp::Text(clone_chars(s)),
        Exp::Symbol(n) => if chars_eq(n, x) {
            clone_exp(v)
        } else {
            Exp::Symbol(clone_chars(n))
        },
        Exp::Lambda(p, b) => {
            if chars_eq(p, x) {
                clone_exp(e)
            } else if occurs_free(v, p) {
                let f = gen.next();
                let b1 = rename(b, p, &f);
                proof {
                    lemma_rename_size(expv(**b), p@, f@);
                }
                let b2 = substitute(&b1, x, v, gen);
                Exp::Lambda(f, Box::new(b2))
            } else {
                let b2 = substitute(b, x, v, gen);
                Exp::Lambda(clone_chars(p), Box::new(b2))
            }
        },
        Exp::Apply(f, a) => {
            let f2 = substitute(f, x, v, gen);
            let a2 = substitute(a, x, v, gen);
            Exp::Apply(Box::new(f2), Box::new(a2))
        },
        Exp::List(items) => {
            proof {
                lemma_view_elems(items@);
                assert(view_elems(items@).skip(0) =~= view_elems(items@));
            }
            let items2 = subst_vec(items, 0, x, v, gen);
            Exp::List(items2)
        },
        Exp::If(c, t, els) => {
            let c2 = substitute(c, x, v, gen);
            let t2 = substitute(t, x, v, gen);
            let e2 = substitute(els, x, v, gen);
            Exp::If(Box::new(c2), Box::new(t2), Box::new(e2))
        },
        Exp::Quote(i) => Exp::Quote(Box::new(clone_exp(i))),
        Exp::Let(n, ve, b) => {
            let ve2 = substitute(ve, x, v, gen);
            if chars_eq(n, x) {
                Exp::Let(clone_chars(n), Box::new(ve2), Box::new(clone_exp(b)))
            } else if occurs_free(v, n) {
                let f = gen.next();
                let b1 = rename(b, n, &f);
                proof {
                    lemma_rename_size(expv(**b), n@, f@);
                }
                let b2 = substitute(&b1, x, v, gen);
                Exp::Let(f, Box::new(ve2), Box::new(b2))
            } else {
                let b2 = substitute(b, x, v, gen);
                Exp::Let(clone_chars(n), Box::new(ve2), Box::new(b2))
            }
        },
        Exp::Case(scr, cls) => {
            let s2 = substitute(scr, x, v, gen);
            proof {
                lemma_view_clauses(cls@);
                assert(view_clauses(cls@).skip(0) =~= view_clauses(cls@));
            }
            let cls2 = subst_vec_clauses(cls, 0, x, v, gen);
            Exp::Case(Box::new(s2), cls2)
        },
        Exp::BuildIn(f, args) => {
            proof {
                lemma_view_elems(args@);
                assert(view_elems(args@).skip(0) =~= view_elems(args@));
            }
            let args2 = subst_vec(args, 0, x, v, gen);
            Exp::BuildIn(*f, args2)
        },
    }
}

/// Substitution over the elements of a vector from `from` on, in order.
pub fn subst_vec(items: &Vec<Exp>, from: usize, x: &Vec<char>, v: &Exp, gen: &mut VariableGenerator) -> (r: Vec<Exp>)
    requires
        from <= items@.len(),
    ensures
        view_elems(r@) == subst_elems_s(view_elems(items@).skip(from as int), x@, v@, old(gen)@).0,
        final(gen)@ == subst_elems_s(view_elems(items@).skip(from as int), x@, v@, old(gen)@).1,
    decreases esize_elems(view_elems(items@).skip(from as int)), 1nat,
{
    proof {
        lemma_view_elems(items@);
    }
    if from == items.len() {
        let out: Vec<Exp> = Vec::new();
        proof {
            assert(view_elems(items@).skip(from as int) =~= Seq::<ExpV>::empty());
            assert(view_elems(out@) =~= Seq::<ExpV>::empty());
        }
        return out;
    }
    proof {
        assert(decreases_to!(items@ => items@[from as int]));
        assert(view_elems(items@).skip(from as int)[0] == expv(items@[from as int]));
        assert(view_elems(items@).skip(from as int).drop_first() =~= view_elems(items@).skip(
            from as int + 1,
        ));
        lemma_esize_pos(expv(items@[from as int]));
    }
    let h = substitute(&items[from], x, v, gen);
    let mut rest = subst_vec(items, from + 1, x, v, gen);
    let ghost rest_snap = rest@;
    let mut out: Vec<Exp> = Vec::new();
    out.push(h);
    out.append(&mut rest);
    proof {
        lemma_view_elems(out@);
        lemma_view_elems(rest_snap);
        let (full, cr) = subst_elems_s(view_elems(items@).skip(from as int), x@, v@, old(gen)@);
        assert forall|i: int| 0 <= i < out@.len() implies view_elems(out@)[i] == full[i] by {
            if i > 0 {
                assert(out@[i] == rest_snap[i - 1]);
            }
        }
        assert(view_elems(out@) =~= full);
    }
    out
}

/// Substitution over the clauses of a vector from `from` on, in order.
pub fn subst_vec_clauses(
    cls: &Vec<(Exp, Exp)>,
    from: usize,
    x: &Vec<char>,
    v: &Exp,
    gen: &mut VariableGenerator,
) -> (r: Vec<(Exp, Exp)>)
    requires
        from <= cls@.len(),
    ensures
        view_clauses(r@) == subst_clauses_s(
            view_clauses(cls@).skip(from as int),
            x@,
            v@,
            old(gen)@,
        ).0,
        final(gen)@ == subst_clauses_s(view_clauses(cls@).skip(from as int), x@, v@, old(gen)@).1,
    decreases esize_clauses(view_clauses(cls@).skip(from as int)), 1nat,
{
    proof {
        lemma_view_clauses(cls@);
    }
    if from == cls.len() {
        let out: Vec<(Exp, Exp)> = Vec::new();
        proof {
            assert(view_clauses(cls@).skip(from as int) =~= Seq::<(ExpV, ExpV)>::empty());
            assert(view_clauses(out@) =~= Seq::<(ExpV, ExpV)>::empty());
        }
        return out;
    }
    proof {
        assert(decreases_to!(cls@ => cls@[from as int]));
        assert(decreases_to!(cls@[from as int] => cls@[from as int].0));
        assert(view_clauses(cls@).skip(from as int)[0] == (expv(cls@[from as int].0), expv(
            cls@[from as int].1,
        )));
        assert(view_clauses(cls@).skip(from as int).drop_first() =~= view_clauses(cls@).skip(
            from as int + 1,
        ));
        lemma_esize_pos(expv(cls@[from as int].0));
        lemma_esize_pos(expv(cls@[from as int].1));
    }
    let p2 = substitute(&cls[from].0, x, v, gen);
    let r2 = substitute(&cls[from].1, x, v, gen);
    let mut rest = subst_vec_clauses(cls, from + 1, x, v, gen);
    let ghost rest_snap = rest@;
    let mut out: Vec<(Exp, Exp)> = Vec::new();
    out.push((p2, r2));
    out.append(&mut rest);
    proof {
        lemma_view_clauses(out@);
        lemma_view_clauses(rest_snap);
        let (full, cr) = subst_clauses_s(view_clauses(cls@).skip(from as int), x@, v@, old(gen)@);
        assert forall|i: int| 0 <= i < out@.len() implies view_clauses(out@)[i] == full[i] by {
            if i > 0 {
                assert(out@[i] == rest_snap[i - 1]);
            }
        }
        assert(view_clauses(out@) =~= full);
    }
    out
}


/// The lookup of `n` among the definitions, later insertions taking
/// precedence, as for a map that is overwritten on insert.
pub open spec fn lookup_s(d: Seq<(Seq<char>, ExpV)>, n: Seq<char>) -> Option<ExpV>
    decreases d.len(),
{
    if d.len() == 0 {
        None
    } else if d.last().0 == n {
        Some(d.last().1)
    } else {
        lookup_s(d.drop_last(), n)
    }
}

/// The definition table: a name, plus a mapping from identifier to
/// expression. It is built once and read-only during evaluation; the
/// evaluator consults it only for top-level names.
pub struct Module {
    /// The module's name.
    pub name: Vec<char>,
    /// The definitions, in insertion order; lookup prefers the latest.
    pub defines: Vec<(Vec<char>, Exp)>,
}

impl View for Module {
    type V = Seq<(Seq<char>, ExpV)>;

    open spec fn view(&self) -> Seq<(Seq<char>, ExpV)> {
        self.defines@.map_values(|p: (Vec<char>, Exp)| (p.0@, expv(p.1)))
    }
}

impl Module {
    /// An empty definition table with the given name.
    pub fn new(name: &str) -> (r: Module)
        ensures
            r@ == Seq::<(Seq<char>, ExpV)>::empty(),
    {
        let r = Module { name: crate::ast::str_to_chars(name), defines: Vec::new() };
        proof {
            assert(r@ =~= Seq::<(Seq<char>, ExpV)>::empty());
        }
        r
    }

    /// Binds `name` to `value`; a later binding shadows an earlier one.
    pub fn insert(&mut self, name: &str, value: Exp)
        ensures
            final(self)@ == old(self)@.push((name@, value@)),
    {
        let key = crate::ast::str_to_chars(name);
        let ghost valuev = value@;
        self.defines.push((key, value));
        proof {
            assert(self@ =~= old(self)@.push((name@, valuev)));
        }
    }

    /// Looks `n` up among the definitions, returning a copy of the latest
    /// binding.
    pub fn lookup(&self, n: &Vec<char>) -> (r: Option<Exp>)
        ensures
            match r {
                Some(v) => lookup_s(self@, n@) == Some(v@),
                None => lookup_s(self@, n@) is None,
            },
    {
        let mut i: usize = self.defines.len();
        proof {
            assert(self@.take(self.defines@.len() as int) =~= self@);
        }
        while i > 0
            invariant
                i <= self.defines@.len(),
                self@.len() == self.defines@.len(),
                forall|j: int| 0 <= j < self.defines@.len() ==> self@[j] == (
                    (#[trigger] self.defines@[j]).0@,
                    expv(self.defines@[j].1),
                ),
                lookup_s(self@, n@) == lookup_s(self@.take(i as int), n@),
            decreases i,
        {
            i = i - 1;
            if chars_eq(&self.defines[i].0, n) {
                proof {
                    assert(self@.take(i as int + 1).last() == self@[i as int]);
                }
                return Some(clone_exp(&self.defines[i].1));
            }
            proof {
                assert(self@.take(i as int + 1).last() == self@[i as int]);
                assert(self@.take(i as int + 1).drop_last() =~= self@.take(i as int));
            }
        }
        proof {
            assert(self@.take(0) =~= Seq::<(Seq<char>, ExpV)>::empty());
        }
        None
    }
}


/// One evaluation step budget: the engine is not tail-call-safe, so nesting
/// is bounded; exhausting the budget fails with `DepthLimit`.
pub const DEFAULT_FUEL: u64 = 10000;

/// The reduction of `e` against the definitions `d`, at name counter `c`,
/// within the nesting budget `fuel`: eager, call-by-value, propagating the
/// first error in evaluation order. Returns the outcome and the counter
/// after any hygienic renaming.
pub open spec fn eval_s(e: ExpV, d: Seq<(Seq<char>, ExpV)>, c: nat, fuel: nat) -> (
    Result<ExpV, ErrV>,
    nat,
)
    decreases fuel, 3nat, 0nat,
{
    if fuel == 0 {
        (Err(ErrV::DepthLimit), c)
    } else {
        let fl = (fuel - 1) as nat;
        match e {
            ExpV::Nil => (Ok(e), c),
            ExpV::Bool(_) => (Ok(e), c),
            ExpV::Integer(_) => (Ok(e), c),
            ExpV::Text(_) => (Ok(e), c),
            ExpV::Lambda(_, _) => (Ok(e), c),
            ExpV::BuildIn(_, _) => (Ok(e), c),
            ExpV::Symbol(n) => match lookup_s(d, n) {
                Some(v) => (Ok(v), c),
                None => (Err(ErrV::UnboundName(n)), c),
            },
            ExpV::Apply(f, a) => {
                let (rf, c1) = eval_s(*f, d, c, fl);
                match rf {
                    Err(er) => (Err(er), c1),
                    Ok(fv) => {
                        let (ra, c2) = eval_s(*a, d, c1, fl);
                        match ra {
                            Err(er) => (Err(er), c2),
                            Ok(av) => apply_one_s(fv, av, d, c2, fuel),
                        }
                    },
                }
            },
            ExpV::List(items) => {
                if items.len() == 0 {
                    (Ok(ExpV::List(items)), c)
                } else {
                    let (rh, c1) = eval_s(items[0], d, c, fl);
                    match rh {
                        Err(er) => (Err(er), c1),
                        Ok(hv) => match hv {
                            ExpV::BuildIn(f, partial) => {
                                let (re, c2) = eval_elems_s(items.drop_first(), d, c1, fuel);
                                match re {
                                    Err(er) => (Err(er), c2),
                                    Ok(vs) => (crate::buildin::native_apply_s(f, partial + vs), c2),
                                }
                            },
                            ExpV::Lambda(_, _) => apply_chain_s(hv, items.drop_first(), d, c1, fuel),
                            _ => {
                                let (re, c2) = eval_elems_s(items.drop_first(), d, c1, fuel);
                                match re {
                                    Err(er) => (Err(er), c2),
                                    Ok(vs) => (Ok(ExpV::List(seq![hv] + vs)), c2),
                                }
                            },
                        },
                    }
                }
            },
            ExpV::If(cond, t, els) => {
                let (rc, c1) = eval_s(*cond, d, c, fl);
                match rc {
                    Err(er) => (Err(er), c1),
                    Ok(cv) => match cv {
                        ExpV::Bool(b) => if b {
                            eval_s(*t, d, c1, fl)
                        } else {
                            eval_s(*els, d, c1, fl)
                        },
                        _ => (Err(ErrV::TypeMismatch(cv)), c1),
                    },
                }
            },
            ExpV::Quote(i) => (Ok(*i), c),
            ExpV::Let(n, ve, b) => {
                let (rv, c1) = eval_s(*ve, d, c, fl);
                match rv {
                    Err(er) => (Err(er), c1),
                    Ok(v) => {
                        let (b2, c2) = subst_s(*b, n, v, c1);
                        eval_s(b2, d, c2, fl)
                    },
                }
            },
            ExpV::Case(scr, cls) => {
                let (rs, c1) = eval_s(*scr, d, c, fl);
                match rs {
                    Err(er) => (Err(er), c1),
                    Ok(v) => match_clauses_s(v, cls, d, c1, fuel),
                }
            },
        }
    }
}

/// The application of the already-evaluated `fv` to the already-evaluated
/// `av`: beta reduction through capture-avoiding substitution for a lambda,
/// argument accumulation and invocation at arity for a native.
pub open spec fn apply_one_s(fv: ExpV, av: ExpV, d: Seq<(Seq<char>, ExpV)>, c: nat, fuel: nat) -> (
    Result<ExpV, ErrV>,
    nat,
)
    decreases fuel, 1nat, 0nat,
{
    if fuel == 0 {
        (Err(ErrV::DepthLimit), c)
    } else {
        match fv {
            ExpV::Lambda(p, body) => {
                let (b2, c2) = subst_s(*body, p, av, c);
                eval_s(b2, d, c2, (fuel - 1) as nat)
            },
            ExpV::BuildIn(f, partial) => {
                let partial2 = partial.push(av);
                match crate::buildin::arity_s(f) {
                    Some(k) => if partial2.len() >= k {
                        (crate::buildin::native_apply_s(f, partial2), c)
                    } else {
                        (Ok(ExpV::BuildIn(f, partial2)), c)
                    },
                    None => (Ok(ExpV::BuildIn(f, partial2)), c),
                }
            },
            _ => (Err(ErrV::NotApplicable(fv)), c),
        }
    }
}

/// The left-to-right application of `fv` to each evaluated argument in turn.
pub open spec fn apply_chain_s(
    fv: ExpV,
    args: Seq<ExpV>,
    d: Seq<(Seq<char>, ExpV)>,
    c: nat,
    fuel: nat,
) -> (Result<ExpV, ErrV>, nat)
    decreases fuel, 2nat, args.len(),
{
    if args.len() == 0 {
        (Ok(fv), c)
    } else if fuel == 0 {
        (Err(ErrV::DepthLimit), c)
    } else {
        let (ra, c1) = eval_s(args[0], d, c, (fuel - 1) as nat);
        match ra {
            Err(er) => (Err(er), c1),
            Ok(av) => {
                let (rf, c2) = apply_one_s(fv, av, d, c1, fuel);
                match rf {
                    Err(er) => (Err(er), c2),
                    Ok(nf) => apply_chain_s(nf, args.drop_first(), d, c2, fuel),
                }
            },
        }
    }
}

/// The left-to-right evaluation of each element.
pub open spec fn eval_elems_s(args: Seq<ExpV>, d: Seq<(Seq<char>, ExpV)>, c: nat, fuel: nat) -> (
    Result<Seq<ExpV>, ErrV>,
    nat,
)
    decreases fuel, 2nat, args.len(),
{
    if args.len() == 0 {
        (Ok(Seq::empty()), c)
    } else if fuel == 0 {
        (Err(ErrV::DepthLimit), c)
    } else {
        let (rh, c1) = eval_s(args[0], d, c, (fuel - 1) as nat);
        match rh {
            Err(er) => (Err(er), c1),
            Ok(hv) => {
                let (rr, c2) = eval_elems_s(args.drop_first(), d, c1, fuel);
                match rr {
                    Err(er) => (Err(er), c2),
                    Ok(vs) => (Ok(seq![hv] + vs), c2),
                }
            },
        }
    }
}

/// The first-match scan of the clauses: a clause matches when its pattern,
/// evaluated as a literal, is structurally equal to the scrutinee value.
pub open spec fn match_clauses_s(
    v: ExpV,
    cls: Seq<(ExpV, ExpV)>,
    d: Seq<(Seq<char>, ExpV)>,
    c: nat,
    fuel: nat,
) -> (Result<ExpV, ErrV>, nat)
    decreases fuel, 2nat, cls.len(),
{
    if cls.len() == 0 {
        (Err(ErrV::NonExhaustiveMatch(v)), c)
    } else if fuel == 0 {
        (Err(ErrV::DepthLimit), c)
    } else {
        let (rp, c1) = eval_s(cls[0].0, d, c, (fuel - 1) as nat);
        match rp {
            Err(er) => (Err(er), c1),
            Ok(pv) => if pv == v {
                eval_s(cls[0].1, d, c1, (fuel - 1) as nat)
            } else {
                match_clauses_s(v, cls.drop_first(), d, c1, fuel)
            },
        }
    }
}


/// The view of an evaluated element list.
pub open spec fn elems_res_view(r: Result<Vec<Exp>, EvalError>) -> Result<Seq<ExpV>, ErrV> {
    match r {
        Ok(vs) => Ok(view_elems(vs@)),
        Err(e) => Err(err_view(e)),
    }
}

/// The elementwise view distributes over concatenation.
pub proof fn lemma_view_elems_concat(a: Seq<Exp>, b: Seq<Exp>)
    ensures
        view_elems(a + b) == view_elems(a) + view_elems(b),
{
    lemma_view_elems(a);
    lemma_view_elems(b);
    lemma_view_elems(a + b);
    assert(view_elems(a + b) =~= view_elems(a) + view_elems(b));
}

/// Reduces `e` against the definitions of `module`, eagerly and by value,
/// within the nesting budget `fuel`. The outcome and the generator's final
/// counter are exactly those of the mathematical reduction `eval_s`; in
/// particular the outcome is a function of the inputs alone.
pub fn eval(e: &Exp, module: &Module, gen: &mut VariableGenerator, fuel: u64) -> (r: Result<
    Exp,
    EvalError,
>)
    ensures
        res_view(r) == eval_s(e@, module@, old(gen)@, fuel as nat).0,
        final(gen)@ == eval_s(e@, module@, old(gen)@, fuel as nat).1,
    decreases fuel, 3nat, 0nat,
{
    if fuel == 0 {
        return Err(EvalError::DepthLimit);
    }
    match e {
        Exp::Nil => Ok(Exp::Nil),
        Exp::Bool(b) => Ok(Exp::Bool(*b)),
        Exp::Integer(i) => Ok(Exp::Integer(*i)),
        Exp::Text(s) => Ok(Exp::Text(clone_chars(s))),
        Exp::Lambda(_, _) => Ok(clone_exp(e)),
        Exp::BuildIn(_, _) => Ok(clone_exp(e)),
        Exp::Symbol(n) => match module.lookup(n) {
            Some(v) => Ok(v),
            None => Err(EvalError::UnboundName(clone_chars(n))),
        },
        Exp::Apply(f, a) => {
            let fv = match eval(f, module, gen, fuel - 1) {
                Ok(v) => v,
                Err(er) => {
                    return Err(er);
                },
            };
            let av = match eval(a, module, gen, fuel - 1) {
                Ok(v) => v,
                Err(er) => {
                    return Err(er);
                },
            };
            eval_apply_one(fv, av, module, gen, fuel)
        },
        Exp::List(items) => {
            proof {
                lemma_view_elems(items@);
            }
            if items.len() == 0 {
                let out: Vec<Exp> = Vec::new();
                proof {
                    assert(view_elems(out@) =~= view_elems(items@));
                }
                return Ok(Exp::List(out));
            }
            let hv = match eval(&items[0], module, gen, fuel - 1) {
                Ok(v) => v,
                Err(er) => {
                    return Err(er);
                },
            };
            proof {
                assert(view_elems(items@).skip(1) =~= view_elems(items@).drop_first());
            }
            match hv {
                Exp::BuildIn(f, partial) => {
                    let mut vs = match eval_elems(items, 1, module, gen, fuel) {
                        Ok(vs) => vs,
                        Err(er) => {
                            return Err(er);
                        },
                    };
                    let ghost partial_snap = partial@;
                    let ghost vs_snap = vs@;
                    let mut all = partial;
                    all.append(&mut vs);
                    proof {
                        assert(all@ == partial_snap + vs_snap);
                        lemma_view_elems_concat(partial_snap, vs_snap);
                    }
                    crate::buildin::native_apply(f, all)
                },
                Exp::Lambda(_, _) => eval_apply_chain(hv, items, 1, module, gen, fuel),
                _ => {
                    let mut vs = match eval_elems(items, 1, module, gen, fuel) {
                        Ok(vs) => vs,
                        Err(er) => {
                            return Err(er);
                        },
                    };
                    let ghost hv_snap = hv@;
                    let ghost vs_snap = vs@;
                    let mut out: Vec<Exp> = Vec::new();
                    out.push(hv);
                    out.append(&mut vs);
                    proof {
                        lemma_view_elems(out@);
                        lemma_view_elems(vs_snap);
                        assert forall|i: int| 0 <= i < out@.len() implies view_elems(out@)[i]
                            == (seq![hv_snap] + view_elems(vs_snap))[i] by {
                            if i > 0 {
                                assert(out@[i] == vs_snap[i - 1]);
                            }
                        }
                        assert(view_elems(out@) =~= seq![hv_snap] + view_elems(vs_snap));
                    }
                    Ok(Exp::List(out))
                },
            }
        },
        Exp::If(cond, t, els) => {
            let cv = match eval(cond, module, gen, fuel - 1) {
                Ok(v) => v,
                Err(er) => {
                    return Err(er);
                },
            };
            match cv {
                Exp::Bool(b) => if b {
                    eval(t, module, gen, fuel - 1)
                } else {
                    eval(els, module, gen, fuel - 1)
                },
                _ => Err(EvalError::TypeMismatch(Box::new(cv))),
            }
        },
        Exp::Quote(i) => Ok(clone_exp(i)),
        Exp::Let(n, ve, b) => {
            let v = match eval(ve, module, gen, fuel - 1) {
                Ok(v) => v,
                Err(er) => {
                    return Err(er);
                },
            };
            let b2 = substitute(b, n, &v, gen);
            eval(&b2, module, gen, fuel - 1)
        },
        Exp::Case(scr, cls) => {
            let v = match eval(scr, module, gen, fuel - 1) {
                Ok(v) => v,
                Err(er) => {
                    return Err(er);
                },
            };
            proof {
                lemma_view_clauses(cls@);
                assert(view_clauses(cls@).skip(0) =~= view_clauses(cls@));
            }
            eval_match(&v, cls, 0, module, gen, fuel)
        },
    }
}

/// Applies the evaluated `fv` to the evaluated `av`.
pub fn eval_apply_one(
    fv: Exp,
    av: Exp,
    module: &Module,
    gen: &mut VariableGenerator,
    fuel: u64,
) -> (r: Result<Exp, EvalError>)
    ensures
        res_view(r) == apply_one_s(fv@, av@, module@, old(gen)@, fuel as nat).0,
        final(gen)@ == apply_one_s(fv@, av@, module@, old(gen)@, fuel as nat).1,
    decreases fuel, 1nat, 0nat,
{
    if fuel == 0 {
        return Err(EvalError::DepthLimit);
    }
    match fv {
        Exp::Lambda(p, body) => {
            let b2 = substitute(&body, &p, &av, gen);
            eval(&b2, module, gen, fuel - 1)
        },
        Exp::BuildIn(f, partial) => {
            let ghost partial_snap = partial@;
            let ghost av_snap = av@;
            let mut partial2 = partial;
            partial2.push(av);
            proof {
                lemma_view_elems(partial2@);
                lemma_view_elems(partial_snap);
                assert forall|i: int| 0 <= i < partial2@.len() implies view_elems(partial2@)[i]
                    == view_elems(partial_snap).push(av_snap)[i] by {
                    if i < partial_snap.len() {
                        assert(partial2@[i] == partial_snap[i]);
                    }
                }
                assert(view_elems(partial2@) =~= view_elems(partial_snap).push(av_snap));
            }
            match crate::buildin::arity(f) {
                Some(k) => if partial2.len() >= k {
                    crate::buildin::native_apply(f, partial2)
                } else {
                    Ok(Exp::BuildIn(f, partial2))
                },
                None => Ok(Exp::BuildIn(f, partial2)),
            }
        },
        _ => Err(EvalError::NotApplicable(Box::new(fv))),
    }
}

/// Applies `fv` to each of the elements of `items` from `from` on, each
/// evaluated first, left to right.
pub fn eval_apply_chain(
    fv: Exp,
    items: &Vec<Exp>,
    from: usize,
    module: &Module,
    gen: &mut VariableGenerator,
    fuel: u64,
) -> (r: Result<Exp, EvalError>)
    requires
        from <= items@.len(),
    ensures
        res_view(r) == apply_chain_s(
            fv@,
            view_elems(items@).skip(from as int),
            module@,
            old(gen)@,
            fuel as nat,
        ).0,
        final(gen)@ == apply_chain_s(
            fv@,
            view_elems(items@).skip(from as int),
            module@,
            old(gen)@,
            fuel as nat,
        ).1,
    decreases fuel, 2nat, items@.len() - from,
{
    proof {
        lemma_view_elems(items@);
    }
    if from == items.len() {
        proof {
            assert(view_elems(items@).skip(from as int) =~= Seq::<ExpV>::empty());
        }
        return Ok(fv);
    }
    if fuel == 0 {
        return Err(EvalError::DepthLimit);
    }
    proof {
        assert(view_elems(items@).skip(from as int)[0] == expv(items@[from as int]));
        assert(view_elems(items@).skip(from as int).drop_first() =~= view_elems(items@).skip(
            from as int + 1,
        ));
    }
    let av = match eval(&items[from], module, gen, fuel - 1) {
        Ok(v) => v,
        Err(er) => {
            return Err(er);
        },
    };
    let nf = match eval_apply_one(fv, av, module, gen, fuel) {
        Ok(v) => v,
        Err(er) => {
            return Err(er);
        },
    };
    eval_apply_chain(nf, items, from + 1, module, gen, fuel)
}

/// Evaluates the elements of `items` from `from` on, left to right.
pub fn eval_elems(
    items: &Vec<Exp>,
    from: usize,
    module: &Module,
    gen: &mut VariableGenerator,
    fuel: u64,
) -> (r: Result<Vec<Exp>, EvalError>)
    requires
        from <= items@.len(),
    ensures
        elems_res_view(r) == eval_elems_s(
            view_elems(items@).skip(from as int),
            module@,
            old(gen)@,
            fuel as nat,
        ).0,
        final(gen)@ == eval_elems_s(
            view_elems(items@).skip(from as int),
            module@,
            old(gen)@,
            fuel as nat,
        ).1,
    decreases fuel, 2nat, items@.len() - from,
{
    proof {
        lemma_view_elems(items@);
    }
    if from == items.len() {
        let out: Vec<Exp> = Vec::new();
        proof {
            assert(view_elems(items@).skip(from as int) =~= Seq::<ExpV>::empty());
            assert(view_elems(out@) =~= Seq::<ExpV>::empty());
        }
        return Ok(out);
    }
    if fuel == 0 {
        return Err(EvalError::DepthLimit);
    }
    proof {
        assert(view_elems(items@).skip(from as int)[0] == expv(items@[from as int]));
        assert(view_elems(items@).skip(from as int).drop_first() =~= view_elems(items@).skip(
            from as int + 1,
        ));
    }
    let hv = match eval(&items[from], module, gen, fuel - 1) {
        Ok(v) => v,
        Err(er) => {
            return Err(er);
        },
    };
    let mut rest = match eval_elems(items, from + 1, module, gen, fuel) {
        Ok(vs) => vs,
        Err(er) => {
            return Err(er);
        },
    };
    let ghost hv_snap = hv@;
    let ghost rest_snap = rest@;
    let mut out: Vec<Exp> = Vec::new();
    out.push(hv);
    out.append(&mut rest);
    proof {
        lemma_view_elems(out@);
        lemma_view_elems(rest_snap);
        assert forall|i: int| 0 <= i < out@.len() implies view_elems(out@)[i] == (seq![hv_snap]
            + view_elems(rest_snap))[i] by {
            if i > 0 {
                assert(out@[i] == rest_snap[i - 1]);
            }
        }
        assert(view_elems(out@) =~= seq![hv_snap] + view_elems(rest_snap));
    }
    Ok(out)
}

/// Scans the clauses from `from` on for the first whose evaluated pattern is
/// structurally equal to `v`, and evaluates that clause's result.
pub fn eval_match(
    v: &Exp,
    cls: &Vec<(Exp, Exp)>,
    from: usize,
    module: &Module,
    gen: &mut VariableGenerator,
    fuel: u64,
) -> (r: Result<Exp, EvalError>)
    requires
        from <= cls@.len(),
    ensures
        res_view(r) == match_clauses_s(
            v@,
            view_clauses(cls@).skip(from as int),
            module@,
            old(gen)@,
            fuel as nat,
        ).0,
        final(gen)@ == match_clauses_s(
            v@,
            view_clauses(cls@).skip(from as int),
            module@,
            old(gen)@,
            fuel as nat,
        ).1,
    decreases fuel, 2nat, cls@.len() - from,
{
    proof {
        lemma_view_clauses(cls@);
    }
    if from == cls.len() {
        proof {
            assert(view_clauses(cls@).skip(from as int) =~= Seq::<(ExpV, ExpV)>::empty());
        }
        return Err(EvalError::NonExhaustiveMatch(Box::new(clone_exp(v))));
    }
    if fuel == 0 {
        return Err(EvalError::DepthLimit);
    }
    proof {
        assert(view_clauses(cls@).skip(from as int)[0] == (expv(cls@[from as int].0), expv(
            cls@[from as int].1,
        )));
        assert(view_clauses(cls@).skip(from as int).drop_first() =~= view_clauses(cls@).skip(
            from as int + 1,
        ));
    }
    let pv = match eval(&cls[from].0, module, gen, fuel - 1) {
        Ok(p) => p,
        Err(er) => {
            return Err(er);
        },
    };
    if crate::ast::exp_eq(&pv, v) {
        eval(&cls[from].1, module, gen, fuel - 1)
    } else {
        eval_match(v, cls, from + 1, module, gen, fuel)
    }
}

/// Reduces `e` against `module` with a fresh name generator and the default
/// nesting budget.
pub fn evaluate(e: &Exp, module: &Module) -> (r: Result<Exp, EvalError>)
    ensures
        res_view(r) == eval_s(e@, module@, 0, DEFAULT_FUEL as nat).0,
{
    let mut gen = VariableGenerator::new();
    eval(e, module, &mut gen, DEFAULT_FUEL)
}

/// Reduces `e` against the default definition table.
pub fn eval_default_module(e: Exp) -> (r: Result<Exp, EvalError>)
    ensures
        res_view(r) == eval_s(e@, crate::buildin::default_defs(), 0, DEFAULT_FUEL as nat).0,
{
    let module = crate::buildin::default_module();
    let mut gen = VariableGenerator::new();
    eval(&e, &module, &mut gen, DEFAULT_FUEL)
}

} // verus!
