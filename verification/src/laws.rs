//! Laws of the evaluator, stated over the mathematical reduction `eval_s`
//! and proved once and for all.

use vstd::prelude::*;

use crate::ast::{esize, esize_clauses, esize_elems, free_in, ExpV, NativeFn};
use crate::buildin::{arity_s, native_apply_s};
use crate::eval::{
    apply_one_s, eval_s, subst_clauses_s, subst_elems_s, subst_s, ErrV, lemma_esize_pos,
};

verus! {

/// Determinism: the outcome of a reduction, and the final name counter, are
/// functions of the expression, the definitions, the initial counter and the
/// nesting budget alone — two runs on the same inputs agree.
pub proof fn lemma_eval_deterministic(
    e1: ExpV,
    d1: Seq<(Seq<char>, ExpV)>,
    c1: nat,
    fuel1: nat,
    e2: ExpV,
    d2: Seq<(Seq<char>, ExpV)>,
    c2: nat,
    fuel2: nat,
)
    requires
        e1 == e2,
        d1 == d2,
        c1 == c2,
        fuel1 == fuel2,
    ensures
        eval_s(e1, d1, c1, fuel1) == eval_s(e2, d2, c2, fuel2),
{
}

/// Short-circuit: when the condition reduces to `false`, the conditional
/// reduces exactly as its else-branch does, whatever the then-branch is —
/// the then-branch is never evaluated, so its effects never occur.
pub proof fn lemma_conditional_short_circuit(
    cnd: ExpV,
    t1: ExpV,
    t2: ExpV,
    els: ExpV,
    d: Seq<(Seq<char>, ExpV)>,
    c: nat,
    fuel: nat,
)
    requires
        fuel > 0,
        eval_s(cnd, d, c, (fuel - 1) as nat).0 == Ok::<ExpV, ErrV>(ExpV::Bool(false)),
    ensures
        eval_s(ExpV::If(Box::new(cnd), Box::new(t1), Box::new(els)), d, c, fuel) == eval_s(
            ExpV::If(Box::new(cnd), Box::new(t2), Box::new(els)),
            d,
            c,
            fuel,
        ),
        eval_s(ExpV::If(Box::new(cnd), Box::new(t1), Box::new(els)), d, c, fuel) == eval_s(
            els,
            d,
            eval_s(cnd, d, c, (fuel - 1) as nat).1,
            (fuel - 1) as nat,
        ),
{
}

/// The mirror of the short-circuit law: when the condition reduces to
/// `true`, the conditional reduces exactly as its then-branch does, whatever
/// the else-branch is.
pub proof fn lemma_conditional_takes_then(
    cnd: ExpV,
    t: ExpV,
    e1: ExpV,
    e2: ExpV,
    d: Seq<(Seq<char>, ExpV)>,
    c: nat,
    fuel: nat,
)
    requires
        fuel > 0,
        eval_s(cnd, d, c, (fuel - 1) as nat).0 == Ok::<ExpV, ErrV>(ExpV::Bool(true)),
    ensures
        eval_s(ExpV::If(Box::new(cnd), Box::new(t), Box::new(e1)), d, c, fuel) == eval_s(
            ExpV::If(Box::new(cnd), Box::new(t), Box::new(e2)),
            d,
            c,
            fuel,
        ),
        eval_s(ExpV::If(Box::new(cnd), Box::new(t), Box::new(e1)), d, c, fuel) == eval_s(
            t,
            d,
            eval_s(cnd, d, c, (fuel - 1) as nat).1,
            (fuel - 1) as nat,
        ),
{
}

/// Quotation: a quotation reduces to its inner expression exactly as
/// written, unevaluated, and draws no fresh name; in particular no
/// application inside it is performed.
pub proof fn lemma_quotation(i: ExpV, d: Seq<(Seq<char>, ExpV)>, c: nat, fuel: nat)
    requires
        fuel > 0,
    ensures
        eval_s(ExpV::Quote(Box::new(i)), d, c, fuel) == (Ok::<ExpV, ErrV>(i), c),
{
}

/// A value with no free names at all; ground data such as integers, strings
/// and lists of them are closed.
pub open spec fn closed(v: ExpV) -> bool {
    forall|x: Seq<char>| !(#[trigger] free_in(v, x))
}

/// Hygienic renaming is semantically transparent at the substitution step:
/// substituting a closed value never renames a binder, so the substituted
/// expression is independent of the fresh-name counter, and the counter is
/// left untouched. Which names the generator would have produced cannot
/// affect the result.
pub proof fn lemma_subst_closed_counter_independent(
    e: ExpV,
    x: Seq<char>,
    v: ExpV,
    c1: nat,
    c2: nat,
)
    requires
        closed(v),
    ensures
        subst_s(e, x, v, c1).0 == subst_s(e, x, v, c2).0,
        subst_s(e, x, v, c1).1 == c1,
        subst_s(e, x, v, c2).1 == c2,
    decreases esize(e), 0nat,
{
    match e {
        ExpV::Lambda(p, b) => {
            if p != x {
                assert(!free_in(v, p));
                lemma_subst_closed_counter_independent(*b, x, v, c1, c2);
            }
        },
        ExpV::Apply(f, a) => {
            lemma_subst_closed_counter_independent(*f, x, v, c1, c2);
            lemma_subst_closed_counter_independent(*a, x, v, c1, c2);
        },
        ExpV::List(items) => {
            lemma_subst_elems_closed_counter_independent(items, x, v, c1, c2);
        },
        ExpV::If(cnd, t, els) => {
            lemma_subst_closed_counter_independent(*cnd, x, v, c1, c2);
            lemma_subst_closed_counter_independent(*t, x, v, c1, c2);
            lemma_subst_closed_counter_independent(*els, x, v, c1, c2);
        },
        ExpV::Let(n, ve, b) => {
            lemma_subst_closed_counter_independent(*ve, x, v, c1, c2);
            if n != x {
                assert(!free_in(v, n));
                lemma_subst_closed_counter_independent(*b, x, v, c1, c2);
            }
        },
        ExpV::Case(scr, cls) => {
            lemma_subst_closed_counter_independent(*scr, x, v, c1, c2);
            lemma_subst_clauses_closed_counter_independent(cls, x, v, c1, c2);
        },
        ExpV::BuildIn(_, args) => {
            lemma_subst_elems_closed_counter_independent(args, x, v, c1, c2);
        },
        _ => {},
    }
}

/// The elementwise form of `lemma_subst_closed_counter_independent`.
pub proof fn lemma_subst_elems_closed_counter_independent(
    s: Seq<ExpV>,
    x: Seq<char>,
    v: ExpV,
    c1: nat,
    c2: nat,
)
    requires
        closed(v),
    ensures
        subst_elems_s(s, x, v, c1).0 == subst_elems_s(s, x, v, c2).0,
        subst_elems_s(s, x, v, c1).1 == c1,
        subst_elems_s(s, x, v, c2).1 == c2,
    decreases esize_elems(s), 1nat,
{
    if s.len() > 0 {
        lemma_esize_pos(s[0]);
        lemma_subst_closed_counter_independent(s[0], x, v, c1, c2);
        lemma_subst_elems_closed_counter_independent(s.drop_first(), x, v, c1, c2);
    }
}

/// The clausewise form of `lemma_subst_closed_counter_independent`.
pub proof fn lemma_subst_clauses_closed_counter_independent(
    cls: Seq<(ExpV, ExpV)>,
    x: Seq<char>,
    v: ExpV,
    c1: nat,
    c2: nat,
)
    requires
        closed(v),
    ensures
        subst_clauses_s(cls, x, v, c1).0 == subst_clauses_s(cls, x, v, c2).0,
        subst_clauses_s(cls, x, v, c1).1 == c1,
        subst_clauses_s(cls, x, v, c2).1 == c2,
    decreases esize_clauses(cls), 1nat,
{
    if cls.len() > 0 {
        lemma_esize_pos(cls[0].0);
        lemma_esize_pos(cls[0].1);
        lemma_subst_closed_counter_independent(cls[0].0, x, v, c1, c2);
        lemma_subst_closed_counter_independent(cls[0].1, x, v, c1, c2);
        lemma_subst_clauses_closed_counter_independent(cls.drop_first(), x, v, c1, c2);
    }
}


/// A binding is not a special form of its own: `Let` reduces exactly as the
/// immediate application of the one-parameter abstraction to the bound
/// value. The budget must allow the abstraction itself one reduction step.
pub proof fn lemma_let_is_application(
    n: Seq<char>,
    ve: ExpV,
    b: ExpV,
    d: Seq<(Seq<char>, ExpV)>,
    c: nat,
    fuel: nat,
)
    requires
        fuel >= 2,
    ensures
        eval_s(ExpV::Let(n, Box::new(ve), Box::new(b)), d, c, fuel) == eval_s(
            ExpV::Apply(Box::new(ExpV::Lambda(n, Box::new(b))), Box::new(ve)),
            d,
            c,
            fuel,
        ),
{
    let fl = (fuel - 1) as nat;
    let lam = ExpV::Lambda(n, Box::new(b));
    assert(eval_s(lam, d, c, fl) == (Ok::<ExpV, ErrV>(lam), c));
    let (rv, c1) = eval_s(ve, d, c, fl);
    match rv {
        Ok(v) => {
            assert(apply_one_s(lam, v, d, c1, fuel) == {
                let (b2, c2) = subst_s(b, n, v, c1);
                eval_s(b2, d, c2, fl)
            });
        },
        Err(_) => {},
    }
}


/// A pending native accumulates one evaluated argument at a time and is
/// invoked exactly when its fixed arity is reached; a variadic native only
/// accumulates under application. The accumulated list of a pending native
/// value produced this way therefore never exceeds the arity.
pub proof fn lemma_native_currying(
    f: NativeFn,
    partial: Seq<ExpV>,
    av: ExpV,
    d: Seq<(Seq<char>, ExpV)>,
    c: nat,
    fuel: nat,
)
    requires
        fuel > 0,
    ensures
        (match arity_s(f) {
            Some(k) => partial.len() + 1 < k,
            None => true,
        }) ==> apply_one_s(ExpV::BuildIn(f, partial), av, d, c, fuel) == (
            Ok::<ExpV, ErrV>(ExpV::BuildIn(f, partial.push(av))),
            c,
        ),
        (match arity_s(f) {
            Some(k) => partial.len() + 1 >= k,
            None => false,
        }) ==> apply_one_s(ExpV::BuildIn(f, partial), av, d, c, fuel) == (
            native_apply_s(f, partial.push(av)),
            c,
        ),
{
}

} // verus!
