//! Textual rendering of expressions, for the two output primitives, and the
//! decimal digits used both by the renderer and by the fresh-name generator.
//! The rendering is for display; it is not guaranteed to parse back into the
//! identical expression.

use vstd::prelude::*;

use crate::ast::{expv, view_clauses, view_elems, Exp, ExpV};
use crate::ast::{lemma_view_clauses, lemma_view_elems};

verus! {

broadcast use vstd::std_specs::vec::group_vec_axioms;

/// The decimal digit character for `d`.
pub open spec fn digit_char(d: nat) -> char {
    if d == 0 {
        '0'
    } else if d == 1 {
        '1'
    } else if d == 2 {
        '2'
    } else if d == 3 {
        '3'
    } else if d == 4 {
        '4'
    } else if d == 5 {
        '5'
    } else if d == 6 {
        '6'
    } else if d == 7 {
        '7'
    } else if d == 8 {
        '8'
    } else {
        '9'
    }
}

/// The decimal digits of `n`, most significant first, with no leading zeros
/// (a single `'0'` for zero).
pub open spec fn dec_digits(n: nat) -> Seq<char>
    decreases n,
{
    if n < 10 {
        seq![digit_char(n)]
    } else {
        dec_digits(n / 10) + seq![digit_char(n % 10)]
    }
}

/// The decimal rendering of a signed integer.
pub open spec fn int_chars(i: int) -> Seq<char> {
    if i < 0 {
        seq!['-'] + dec_digits((-i) as nat)
    } else {
        dec_digits(i as nat)
    }
}

/// The decimal digit character for `d`.
pub fn digit_char_of(d: u64) -> (c: char)
    requires
        d < 10,
    ensures
        c == digit_char(d as nat),
{
    if d == 0 {
        '0'
    } else if d == 1 {
        '1'
    } else if d == 2 {
        '2'
    } else if d == 3 {
        '3'
    } else if d == 4 {
        '4'
    } else if d == 5 {
        '5'
    } else if d == 6 {
        '6'
    } else if d == 7 {
        '7'
    } else if d == 8 {
        '8'
    } else {
        '9'
    }
}

/// The decimal digits of `n`, most significant first.
pub fn u64_dec_chars(n: u64) -> (r: Vec<char>)
    ensures
        r@ == dec_digits(n as nat),
    decreases n,
{
    if n < 10 {
        let mut out: Vec<char> = Vec::new();
        out.push(digit_char_of(n));
        proof {
            assert(out@ =~= dec_digits(n as nat));
        }
        out
    } else {
        let mut out = u64_dec_chars(n / 10);
        out.push(digit_char_of(n % 10));
        proof {
            assert(out@ =~= dec_digits(n as nat));
        }
        out
    }
}

/// The decimal rendering of a signed 64-bit integer.
pub fn i64_dec_chars(i: i64) -> (r: Vec<char>)
    ensures
        r@ == int_chars(i as int),
{
    if i >= 0 {
        u64_dec_chars(i as u64)
    } else {
        let m: u64 = (-(i as i128)) as u64;
        let digits = u64_dec_chars(m);
        let mut out: Vec<char> = Vec::new();
        out.push('-');
        let mut k: usize = 0;
        while k < digits.len()
            invariant
                k <= digits@.len(),
                out@ == seq!['-'] + digits@.subrange(0, k as int),
            decreases digits@.len() - k,
        {
            out.push(digits[k]);
            k = k + 1;
        }
        proof {
            assert(out@ =~= int_chars(i as int));
        }
        out
    }
}

/// The display rendering of an expression.
pub open spec fn render_s(e: ExpV) -> Seq<char>
    decreases e, 0nat,
{
    match e {
        ExpV::Nil => seq!['n', 'i', 'l'],
        ExpV::Bool(b) => if b {
            seq!['t', 'r', 'u', 'e']
        } else {
            seq!['f', 'a', 'l', 's', 'e']
        },
        ExpV::Integer(i) => int_chars(i as int),
        ExpV::Text(s) => s,
        ExpV::Symbol(s) => s,
        ExpV::Lambda(p, b) => seq!['(', '\\', ' ', '('] + p + seq![')', ' '] + render_s(*b)
            + seq![')'],
        ExpV::Apply(f, a) => seq!['('] + render_s(*f) + seq![' '] + render_s(*a) + seq![')'],
        ExpV::List(items) => seq!['('] + render_join(items) + seq![')'],
        ExpV::If(c, t, els) => seq!['(', 'i', 'f', ' '] + render_s(*c) + seq![' '] + render_s(*t)
            + seq![' '] + render_s(*els) + seq![')'],
        ExpV::Quote(i) => seq!['\''] + render_s(*i),
        ExpV::Let(n, v, b) => seq!['(', 'l', 'e', 't', ' ', '('] + n + seq![' '] + render_s(*v)
            + seq![')', ' '] + render_s(*b) + seq![')'],
        ExpV::Case(scr, cls) => seq!['(', 'c', 'a', 's', 'e', ' '] + render_s(*scr) + seq![' ']
            + render_clauses_join(cls) + seq![')'],
        ExpV::BuildIn(_, args) => seq!['(', '#', 'b', 'u', 'i', 'l', 'd', 'i', 'n', ' ']
            + render_join(args) + seq![')'],
    }
}

/// The renderings of the elements, separated by single spaces.
pub open spec fn render_join(items: Seq<ExpV>) -> Seq<char>
    decreases items, items.len(),
{
    if items.len() == 0 {
        Seq::empty()
    } else if items.len() == 1 {
        render_s(items[0])
    } else {
        render_s(items[0]) + seq![' '] + render_join(items.drop_first())
    }
}

/// The renderings of the clauses, each as `(pattern result)`, separated by
/// single spaces.
pub open spec fn render_clauses_join(cls: Seq<(ExpV, ExpV)>) -> Seq<char>
    decreases cls, cls.len(),
{
    if cls.len() == 0 {
        Seq::empty()
    } else if cls.len() == 1 {
        seq!['('] + render_s(cls[0].0) + seq![' '] + render_s(cls[0].1) + seq![')']
    } else {
        seq!['('] + render_s(cls[0].0) + seq![' '] + render_s(cls[0].1) + seq![')'] + seq![' ']
            + render_clauses_join(cls.drop_first())
    }
}

/// The display rendering of an expression, as a character vector.
pub fn render_chars(e: &Exp) -> (r: Vec<char>)
    ensures
        r@ == render_s(e@),
    decreases *e, 0nat,
{
    match e {
        Exp::Nil => {
            let mut out: Vec<char> = Vec::new();
            out.push('n');
            out.push('i');
            out.push('l');
            proof {
                assert(out@ =~= render_s(e@));
            }
            out
        },
        Exp::Bool(b) => {
            let mut out: Vec<char> = Vec::new();
            if *b {
                out.push('t');
                out.push('r');
                out.push('u');
                out.push('e');
            } else {
                out.push('f');
                out.push('a');
                out.push('l');
                out.push('s');
                out.push('e');
            }
            proof {
                assert(out@ =~= render_s(e@));
            }
            out
        },
        Exp::Integer(i) => i64_dec_chars(*i),
        Exp::Text(s) => crate::ast::clone_chars(s),
        Exp::Symbol(s) => crate::ast::clone_chars(s),
        Exp::Lambda(p, b) => {
            let mut out: Vec<char> = Vec::new();
            out.push('(');
            out.push('\\');
            out.push(' ');
            out.push('(');
            push_all(&mut out, p);
            out.push(')');
            out.push(' ');
            let mut body = render_chars(b);
            out.append(&mut body);
            out.push(')');
            proof {
                assert(out@ =~= render_s(e@));
            }
            out
        },
        Exp::Apply(f, a) => {
            let mut out: Vec<char> = Vec::new();
            out.push('(');
            let mut fr = render_chars(f);
            out.append(&mut fr);
            out.push(' ');
            let mut ar = render_chars(a);
            out.append(&mut ar);
            out.push(')');
            proof {
                assert(out@ =~= render_s(e@));
            }
            out
        },
        Exp::List(items) => {
            proof {
                assert(decreases_to!(*e => *items));
                assert(decreases_to!(*items => items@));
            }
            let mut out: Vec<char> = Vec::new();
            out.push('(');
            let mut inner = render_join_vec(items, 0);
            out.append(&mut inner);
            out.push(')');
            proof {
                lemma_view_elems(items@);
                assert(view_elems(items@).skip(0) =~= view_elems(items@));
                assert(out@ =~= render_s(e@));
            }
            out
        },
        Exp::If(c, t, els) => {
            let mut out: Vec<char> = Vec::new();
            out.push('(');
            out.push('i');
            out.push('f');
            out.push(' ');
            let mut cr = render_chars(c);
            out.append(&mut cr);
            out.push(' ');
            let mut tr = render_chars(t);
            out.append(&mut tr);
            out.push(' ');
            let mut er = render_chars(els);
            out.append(&mut er);
            out.push(')');
            proof {
                assert(out@ =~= render_s(e@));
            }
            out
        },
        Exp::Quote(i) => {
            let mut out: Vec<char> = Vec::new();
            out.push('\'');
            let mut ir = render_chars(i);
            out.append(&mut ir);
            proof {
                assert(out@ =~= render_s(e@));
            }
            out
        },
        Exp::Let(n, v, b) => {
            let mut out: Vec<char> = Vec::new();
            out.push('(');
            out.push('l');
            out.push('e');
            out.push('t');
            out.push(' ');
            out.push('(');
            push_all(&mut out, n);
            out.push(' ');
            let mut vr = render_chars(v);
            out.append(&mut vr);
            out.push(')');
            out.push(' ');
            let mut br = render_chars(b);
            out.append(&mut br);
            out.push(')');
            proof {
                assert(out@ =~= render_s(e@));
            }
            out
        },
        Exp::Case(scr, cls) => {
            proof {
                assert(decreases_to!(*e => *cls));
                assert(decreases_to!(*cls => cls@));
            }
            let mut out: Vec<char> = Vec::new();
            out.push('(');
            out.push('c');
            out.push('a');
            out.push('s');
            out.push('e');
            out.push(' ');
            let mut sr = render_chars(scr);
            out.append(&mut sr);
            out.push(' ');
            let mut cr = render_clauses_vec(cls, 0);
            out.append(&mut cr);
            out.push(')');
            proof {
                lemma_view_clauses(cls@);
                assert(view_clauses(cls@).skip(0) =~= view_clauses(cls@));
                assert(out@ =~= render_s(e@));
            }
            out
        },
        Exp::BuildIn(_, args) => {
            proof {
                assert(decreases_to!(*e => *args));
                assert(decreases_to!(*args => args@));
            }
            let mut out: Vec<char> = Vec::new();
            out.push('(');
            out.push('#');
            out.push('b');
            out.push('u');
            out.push('i');
            out.push('l');
            out.push('d');
            out.push('i');
            out.push('n');
            out.push(' ');
            let mut inner = render_join_vec(args, 0);
            out.append(&mut inner);
            out.push(')');
            proof {
                lemma_view_elems(args@);
                assert(view_elems(args@).skip(0) =~= view_elems(args@));
                assert(out@ =~= render_s(e@));
            }
            out
        },
    }
}

/// Appends a copy of `src` to `out`.
pub fn push_all(out: &mut Vec<char>, src: &Vec<char>)
    ensures
        final(out)@ == old(out)@ + src@,
{
    let mut i: usize = 0;
    while i < src.len()
        invariant
            i <= src@.len(),
            out@ == old(out)@ + src@.subrange(0, i as int),
        decreases src@.len() - i,
    {
        out.push(src[i]);
        i = i + 1;
    }
    proof {
        assert(old(out)@ + src@.subrange(0, src@.len() as int) =~= old(out)@ + src@);
    }
}

/// The renderings of the elements from `from` on, separated by single spaces.
pub fn render_join_vec(items: &Vec<Exp>, from: usize) -> (r: Vec<char>)
    requires
        from <= items@.len(),
    ensures
        r@ == render_join(view_elems(items@).skip(from as int)),
    decreases items@, items@.len() - from,
{
    proof {
        lemma_view_elems(items@);
    }
    let mut out: Vec<char> = Vec::new();
    if from == items.len() {
        proof {
            assert(view_elems(items@).skip(from as int) =~= Seq::<ExpV>::empty());
        }
        return out;
    }
    proof {
        assert(decreases_to!(items@ => items@[from as int]));
    }
    let mut head = render_chars(&items[from]);
    out.append(&mut head);
    proof {
        assert(view_elems(items@).skip(from as int)[0] == expv(items@[from as int]));
    }
    if from + 1 == items.len() {
        proof {
            assert(view_elems(items@).skip(from as int).len() == 1);
        }
        return out;
    }
    out.push(' ');
    let mut rest = render_join_vec(items, from + 1);
    out.append(&mut rest);
    proof {
        assert(view_elems(items@).skip(from as int).drop_first() =~= view_elems(items@).skip(
            from as int + 1,
        ));
    }
    out
}

/// The renderings of the clauses from `from` on, each as `(pattern result)`,
/// separated by single spaces.
pub fn render_clauses_vec(cls: &Vec<(Exp, Exp)>, from: usize) -> (r: Vec<char>)
    requires
        from <= cls@.len(),
    ensures
        r@ == render_clauses_join(view_clauses(cls@).skip(from as int)),
    decreases cls@, cls@.len() - from,
{
    proof {
        lemma_view_clauses(cls@);
    }
    let mut out: Vec<char> = Vec::new();
    if from == cls.len() {
        proof {
            assert(view_clauses(cls@).skip(from as int) =~= Seq::<(ExpV, ExpV)>::empty());
        }
        return out;
    }
    proof {
        assert(decreases_to!(cls@ => cls@[from as int]));
        assert(decreases_to!(cls@[from as int] => cls@[from as int].0));
        assert(view_clauses(cls@).skip(from as int)[0] == (expv(cls@[from as int].0), expv(
            cls@[from as int].1,
        )));
    }
    out.push('(');
    let mut pr = render_chars(&cls[from].0);
    out.append(&mut pr);
    out.push(' ');
    let mut rr = render_chars(&cls[from].1);
    out.append(&mut rr);
    out.push(')');
    if from + 1 == cls.len() {
        proof {
            assert(view_clauses(cls@).skip(from as int).len() == 1);
        }
        return out;
    }
    out.push(' ');
    let mut rest = render_clauses_vec(cls, from + 1);
    out.append(&mut rest);
    proof {
        assert(view_clauses(cls@).skip(from as int).drop_first() =~= view_clauses(cls@).skip(
            from as int + 1,
        ));
    }
    out
}

/// Relies on `String`'s `FromIterator` over `char`: collecting characters
/// yields the string of exactly those characters.
#[verifier::external_body]
fn chars_to_string(v: &Vec<char>) -> (r: String)
    ensures
        r@ == v@,
{
    v.iter().collect()
}

/// The display rendering of an expression.
pub fn render(e: &Exp) -> (r: String)
    ensures
        r@ == render_s(e@),
{
    let chars = render_chars(e);
    chars_to_string(&chars)
}

} // verus!
