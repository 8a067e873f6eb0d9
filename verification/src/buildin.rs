//! The native procedure registry: the fixed catalog of built-in procedures,
//! each a pure function from evaluated arguments to a result, and the
//! default definition table that exposes them — binary ones through nested
//! single-parameter lambdas, so that partial application works identically
//! for native and interpreted procedures.

use vstd::prelude::*;

use std::io::Write;

use crate::ast::{
    clone_chars, clone_exp, clone_vec, exp_eq, expv, lemma_view_elems, view_elems, Exp, ExpV,
    NativeFn,
};
use crate::eval::{res_view, ErrV, EvalError, Module};
use crate::render::{push_all, render};

verus! {

broadcast use vstd::std_specs::vec::group_vec_axioms;

/// The fixed arity of a native procedure; `None` for the variadic `list`.
pub open spec fn arity_s(f: NativeFn) -> Option<nat> {
    match f {
        NativeFn::Add => Some(2),
        NativeFn::Sub => Some(2),
        NativeFn::Mul => Some(2),
        NativeFn::Div => Some(2),
        NativeFn::Eq => Some(2),
        NativeFn::Ne => Some(2),
        NativeFn::Cons => Some(2),
        NativeFn::ListOf => None,
        NativeFn::First => Some(1),
        NativeFn::Second => Some(1),
        NativeFn::Third => Some(1),
        NativeFn::Nth => Some(2),
        NativeFn::IsAtom => Some(1),
        NativeFn::Print => Some(1),
        NativeFn::PrintLn => Some(1),
        NativeFn::StringAppend => Some(2),
        NativeFn::StringHead => Some(1),
        NativeFn::StringTail => Some(1),
        NativeFn::StringInit => Some(1),
        NativeFn::StringLast => Some(1),
        NativeFn::SymbolToString => Some(1),
    }
}

/// The fixed arity of a native procedure; `None` for the variadic `list`.
pub fn arity(f: NativeFn) -> (r: Option<usize>)
    ensures
        match r {
            Some(k) => arity_s(f) == Some(k as nat),
            None => arity_s(f) is None,
        },
{
    match f {
        NativeFn::Add => Some(2),
        NativeFn::Sub => Some(2),
        NativeFn::Mul => Some(2),
        NativeFn::Div => Some(2),
        NativeFn::Eq => Some(2),
        NativeFn::Ne => Some(2),
        NativeFn::Cons => Some(2),
        NativeFn::ListOf => None,
        NativeFn::First => Some(1),
        NativeFn::Second => Some(1),
        NativeFn::Third => Some(1),
        NativeFn::Nth => Some(2),
        NativeFn::IsAtom => Some(1),
        NativeFn::Print => Some(1),
        NativeFn::PrintLn => Some(1),
        NativeFn::StringAppend => Some(2),
        NativeFn::StringHead => Some(1),
        NativeFn::StringTail => Some(1),
        NativeFn::StringInit => Some(1),
        NativeFn::StringLast => Some(1),
        NativeFn::SymbolToString => Some(1),
    }
}

/// The two integers of a two-integer argument list, if that is what it is.
pub open spec fn int2_of(args: Seq<ExpV>) -> Option<(i64, i64)> {
    if args.len() == 2 {
        match (args[0], args[1]) {
            (ExpV::Integer(a), ExpV::Integer(b)) => Some((a, b)),
            _ => None,
        }
    } else {
        None
    }
}

/// The rejection of an argument list by a native procedure.
pub open spec fn arity_err(args: Seq<ExpV>) -> Result<ExpV, ErrV> {
    Err(ErrV::ArityOrTypeMismatch(args))
}

/// What each native procedure returns on a list of evaluated arguments.
/// Every native validates its own argument list; integer arithmetic wraps
/// on 64-bit overflow; division by zero and out-of-range accesses fail.
pub open spec fn native_apply_s(f: NativeFn, args: Seq<ExpV>) -> Result<ExpV, ErrV> {
    match f {
        NativeFn::Add => match int2_of(args) {
            Some((a, b)) => Ok(ExpV::Integer(a.wrapping_add(b))),
            None => arity_err(args),
        },
        NativeFn::Sub => match int2_of(args) {
            Some((a, b)) => Ok(ExpV::Integer(a.wrapping_sub(b))),
            None => arity_err(args),
        },
        NativeFn::Mul => match int2_of(args) {
            Some((a, b)) => Ok(ExpV::Integer(a.wrapping_mul(b))),
            None => arity_err(args),
        },
        NativeFn::Div => match int2_of(args) {
            Some((a, b)) => if b == 0 {
                Err(
                    ErrV::DivideByZero(
                        ExpV::Apply(
                            Box::new(ExpV::Integer(a)),
                            Box::new(ExpV::Integer(b)),
                        ),
                    ),
                )
            } else {
                match a.checked_div(b) {
                    Some(q) => Ok(ExpV::Integer(q)),
                    None => arity_err(args),
                }
            },
            None => arity_err(args),
        },
        NativeFn::Eq => if args.len() == 2 {
            Ok(ExpV::Bool(args[0] == args[1]))
        } else {
            arity_err(args)
        },
        NativeFn::Ne => if args.len() == 2 {
            Ok(ExpV::Bool(args[0] != args[1]))
        } else {
            arity_err(args)
        },
        NativeFn::Cons => if args.len() == 2 {
            match args[1] {
                ExpV::List(l) => Ok(ExpV::List(seq![args[0]] + l)),
                _ => Ok(ExpV::List(seq![args[0], args[1]])),
            }
        } else {
            arity_err(args)
        },
        NativeFn::ListOf => Ok(ExpV::List(args)),
        NativeFn::First => match list1_at(args, 0) {
            Some(v) => Ok(v),
            None => arity_err(args),
        },
        NativeFn::Second => match list1_at(args, 1) {
            Some(v) => Ok(v),
            None => arity_err(args),
        },
        NativeFn::Third => match list1_at(args, 2) {
            Some(v) => Ok(v),
            None => arity_err(args),
        },
        NativeFn::Nth => if args.len() == 2 {
            match (args[0], args[1]) {
                (ExpV::Integer(n), ExpV::List(l)) => if 0 <= n < l.len() {
                    Ok(l[n as int])
                } else {
                    arity_err(args)
                },
                _ => arity_err(args),
            }
        } else {
            arity_err(args)
        },
        NativeFn::IsAtom => if args.len() == 1 {
            Ok(ExpV::Bool(!(args[0] is List)))
        } else {
            arity_err(args)
        },
        NativeFn::Print => if args.len() == 1 {
            Ok(ExpV::Nil)
        } else {
            arity_err(args)
        },
        NativeFn::PrintLn => if args.len() == 1 {
            Ok(ExpV::Nil)
        } else {
            arity_err(args)
        },
        NativeFn::StringAppend => if args.len() == 2 {
            match (args[0], args[1]) {
                (ExpV::Text(x), ExpV::Text(y)) => Ok(ExpV::Text(x + y)),
                _ => arity_err(args),
            }
        } else {
            arity_err(args)
        },
        NativeFn::StringHead => if args.len() == 1 {
            match args[0] {
                ExpV::Text(s) => Ok(
                    ExpV::Text(
                        if s.len() == 0 {
                            s
                        } else {
                            seq![s[0]]
                        },
                    ),
                ),
                _ => arity_err(args),
            }
        } else {
            arity_err(args)
        },
        NativeFn::StringTail => if args.len() == 1 {
            match args[0] {
                ExpV::Text(s) => Ok(
                    ExpV::Text(
                        if s.len() == 0 {
                            s
                        } else {
                            s.drop_first()
                        },
                    ),
                ),
                _ => arity_err(args),
            }
        } else {
            arity_err(args)
        },
        NativeFn::StringInit => if args.len() == 1 {
            match args[0] {
                ExpV::Text(s) => if s.len() >= 1 {
                    Ok(ExpV::Text(s.drop_last()))
                } else {
                    arity_err(args)
                },
                _ => arity_err(args),
            }
        } else {
            arity_err(args)
        },
        NativeFn::StringLast => if args.len() == 1 {
            match args[0] {
                ExpV::Text(s) => Ok(
                    ExpV::Text(
                        if s.len() == 0 {
                            s
                        } else {
                            seq![s[s.len() - 1]]
                        },
                    ),
                ),
                _ => arity_err(args),
            }
        } else {
            arity_err(args)
        },
        NativeFn::SymbolToString => if args.len() == 1 {
            match args[0] {
                ExpV::Symbol(n) => Ok(ExpV::Text(n)),
                _ => arity_err(args),
            }
        } else {
            arity_err(args)
        },
    }
}

/// The element at `k` of a single list argument, if the argument list is
/// one list long enough.
pub open spec fn list1_at(args: Seq<ExpV>, k: int) -> Option<ExpV> {
    if args.len() == 1 {
        match args[0] {
            ExpV::List(l) => if k < l.len() {
                Some(l[k])
            } else {
                None
            },
            _ => None,
        }
    } else {
        None
    }
}

/// Runs the native procedure `f` on the evaluated arguments.
pub fn native_apply(f: NativeFn, args: Vec<Exp>) -> (r: Result<Exp, EvalError>)
    ensures
        res_view(r) == native_apply_s(f, view_elems(args@)),
{
    match f {
        NativeFn::Add => crate::buildin::add(args),
        NativeFn::Sub => crate::buildin::sub(args),
        NativeFn::Mul => crate::buildin::mul(args),
        NativeFn::Div => crate::buildin::div(args),
        NativeFn::Eq => crate::buildin::eq(args),
        NativeFn::Ne => crate::buildin::ne(args),
        NativeFn::Cons => crate::buildin::cons(args),
        NativeFn::ListOf => crate::buildin::list(args),
        NativeFn::First => crate::buildin::first(args),
        NativeFn::Second => crate::buildin::second(args),
        NativeFn::Third => crate::buildin::third(args),
        NativeFn::Nth => crate::buildin::nth(args),
        NativeFn::IsAtom => crate::buildin::is_atom(args),
        NativeFn::Print => crate::buildin::print(args),
        NativeFn::PrintLn => crate::buildin::println(args),
        NativeFn::StringAppend => crate::buildin::string_append(args),
        NativeFn::StringHead => crate::buildin::string_head(args),
        NativeFn::StringTail => crate::buildin::string_tail(args),
        NativeFn::StringInit => crate::buildin::string_init(args),
        NativeFn::StringLast => crate::buildin::string_last(args),
        NativeFn::SymbolToString => crate::buildin::symbol_to_string(args),
    }
}

/// The two integers of a two-integer argument list, if that is what it is.
pub fn parse_binary_integer(args: &Vec<Exp>) -> (r: Option<(i64, i64)>)
    ensures
        r == int2_of(view_elems(args@)),
{
    proof {
        lemma_view_elems(args@);
    }
    if args.len() != 2 {
        return None;
    }
    match (&args[0], &args[1]) {
        (Exp::Integer(a), Exp::Integer(b)) => Some((*a, *b)),
        _ => None,
    }
}

/// Integer addition, wrapping on 64-bit overflow.
pub fn add(args: Vec<Exp>) -> (r: Result<Exp, EvalError>)
    ensures
        res_view(r) == native_apply_s(NativeFn::Add, view_elems(args@)),
{
    match parse_binary_integer(&args) {
        Some((a, b)) => Ok(Exp::Integer(a.wrapping_add(b))),
        None => Err(EvalError::ArityOrTypeMismatch(args)),
    }
}

/// Integer subtraction, wrapping on 64-bit overflow.
pub fn sub(args: Vec<Exp>) -> (r: Result<Exp, EvalError>)
    ensures
        res_view(r) == native_apply_s(NativeFn::Sub, view_elems(args@)),
{
    match parse_binary_integer(&args) {
        Some((a, b)) => Ok(Exp::Integer(a.wrapping_sub(b))),
        None => Err(EvalError::ArityOrTypeMismatch(args)),
    }
}

/// Integer multiplication, wrapping on 64-bit overflow.
pub fn mul(args: Vec<Exp>) -> (r: Result<Exp, EvalError>)
    ensures
        res_view(r) == native_apply_s(NativeFn::Mul, view_elems(args@)),
{
    match parse_binary_integer(&args) {
        Some((a, b)) => Ok(Exp::Integer(a.wrapping_mul(b))),
        None => Err(EvalError::ArityOrTypeMismatch(args)),
    }
}

/// Integer division, truncating toward zero; dividing by zero fails with
/// `DivideByZero` carrying the application of the two operands.
pub fn div(args: Vec<Exp>) -> (r: Result<Exp, EvalError>)
    ensures
        res_view(r) == native_apply_s(NativeFn::Div, view_elems(args@)),
{
    match parse_binary_integer(&args) {
        Some((a, b)) => {
            if b == 0 {
                let operands = Exp::Apply(Box::new(Exp::Integer(a)), Box::new(Exp::Integer(b)));
                proof {
                    assert(expv(Exp::Integer(a)) == ExpV::Integer(a));
                    assert(expv(Exp::Integer(b)) == ExpV::Integer(b));
                    assert(expv(operands) == ExpV::Apply(
                        Box::new(ExpV::Integer(a)),
                        Box::new(ExpV::Integer(b)),
                    ));
                }
                Err(EvalError::DivideByZero(Box::new(operands)))
            } else {
                match a.checked_div(b) {
                    Some(q) => Ok(Exp::Integer(q)),
                    None => Err(EvalError::ArityOrTypeMismatch(args)),
                }
            }
        },
        None => Err(EvalError::ArityOrTypeMismatch(args)),
    }
}

/// Structural equality of the two arguments.
pub fn eq(args: Vec<Exp>) -> (r: Result<Exp, EvalError>)
    ensures
        res_view(r) == native_apply_s(NativeFn::Eq, view_elems(args@)),
{
    proof {
        lemma_view_elems(args@);
    }
    if args.len() != 2 {
        return Err(EvalError::ArityOrTypeMismatch(args));
    }
    Ok(Exp::Bool(exp_eq(&args[0], &args[1])))
}

/// Structural inequality of the two arguments.
pub fn ne(args: Vec<Exp>) -> (r: Result<Exp, EvalError>)
    ensures
        res_view(r) == native_apply_s(NativeFn::Ne, view_elems(args@)),
{
    proof {
        lemma_view_elems(args@);
    }
    if args.len() != 2 {
        return Err(EvalError::ArityOrTypeMismatch(args));
    }
    Ok(Exp::Bool(!exp_eq(&args[0], &args[1])))
}

/// Prepends the first argument to the second; a non-list second argument is
/// treated as a one-element tail.
pub fn cons(args: Vec<Exp>) -> (r: Result<Exp, EvalError>)
    ensures
        res_view(r) == native_apply_s(NativeFn::Cons, view_elems(args@)),
{
    proof {
        lemma_view_elems(args@);
    }
    if args.len() != 2 {
        return Err(EvalError::ArityOrTypeMismatch(args));
    }
    let head = clone_exp(&args[0]);
    match &args[1] {
        Exp::List(l) => {
            let mut out: Vec<Exp> = Vec::new();
            out.push(head);
            let mut tail = clone_vec(l);
            out.append(&mut tail);
            proof {
                lemma_view_elems(out@);
                lemma_view_elems(l@);
                assert(view_elems(out@) =~= seq![view_elems(args@)[0]] + view_elems(l@));
            }
            Ok(Exp::List(out))
        },
        _ => {
            let second = clone_exp(&args[1]);
            let mut out: Vec<Exp> = Vec::new();
            out.push(head);
            out.push(second);
            proof {
                lemma_view_elems(out@);
                assert(view_elems(out@) =~= seq![view_elems(args@)[0], view_elems(args@)[1]]);
            }
            Ok(Exp::List(out))
        },
    }
}

/// The literal list of the evaluated arguments.
pub fn list(args: Vec<Exp>) -> (r: Result<Exp, EvalError>)
    ensures
        res_view(r) == native_apply_s(NativeFn::ListOf, view_elems(args@)),
{
    Ok(Exp::List(args))
}

/// The first element of a list argument.
pub fn first(args: Vec<Exp>) -> (r: Result<Exp, EvalError>)
    ensures
        res_view(r) == native_apply_s(NativeFn::First, view_elems(args@)),
{
    nth_of_single(args, 0)
}

/// The second element of a list argument.
pub fn second(args: Vec<Exp>) -> (r: Result<Exp, EvalError>)
    ensures
        res_view(r) == native_apply_s(NativeFn::Second, view_elems(args@)),
{
    nth_of_single(args, 1)
}

/// The third element of a list argument.
pub fn third(args: Vec<Exp>) -> (r: Result<Exp, EvalError>)
    ensures
        res_view(r) == native_apply_s(NativeFn::Third, view_elems(args@)),
{
    nth_of_single(args, 2)
}

/// The element at `k` of a single list argument; anything else is rejected.
fn nth_of_single(args: Vec<Exp>, k: usize) -> (r: Result<Exp, EvalError>)
    ensures
        res_view(r) == match list1_at(view_elems(args@), k as int) {
            Some(v) => Ok::<ExpV, ErrV>(v),
            None => arity_err(view_elems(args@)),
        },
{
    proof {
        lemma_view_elems(args@);
    }
    if args.len() != 1 {
        return Err(EvalError::ArityOrTypeMismatch(args));
    }
    match &args[0] {
        Exp::List(l) => {
            if k < l.len() {
                proof {
                    lemma_view_elems(l@);
                }
                Ok(clone_exp(&l[k]))
            } else {
                proof {
                    lemma_view_elems(l@);
                }
                Err(EvalError::ArityOrTypeMismatch(args))
            }
        },
        _ => Err(EvalError::ArityOrTypeMismatch(args)),
    }
}

/// The element of the list second argument selected by the integer first
/// argument, zero-based; out of range is rejected.
pub fn nth(args: Vec<Exp>) -> (r: Result<Exp, EvalError>)
    ensures
        res_view(r) == native_apply_s(NativeFn::Nth, view_elems(args@)),
{
    proof {
        lemma_view_elems(args@);
    }
    if args.len() != 2 {
        return Err(EvalError::ArityOrTypeMismatch(args));
    }
    let n: i64 = match &args[0] {
        Exp::Integer(n) => *n,
        _ => {
            return Err(EvalError::ArityOrTypeMismatch(args));
        },
    };
    match &args[1] {
        Exp::List(l) => {
            if n >= 0 && (n as u64) < (l.len() as u64) {
                proof {
                    lemma_view_elems(l@);
                }
                Ok(clone_exp(&l[n as usize]))
            } else {
                proof {
                    lemma_view_elems(l@);
                }
                Err(EvalError::ArityOrTypeMismatch(args))
            }
        },
        _ => Err(EvalError::ArityOrTypeMismatch(args)),
    }
}

/// Whether the argument is an atom, that is, not a list.
pub fn is_atom(args: Vec<Exp>) -> (r: Result<Exp, EvalError>)
    ensures
        res_view(r) == native_apply_s(NativeFn::IsAtom, view_elems(args@)),
{
    proof {
        lemma_view_elems(args@);
    }
    if args.len() != 1 {
        return Err(EvalError::ArityOrTypeMismatch(args));
    }
    let is_list = matches!(&args[0], Exp::List(_));
    Ok(Exp::Bool(!is_list))
}

/// Relies on `std::io::stdout` and the `write!`/`writeln!` macros: writes
/// the rendering to standard output, with a trailing space or a newline.
/// Its only effect is that single write.
#[verifier::external_body]
fn emit(s: &String, newline: bool) {
    let mut out = std::io::stdout();
    if newline {
        let _ = writeln!(out, "{}", s);
    } else {
        let _ = write!(out, "{} ", s);
    }
}

/// Writes the rendering of the argument and a trailing space to standard
/// output and returns the unit value.
pub fn print(args: Vec<Exp>) -> (r: Result<Exp, EvalError>)
    ensures
        res_view(r) == native_apply_s(NativeFn::Print, view_elems(args@)),
{
    proof {
        lemma_view_elems(args@);
    }
    if args.len() != 1 {
        return Err(EvalError::ArityOrTypeMismatch(args));
    }
    let text = render(&args[0]);
    emit(&text, false);
    Ok(Exp::Nil)
}

/// Writes the rendering of the argument and a newline to standard output
/// and returns the unit value.
pub fn println(args: Vec<Exp>) -> (r: Result<Exp, EvalError>)
    ensures
        res_view(r) == native_apply_s(NativeFn::PrintLn, view_elems(args@)),
{
    proof {
        lemma_view_elems(args@);
    }
    if args.len() != 1 {
        return Err(EvalError::ArityOrTypeMismatch(args));
    }
    let text = render(&args[0]);
    emit(&text, true);
    Ok(Exp::Nil)
}

/// The concatenation of two string arguments.
pub fn string_append(args: Vec<Exp>) -> (r: Result<Exp, EvalError>)
    ensures
        res_view(r) == native_apply_s(NativeFn::StringAppend, view_elems(args@)),
{
    proof {
        lemma_view_elems(args@);
    }
    if args.len() != 2 {
        return Err(EvalError::ArityOrTypeMismatch(args));
    }
    match (&args[0], &args[1]) {
        (Exp::Text(x), Exp::Text(y)) => {
            let mut out = clone_chars(x);
            push_all(&mut out, y);
            Ok(Exp::Text(out))
        },
        _ => Err(EvalError::ArityOrTypeMismatch(args)),
    }
}

/// The one-character head of a string argument; empty stays empty.
pub fn string_head(args: Vec<Exp>) -> (r: Result<Exp, EvalError>)
    ensures
        res_view(r) == native_apply_s(NativeFn::StringHead, view_elems(args@)),
{
    proof {
        lemma_view_elems(args@);
    }
    if args.len() != 1 {
        return Err(EvalError::ArityOrTypeMismatch(args));
    }
    match &args[0] {
        Exp::Text(s) => {
            let mut out: Vec<char> = Vec::new();
            if s.len() > 0 {
                out.push(s[0]);
            }
            proof {
                if s@.len() > 0 {
                    assert(out@ =~= seq![s@[0]]);
                } else {
                    assert(out@ =~= s@);
                }
            }
            Ok(Exp::Text(out))
        },
        _ => Err(EvalError::ArityOrTypeMismatch(args)),
    }
}

/// Everything after the first character of a string argument; empty stays
/// empty.
pub fn string_tail(args: Vec<Exp>) -> (r: Result<Exp, EvalError>)
    ensures
        res_view(r) == native_apply_s(NativeFn::StringTail, view_elems(args@)),
{
    proof {
        lemma_view_elems(args@);
    }
    if args.len() != 1 {
        return Err(EvalError::ArityOrTypeMismatch(args));
    }
    match &args[0] {
        Exp::Text(s) => {
            let mut out: Vec<char> = Vec::new();
            if s.len() == 0 {
                proof {
                    assert(out@ =~= s@);
                }
                return Ok(Exp::Text(out));
            }
            let mut i: usize = 1;
            while i < s.len()
                invariant
                    1 <= i <= s@.len(),
                    out@ == s@.subrange(1, i as int),
                decreases s@.len() - i,
            {
                out.push(s[i]);
                i = i + 1;
            }
            proof {
                assert(out@ =~= s@.drop_first());
            }
            Ok(Exp::Text(out))
        },
        _ => Err(EvalError::ArityOrTypeMismatch(args)),
    }
}

/// Everything before the last character of a string argument; the empty
/// string has no init and is rejected.
pub fn string_init(args: Vec<Exp>) -> (r: Result<Exp, EvalError>)
    ensures
        res_view(r) == native_apply_s(NativeFn::StringInit, view_elems(args@)),
{
    proof {
        lemma_view_elems(args@);
    }
    if args.len() != 1 {
        return Err(EvalError::ArityOrTypeMismatch(args));
    }
    match &args[0] {
        Exp::Text(s) => {
            if s.len() == 0 {
                return Err(EvalError::ArityOrTypeMismatch(args));
            }
            let mut out = clone_chars(s);
            out.pop();
            Ok(Exp::Text(out))
        },
        _ => Err(EvalError::ArityOrTypeMismatch(args)),
    }
}

/// The one-character last of a string argument; empty stays empty.
pub fn string_last(args: Vec<Exp>) -> (r: Result<Exp, EvalError>)
    ensures
        res_view(r) == native_apply_s(NativeFn::StringLast, view_elems(args@)),
{
    proof {
        lemma_view_elems(args@);
    }
    if args.len() != 1 {
        return Err(EvalError::ArityOrTypeMismatch(args));
    }
    match &args[0] {
        Exp::Text(s) => {
            let mut out: Vec<char> = Vec::new();
            if s.len() > 0 {
                out.push(s[s.len() - 1]);
            }
            proof {
                if s@.len() > 0 {
                    assert(out@ =~= seq![s@[s@.len() - 1]]);
                } else {
                    assert(out@ =~= s@);
                }
            }
            Ok(Exp::Text(out))
        },
        _ => Err(EvalError::ArityOrTypeMismatch(args)),
    }
}

/// The name of a symbol argument, as a string.
pub fn symbol_to_string(args: Vec<Exp>) -> (r: Result<Exp, EvalError>)
    ensures
        res_view(r) == native_apply_s(NativeFn::SymbolToString, view_elems(args@)),
{
    proof {
        lemma_view_elems(args@);
    }
    if args.len() != 1 {
        return Err(EvalError::ArityOrTypeMismatch(args));
    }
    match &args[0] {
        Exp::Symbol(n) => Ok(Exp::Text(clone_chars(n))),
        _ => Err(EvalError::ArityOrTypeMismatch(args)),
    }
}


/// The curried wrapper value for a binary native: nested single-parameter
/// lambdas whose body applies the bare native to both parameters, so that
/// partial application yields an ordinary procedure value.
pub open spec fn curry2_v(f: NativeFn) -> ExpV {
    ExpV::Lambda(
        seq!['x'],
        Box::new(
            ExpV::Lambda(
                seq!['y'],
                Box::new(
                    ExpV::List(
                        seq![
                            ExpV::BuildIn(f, Seq::empty()),
                            ExpV::Symbol(seq!['x']),
                            ExpV::Symbol(seq!['y']),
                        ],
                    ),
                ),
            ),
        ),
    )
}

/// A bare native procedure value with no accumulated arguments.
pub open spec fn direct_v(f: NativeFn) -> ExpV {
    ExpV::BuildIn(f, Seq::empty())
}

/// Builds the curried wrapper expression for a binary native.
pub fn curry2(f: NativeFn) -> (r: Exp)
    ensures
        r@ == curry2_v(f),
{
    let mut xn: Vec<char> = Vec::new();
    xn.push('x');
    let mut yn: Vec<char> = Vec::new();
    yn.push('y');
    let mut xs: Vec<char> = Vec::new();
    xs.push('x');
    let mut ys: Vec<char> = Vec::new();
    ys.push('y');
    let native = Exp::BuildIn(f, Vec::new());
    let sym_x = Exp::Symbol(xs);
    let sym_y = Exp::Symbol(ys);
    proof {
        assert(view_elems(Seq::<Exp>::empty()) =~= Seq::<ExpV>::empty());
        assert(expv(native) == ExpV::BuildIn(f, Seq::empty()));
        assert(expv(sym_x) == ExpV::Symbol(seq!['x']));
        assert(expv(sym_y) == ExpV::Symbol(seq!['y']));
    }
    let mut items: Vec<Exp> = Vec::new();
    items.push(native);
    items.push(sym_x);
    items.push(sym_y);
    proof {
        lemma_view_elems(items@);
        assert(view_elems(items@) =~= seq![
            ExpV::BuildIn(f, Seq::empty()),
            ExpV::Symbol(seq!['x']),
            ExpV::Symbol(seq!['y']),
        ]);
    }
    let body = Exp::List(items);
    proof {
        assert(xn@ =~= seq!['x']);
        assert(yn@ =~= seq!['y']);
        assert(expv(body) == ExpV::List(view_elems(items@)));
    }
    let inner = Exp::Lambda(yn, Box::new(body));
    proof {
        assert(expv(inner) == ExpV::Lambda(yn@, Box::new(expv(body))));
    }
    let r = Exp::Lambda(xn, Box::new(inner));
    proof {
        assert(expv(r) == ExpV::Lambda(xn@, Box::new(expv(inner))));
        assert(r@ == curry2_v(f));
    }
    r
}

/// Registers a binary native under `func_name`, wrapped in the curried
/// nested lambdas, so `(op 1)` is itself a one-argument procedure value.
pub fn insert_binary_curry_op(f: NativeFn, func_name: &str, module: &mut Module)
    ensures
        final(module)@ == old(module)@.push((func_name@, curry2_v(f))),
{
    let wrapped = curry2(f);
    module.insert(func_name, wrapped);
}

/// Registers a native under `func_name` as a bare native procedure value.
pub fn insert_buildin(f: NativeFn, func_name: &str, module: &mut Module)
    ensures
        final(module)@ == old(module)@.push((func_name@, direct_v(f))),
{
    let value = Exp::BuildIn(f, Vec::new());
    proof {
        assert(view_elems(Seq::<Exp>::empty()) =~= Seq::<ExpV>::empty());
        assert(value@ == direct_v(f));
    }
    module.insert(func_name, value);
}

/// The definitions of the default module, in registration order.
pub open spec fn default_defs() -> Seq<(Seq<char>, ExpV)> {
    seq![
        ("+"@, curry2_v(NativeFn::Add)),
        ("-"@, curry2_v(NativeFn::Sub)),
        ("*"@, curry2_v(NativeFn::Mul)),
        ("/"@, curry2_v(NativeFn::Div)),
        ("=="@, curry2_v(NativeFn::Eq)),
        ("/="@, curry2_v(NativeFn::Ne)),
        ("cons"@, curry2_v(NativeFn::Cons)),
        ("list"@, direct_v(NativeFn::ListOf)),
        ("atom?"@, direct_v(NativeFn::IsAtom)),
        ("first"@, direct_v(NativeFn::First)),
        ("second"@, direct_v(NativeFn::Second)),
        ("third"@, direct_v(NativeFn::Third)),
        ("nth"@, curry2_v(NativeFn::Nth)),
        ("print"@, direct_v(NativeFn::Print)),
        ("println"@, direct_v(NativeFn::PrintLn)),
        ("string-append"@, curry2_v(NativeFn::StringAppend)),
        ("string-head"@, direct_v(NativeFn::StringHead)),
        ("string-tail"@, direct_v(NativeFn::StringTail)),
        ("string-init"@, direct_v(NativeFn::StringInit)),
        ("string-last"@, direct_v(NativeFn::StringLast)),
        ("symbol->string"@, direct_v(NativeFn::SymbolToString)),
    ]
}

/// The default definition table: the standard catalog of native
/// procedures, binary ones curried.
pub fn default_module() -> (r: Module)
    ensures
        r@ == default_defs(),
{
    let mut module = Module::new("##default##");

    insert_binary_curry_op(NativeFn::Add, "+", &mut module);
    insert_binary_curry_op(NativeFn::Sub, "-", &mut module);
    insert_binary_curry_op(NativeFn::Mul, "*", &mut module);
    insert_binary_curry_op(NativeFn::Div, "/", &mut module);

    insert_binary_curry_op(NativeFn::Eq, "==", &mut module);
    insert_binary_curry_op(NativeFn::Ne, "/=", &mut module);

    insert_binary_curry_op(NativeFn::Cons, "cons", &mut module);
    insert_buildin(NativeFn::ListOf, "list", &mut module);
    insert_buildin(NativeFn::IsAtom, "atom?", &mut module);

    insert_buildin(NativeFn::First, "first", &mut module);
    insert_buildin(NativeFn::Second, "second", &mut module);
    insert_buildin(NativeFn::Third, "third", &mut module);
    insert_binary_curry_op(NativeFn::Nth, "nth", &mut module);

    insert_buildin(NativeFn::Print, "print", &mut module);
    insert_buildin(NativeFn::PrintLn, "println", &mut module);

    insert_binary_curry_op(NativeFn::StringAppend, "string-append", &mut module);
    insert_buildin(NativeFn::StringHead, "string-head", &mut module);
    insert_buildin(NativeFn::StringTail, "string-tail", &mut module);
    insert_buildin(NativeFn::StringInit, "string-init", &mut module);
    insert_buildin(NativeFn::StringLast, "string-last", &mut module);

    insert_buildin(NativeFn::SymbolToString, "symbol->string", &mut module);
    proof {
        assert(module@ =~= default_defs());
    }
    module
}

} // verus!
