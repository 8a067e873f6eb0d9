use minilisp::ast::{
    apply, bool, case, if_, integer, lambda, let_, list, nil, quote, string, symbol, Exp,
};
use minilisp::buildin::default_module;
use minilisp::eval::{eval, eval_default_module, evaluate, EvalError, VariableGenerator};
use minilisp::render::render;

fn capture_term() -> Exp {
    // ((\ (x) (\ (y) x)) 'y 5): the inner binder must be renamed so that the
    // outer y survives the substitution.
    apply(
        apply(
            lambda("x", lambda("y", symbol("x"))),
            quote(symbol("y")),
        ),
        integer(5),
    )
}

#[test]
fn test_capture_freedom() {
    let mut module = default_module();
    module.insert("y", integer(42));
    let r = evaluate(&capture_term(), &module);
    // Naive substitution would capture y and yield 5; hygienic renaming
    // leaves the outer y free, and it resolves to its binding.
    assert_eq!(r, Ok(integer(42)));
}

#[test]
fn test_alpha_independence() {
    // Whatever fresh names the generator produces, the result is the same.
    let mut module = default_module();
    module.insert("y", integer(42));
    let mut gen_a = VariableGenerator::new();
    let mut gen_b = VariableGenerator { counter: 977 };
    let ra = eval(&capture_term(), &module, &mut gen_a, 10000);
    let rb = eval(&capture_term(), &module, &mut gen_b, 10000);
    assert_eq!(ra, Ok(integer(42)));
    assert_eq!(ra, rb);
}

#[test]
fn test_determinism() {
    let e1 = list(&[symbol("+"), integer(20), integer(22)]);
    let e2 = list(&[symbol("+"), integer(20), integer(22)]);
    assert_eq!(eval_default_module(e1), eval_default_module(e2));
}

#[test]
fn test_short_circuit() {
    // The untaken branch is never evaluated: neither its output effect nor
    // its division by zero ever happens.
    let e = if_(
        bool(false),
        list(&[symbol("println"), string("nope")]),
        integer(1),
    );
    assert_eq!(eval_default_module(e), Ok(integer(1)));

    let e = if_(
        bool(false),
        list(&[symbol("/"), integer(1), integer(0)]),
        integer(1),
    );
    assert_eq!(eval_default_module(e), Ok(integer(1)));
}

#[test]
fn test_currying() {
    let e = apply(apply(symbol("+"), integer(1)), integer(2));
    assert_eq!(eval_default_module(e), Ok(integer(3)));

    // Partial application yields a procedure value, not an error.
    let e = apply(symbol("+"), integer(1));
    let r = eval_default_module(e);
    assert!(matches!(r, Ok(Exp::Lambda(_, _))));
}

#[test]
fn test_divide_by_zero() {
    let e = list(&[symbol("/"), integer(1), integer(0)]);
    assert_eq!(
        eval_default_module(e),
        Err(EvalError::DivideByZero(Box::new(apply(
            integer(1),
            integer(0)
        ))))
    );
}

#[test]
fn test_third_out_of_range() {
    // (third '(1 2)) fails: the list has no third element.
    let e = list(&[symbol("third"), quote(list(&[integer(1), integer(2)]))]);
    assert_eq!(
        eval_default_module(e),
        Err(EvalError::ArityOrTypeMismatch(vec![list(&[
            integer(1),
            integer(2)
        ])]))
    );
}

#[test]
fn test_nth_negative_index() {
    let e = list(&[
        symbol("nth"),
        integer(-1),
        quote(list(&[integer(1), integer(2)])),
    ]);
    assert!(matches!(
        eval_default_module(e),
        Err(EvalError::ArityOrTypeMismatch(_))
    ));
}

#[test]
fn test_quotation() {
    // A quoted sequence is returned literally; the application inside it is
    // not performed.
    let e = quote(list(&[integer(1), integer(2)]));
    assert_eq!(
        eval_default_module(e),
        Ok(list(&[integer(1), integer(2)]))
    );

    let e = quote(list(&[symbol("+"), integer(1), integer(2)]));
    assert_eq!(
        eval_default_module(e),
        Ok(list(&[symbol("+"), integer(1), integer(2)]))
    );
}

#[test]
fn test_sequence_literal_is_eager() {
    // A list whose head is not callable is a literal; its elements are
    // evaluated eagerly.
    let e = list(&[integer(1), list(&[symbol("+"), integer(1), integer(1)])]);
    assert_eq!(
        eval_default_module(e),
        Ok(list(&[integer(1), integer(2)]))
    );
}

#[test]
fn test_unbound_name() {
    let e = symbol("nosuch");
    assert_eq!(
        eval_default_module(e),
        Err(EvalError::UnboundName("nosuch".chars().collect()))
    );
}

#[test]
fn test_type_mismatch_condition() {
    let e = if_(integer(1), integer(2), integer(3));
    assert_eq!(
        eval_default_module(e),
        Err(EvalError::TypeMismatch(Box::new(integer(1))))
    );
}

#[test]
fn test_not_applicable() {
    let e = apply(integer(1), integer(2));
    assert_eq!(
        eval_default_module(e),
        Err(EvalError::NotApplicable(Box::new(integer(1))))
    );
}

#[test]
fn test_let_binding() {
    let e = let_(
        ("x", integer(5)),
        list(&[symbol("+"), symbol("x"), integer(1)]),
    );
    assert_eq!(eval_default_module(e), Ok(integer(6)));
}

#[test]
fn test_case_dispatch() {
    let e = case(
        integer(2),
        &[
            (integer(1), string("one")),
            (integer(2), string("two")),
        ],
    );
    assert_eq!(eval_default_module(e), Ok(string("two")));
}

#[test]
fn test_case_non_exhaustive() {
    let e = case(integer(3), &[(integer(1), string("one"))]);
    assert_eq!(
        eval_default_module(e),
        Err(EvalError::NonExhaustiveMatch(Box::new(integer(3))))
    );
}

#[test]
fn test_depth_limit() {
    // ((\ (x) (x x)) (\ (x) (x x))) reduces forever; a small nesting budget
    // surfaces the bounded recursion depth.
    let omega = || lambda("x", list(&[symbol("x"), symbol("x")]));
    let e = apply(omega(), omega());
    let module = default_module();
    let mut gen = VariableGenerator::new();
    assert_eq!(
        eval(&e, &module, &mut gen, 50),
        Err(EvalError::DepthLimit)
    );
}

#[test]
fn test_integer_wrapping() {
    let e = list(&[symbol("+"), integer(i64::MAX), integer(1)]);
    assert_eq!(eval_default_module(e), Ok(integer(i64::MIN)));
}

#[test]
fn test_string_init_empty() {
    // The empty string has no init.
    let e = list(&[symbol("string-init"), string("")]);
    assert_eq!(
        eval_default_module(e),
        Err(EvalError::ArityOrTypeMismatch(vec![string("")]))
    );
}

#[test]
fn test_println_returns_nil() {
    let e = list(&[symbol("println"), string("hello")]);
    assert_eq!(eval_default_module(e), Ok(nil()));
}

#[test]
fn test_render() {
    assert_eq!(render(&nil()), "nil");
    assert_eq!(render(&bool(true)), "true");
    assert_eq!(render(&integer(-42)), "-42");
    assert_eq!(render(&integer(100)), "100");
    assert_eq!(render(&string("hi")), "hi");
    assert_eq!(render(&lambda("x", integer(3))), "(\\ (x) 3)");
    assert_eq!(
        render(&list(&[integer(1), integer(2)])),
        "(1 2)"
    );
    assert_eq!(render(&quote(symbol("a"))), "'a");
    assert_eq!(
        render(&if_(bool(true), integer(1), integer(2))),
        "(if true 1 2)"
    );
    assert_eq!(
        render(&let_(("x", integer(1)), symbol("x"))),
        "(let (x 1) x)"
    );
}

#[test]
fn test_lambda_value_and_application() {
    // ((\ (x) (+ x 1)) 41) => 42, through the list-call form.
    let e = list(&[
        lambda("x", list(&[symbol("+"), symbol("x"), integer(1)])),
        integer(41),
    ]);
    assert_eq!(eval_default_module(e), Ok(integer(42)));
}

#[test]
fn test_apply_direct_native() {
    // Applying a bare native through the application rule invokes it at its
    // arity.
    let e = apply(symbol("first"), quote(list(&[integer(9)])));
    assert_eq!(eval_default_module(e), Ok(integer(9)));
}

#[test]
fn test_partial_native_is_pending_value() {
    // One argument short of the arity: the native stays a pending value.
    let e = apply(
        minilisp::ast::buildin(minilisp::ast::NativeFn::Nth, &[]),
        integer(0),
    );
    let r = eval_default_module(e);
    assert!(matches!(r, Ok(Exp::BuildIn(_, _))));
}

#[test]
fn test_quote_of_quote_keeps_both_layers() {
    let e = quote(quote(integer(1)));
    assert_eq!(eval_default_module(e), Ok(quote(integer(1))));
}
