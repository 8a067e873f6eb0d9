use minilisp::ast::{bool, integer, list, quote, string, symbol, Exp};
use minilisp::eval::eval_default_module;

#[test]
fn test_integer_binary_op() {
    // (+ 1 2)
    let e = list(&[symbol("+"), integer(1), integer(2)]);
    assert_eq!(eval_default_module(e), Ok(Exp::Integer(3)));

    // (- 1 2)
    let e = list(&[symbol("-"), integer(1), integer(2)]);
    assert_eq!(eval_default_module(e), Ok(Exp::Integer(-1)));
}

#[test]
fn test_compare_op() {
    // (== 1 1) => true
    let e = list(&[symbol("=="), integer(1), integer(1)]);
    assert_eq!(eval_default_module(e), Ok(bool(true)));

    // (/= 1 1) => false
    let e = list(&[symbol("/="), integer(1), integer(1)]);
    assert_eq!(eval_default_module(e), Ok(bool(false)));

    // (/= '(1 2) 2) => true
    let e = list(&[
        symbol("/="),
        quote(list(&[integer(1), integer(2)])),
        integer(2),
    ]);
    assert_eq!(eval_default_module(e), Ok(bool(true)));

    // (== '(1 2) 2) => false
    let e = list(&[
        symbol("=="),
        quote(list(&[integer(1), integer(2)])),
        integer(2),
    ]);
    assert_eq!(eval_default_module(e), Ok(bool(false)));
}

#[test]
fn test_cons() {
    // (cons 1 '(2 3)) => (1 2 3)
    let e = list(&[
        symbol("cons"),
        integer(1),
        quote(list(&[integer(2), integer(3)])),
    ]);
    assert_eq!(
        eval_default_module(e),
        Ok(list(&[integer(1), integer(2), integer(3)]))
    );

    // (cons 1 2) => (1 2)
    let e = list(&[symbol("cons"), integer(1), integer(2)]);
    assert_eq!(eval_default_module(e), Ok(list(&[integer(1), integer(2)])));

    // (cons '(1 2) 3) => ((1 2) 3)
    let e = list(&[
        symbol("cons"),
        quote(list(&[integer(1), integer(2)])),
        integer(3),
    ]);
    assert_eq!(
        eval_default_module(e),
        Ok(list(&[list(&[integer(1), integer(2)]), integer(3)]))
    );
}

#[test]
fn test_list() {
    // (list 1 2 3) => (1 2 3)
    let e = list(&[symbol("list"), integer(1), integer(2), integer(3)]);
    assert_eq!(
        eval_default_module(e),
        Ok(list(&[integer(1), integer(2), integer(3)]))
    );
    // (list (+ 1 2)) => (3)
    let e = list(&[symbol("list"), list(&[symbol("+"), integer(1), integer(2)])]);
    assert_eq!(eval_default_module(e), Ok(list(&[integer(3)])));
}

#[test]
fn test_is_atom() {
    // (atom? 1) => true
    let e = list(&[symbol("atom?"), integer(1)]);
    assert_eq!(eval_default_module(e), Ok(bool(true)));

    // (atom? '(1 2)) => false
    let e = list(&[symbol("atom?"), quote(list(&[integer(1), integer(2)]))]);
    assert_eq!(eval_default_module(e), Ok(bool(false)));
}

#[test]
fn test_nth() {
    // (first '(1 2)) => 1
    let e = list(&[symbol("first"), quote(list(&[integer(1), integer(2)]))]);
    assert_eq!(eval_default_module(e), Ok(integer(1)));

    // (second '(1 2)) => 2
    let e = list(&[symbol("second"), quote(list(&[integer(1), integer(2)]))]);
    assert_eq!(eval_default_module(e), Ok(integer(2)));

    // (third '(1 2 3)) => 3
    let e = list(&[
        symbol("third"),
        quote(list(&[integer(1), integer(2), integer(3)])),
    ]);
    assert_eq!(eval_default_module(e), Ok(integer(3)));

    // (nth 5 '(1 2 3 4 5 6 7)) => 6
    let e = list(&[
        symbol("nth"),
        integer(5),
        quote(list(&[
            integer(1),
            integer(2),
            integer(3),
            integer(4),
            integer(5),
            integer(6),
            integer(7),
        ])),
    ]);
    assert_eq!(eval_default_module(e), Ok(integer(6)));
}

#[test]
fn test_string_append() {
    // (string-append "abc" "def") => "abcdef"
    let e = list(&[symbol("string-append"), string("abc"), string("def")]);
    assert_eq!(eval_default_module(e), Ok(string("abcdef")));
}

#[test]
fn test_string_head() {
    // (string-head "abc") => "a"
    let e = list(&[symbol("string-head"), string("abc")]);
    assert_eq!(eval_default_module(e), Ok(string("a")));
}

#[test]
fn test_string_tail() {
    // (string-tail "abc") => "bc"
    let e = list(&[symbol("string-tail"), string("abc")]);
    assert_eq!(eval_default_module(e), Ok(string("bc")));
}

#[test]
fn test_string_init() {
    // (string-init "abc") => "ab"
    let e = list(&[symbol("string-init"), string("abc")]);
    assert_eq!(eval_default_module(e), Ok(string("ab")));
}

#[test]
fn test_string_last() {
    // (string-last "abc") => "c"
    let e = list(&[symbol("string-last"), string("abc")]);
    assert_eq!(eval_default_module(e), Ok(string("c")));
}

#[test]
fn test_symbol_to_string() {
    // (symbol->string 'abc) => "abc"
    let e = list(&[symbol("symbol->string"), quote(symbol("abc"))]);
    assert_eq!(eval_default_module(e), Ok(string("abc")));
}
