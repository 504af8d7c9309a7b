use lace::eval::environment::Environment;
use lace::eval::lace_lib::array::append;
use lace::eval::lace_lib::base;
use lace::eval::lace_lib::base::{first, kind, last, len, read, strip_end, strip_start};
use lace::eval::lace_lib::str::{chars, split};
use lace::eval::object::builtin::BuiltinFunction;
use lace::eval::object::Object;
use lace::eval::{Eval, DEFAULT_DEPTH};
use lace::lexer::token::kind::TokenKind;
use lace::lexer::token::dummy_token;
use lace::lexer::Lexer;
use lace::parser::Parser;

fn run_in(eval: &mut Eval, input: &str) -> Object {
    let mut parser = Parser::new(Lexer::new(format!("{}\n", input)));
    let program = parser.parse_program();
    assert!(parser.errors.is_empty(), "{:?}", parser.errors);
    eval.eval(program)
}

fn run(input: &str) -> Object {
    run_in(&mut Eval::new(), input)
}

fn integer(i: i64) -> Object {
    Object::Integer(i)
}

fn text(s: &str) -> Object {
    Object::Str(s.into())
}

fn error(s: &str) -> Object {
    Object::Error(s.into())
}

fn ints(items: &[i64]) -> Object {
    Object::Array(items.iter().map(|i| Object::Integer(*i)).collect())
}

fn op(kind: TokenKind) -> lace::lexer::token::Token {
    dummy_token(kind)
}

#[test]
fn subtraction_is_left_associative() {
    assert_eq!(run("1 - 2 - 3"), integer(-4));
}

#[test]
fn precedence_decides_the_value() {
    assert_eq!(run("1 + 2 * 3"), integer(7));
    assert_eq!(run("(1 + 2) * 3"), integer(9));
    assert_eq!(run("-5 + 10 / 2 % 3"), integer(-3));
}

#[test]
fn closures_see_the_scope_they_were_defined_in() {
    assert_eq!(
        run("let adder = fn(x) { fn(y) { x + y } }; adder(2)(3)"),
        integer(5)
    );
    assert_eq!(
        run("let x = 1; let get = fn() { x }; let call = fn(x) { get() }; call(2)"),
        integer(1)
    );
    assert_eq!(
        run("let make = fn(x) { fn() { x } }; let a = make(1); let b = make(2); a() + b()"),
        integer(3)
    );
}

#[test]
fn an_error_is_the_value_of_whatever_contains_it() {
    let missing = error("Identifier not found");
    assert_eq!(run("nope"), missing);
    assert_eq!(run("-nope"), missing);
    assert_eq!(run("!nope"), missing);
    assert_eq!(run("nope + 1"), missing);
    assert_eq!(run("1 + nope"), missing);
    assert_eq!(run("[1, nope, 2]"), missing);
    assert_eq!(run("[1, 2][nope]"), missing);
    assert_eq!(run("nope[0]"), missing);
    assert_eq!(run("{nope: 1}"), missing);
    assert_eq!(run("{1: nope}"), missing);
    assert_eq!(run("len(nope)"), missing);
    assert_eq!(run("nope(1)"), missing);
    assert_eq!(run("if (nope) { 1 } else { 2 }"), missing);
    assert_eq!(run("if (true) { nope; 2 }"), missing);
    assert_eq!(run("let f = fn() { nope; 2 }; f()"), missing);
    assert_eq!(run("let x = nope;"), missing);
    assert_eq!(run("return nope;"), missing);
}

#[test]
fn the_operand_after_an_error_is_not_evaluated() {
    let mut eval = Eval::new();
    assert_eq!(
        run_in(&mut eval, "nope + writeln(1)"),
        error("Identifier not found")
    );
    assert_eq!(eval.take_output(), Vec::<String>::new());
}

#[test]
fn array_bounds() {
    assert_eq!(
        run("[1, 2, 3][3]"),
        error("Index 3 out of bounds for an array of length 3")
    );
    assert_eq!(run("[1, 2, 3][-1]"), error("Negative indexing isn't valid"));
    assert_eq!(run("[1, 2, 3][1]"), integer(2));
    assert_eq!(run("[1, 2, 3][0]"), integer(1));
    assert_eq!(
        run("[][0]"),
        error("Index 0 out of bounds for an array of length 0")
    );
}

#[test]
fn a_hash_map_gives_null_for_a_key_it_does_not_hold() {
    assert_eq!(run("{\"a\": 1}[\"b\"]"), Object::Null);
    assert_eq!(run("{\"a\": 1}[\"a\"]"), integer(1));
    assert_eq!(run("{1: 2, true: 3, 'c': 4}[true]"), integer(3));
    assert_eq!(run("{1: 2}[[1]]"), Object::Null);
    assert_eq!(run("{}[1]"), Object::Null);
}

#[test]
fn a_hash_map_keeps_one_value_for_each_key() {
    assert_eq!(
        run("{1: 2, 3: 4, 1: 5}"),
        Object::HashLiteral(vec![(integer(1), integer(5)), (integer(3), integer(4))])
    );
    assert_eq!(run("{[1]: 2}"), error("Cannot hash a Array"));
    assert_eq!(run("{1.5: 2}"), error("Cannot hash a Float"));
}

#[test]
fn indexing_other_values_is_an_error() {
    assert_eq!(
        run("5[0]"),
        error("Did not find value Integer for Integer")
    );
    assert_eq!(
        run("[1][true]"),
        error("Did not find value Array for Boolean")
    );
}

#[test]
fn let_and_conditional() {
    assert_eq!(
        run("let x = 5; let y = 10; if (x < y) { x + y } else { 0 }"),
        integer(15)
    );
    assert_eq!(
        run("let x = 5; let y = 10; if (x > y) { x + y } else { 0 }"),
        integer(0)
    );
    assert_eq!(run("if (false) { 1 }"), Object::Null);
    assert_eq!(run("if (1) { 1 } else { 2 }"), integer(2));
    assert_eq!(run("let x = 5;"), Object::Null);
}

#[test]
fn arity_of_library_functions() {
    assert_eq!(
        run("len()"),
        error("Incorrect number of arguments provided. Expected 1, Received 0.")
    );
    assert_eq!(
        run("len(\"a\", \"b\")"),
        error("Incorrect number of arguments provided. Expected 1, Received 2.")
    );
    assert_eq!(
        run("split(\"a\")"),
        error("Incorrect number of arguments provided. Expected 2, Received 1.")
    );
    assert_eq!(run("len(\"ab\")"), integer(2));
    assert_eq!(BuiltinFunction::Len.expected_args(), 1);
    assert_eq!(BuiltinFunction::StripEnd.expected_args(), 2);
}

#[test]
fn the_value_of_a_program_is_that_of_its_last_statement() {
    assert_eq!(run("nope; 5"), integer(5));
    assert_eq!(run("1; 2; 3"), integer(3));
    assert_eq!(run(""), Object::Null);
    assert_eq!(run("return 5; 6"), integer(6));
    assert_eq!(run("return 5;"), Object::Return(Box::new(integer(5))));
}

#[test]
fn a_block_stops_at_a_return() {
    assert_eq!(run("let f = fn() { return 1; 2 }; f()"), integer(1));
    assert_eq!(
        run("let f = fn(x) { if (x) { return 1; } 2 }; f(true) + f(false)"),
        integer(3)
    );
    assert_eq!(
        run("let f = fn() { return 1; }; let g = fn() { f(); 2 }; g()"),
        integer(2)
    );
    assert_eq!(run("if (true) { return 1; 2 }"), Object::Return(Box::new(integer(1))));
}

#[test]
fn a_binding_shadows_and_does_not_reach_outwards() {
    assert_eq!(
        run("let x = 1; let f = fn() { let x = 2; x }; f() + x"),
        integer(3)
    );
    assert_eq!(run("let x = 1; let x = x + 1; x"), integer(2));
    assert_eq!(
        run("let f = fn(n) { if (n == 0) { 0 } else { n + f(n - 1) } }; f(10)"),
        integer(55)
    );
}

#[test]
fn arguments_are_bound_by_position() {
    assert_eq!(run("let f = fn(a, b) { a }; f(1)"), integer(1));
    assert_eq!(
        run("let f = fn(a, b) { b }; f(1)"),
        error("Identifier not found")
    );
    assert_eq!(run("let f = fn(a) { a }; f(1, 2)"), integer(1));
    assert_eq!(run("let a = 7; let f = fn(a, b) { a }; f()"), integer(7));
}

#[test]
fn calls_nest_only_as_deep_as_the_limit() {
    let mut eval = Eval::new();
    eval.set_depth_limit(3);
    assert_eq!(
        run_in(
            &mut eval,
            "let f = fn(n) { if (n == 0) { 0 } else { f(n - 1) } }; f(2)"
        ),
        integer(0)
    );
    assert_eq!(
        run_in(&mut eval, "f(3)"),
        error("Maximum call depth exceeded")
    );
    eval.set_depth_limit(40);
    assert_eq!(
        run_in(&mut eval, "let g = fn() { g() }; g()"),
        error("Maximum call depth exceeded")
    );
    assert_eq!(DEFAULT_DEPTH, 256);
    assert_eq!(run_in(&mut eval, "f(0) + 1"), integer(1));
}

#[test]
fn values_that_are_no_functions_cannot_be_called() {
    assert_eq!(run("5(1)"), error("5 not found"));
    assert_eq!(run("\"f\"()"), error("f not found"));
}

#[test]
fn prefix_operators() {
    assert_eq!(run("!true"), Object::Boolean(false));
    assert_eq!(run("!false"), Object::Boolean(true));
    assert_eq!(run("!5"), Object::Boolean(false));
    assert_eq!(run("!!\"\""), Object::Boolean(true));
    assert_eq!(run("let n = if (false) { 1 }; !n"), Object::Boolean(true));
    assert_eq!(run("-5"), integer(-5));
    assert_eq!(run("--5"), integer(5));
    assert_eq!(run("-true"), error("Invalid datatype"));
    assert_eq!(
        run("-1.5"),
        error("Floating point arithmetic is not supported")
    );
    assert_eq!(
        Eval::eval_prefix(&op(TokenKind::Plus), &integer(1)),
        error("Invalid operator: Plus => EOF")
    );
    assert_eq!(Eval::eval_bang_expr(&Object::Null), Object::Boolean(true));
    assert_eq!(
        Eval::eval_minus_expr(&integer(i64::MIN)),
        error("Integer overflow")
    );
    assert_eq!(Eval::eval_minus_expr(&integer(i64::MAX)), integer(-i64::MAX));
}

#[test]
fn integer_operators() {
    let apply = |kind: TokenKind, x: i64, y: i64| Eval::eval_integer_infix_expr(&op(kind), x, y);
    assert_eq!(apply(TokenKind::Plus, 2, 3), integer(5));
    assert_eq!(apply(TokenKind::Minus, 2, 3), integer(-1));
    assert_eq!(apply(TokenKind::Asterisk, 2, 3), integer(6));
    assert_eq!(apply(TokenKind::ForwardSlash, 7, 2), integer(3));
    assert_eq!(apply(TokenKind::ForwardSlash, -7, 2), integer(-3));
    assert_eq!(apply(TokenKind::ForwardSlash, 7, -2), integer(-3));
    assert_eq!(apply(TokenKind::Modulo, 7, 2), integer(1));
    assert_eq!(apply(TokenKind::Modulo, -7, 2), integer(-1));
    assert_eq!(apply(TokenKind::Modulo, 7, -2), integer(1));
    assert_eq!(apply(TokenKind::Equal, 2, 2), Object::Boolean(true));
    assert_eq!(apply(TokenKind::NotEqual, 2, 2), Object::Boolean(false));
    assert_eq!(apply(TokenKind::LessThan, 2, 3), Object::Boolean(true));
    assert_eq!(apply(TokenKind::GreaterThan, 2, 3), Object::Boolean(false));
    assert_eq!(apply(TokenKind::LessThanEqual, 3, 3), Object::Boolean(true));
    assert_eq!(
        apply(TokenKind::GreaterThanEqual, 2, 3),
        Object::Boolean(false)
    );
    assert_eq!(apply(TokenKind::ForwardSlash, 1, 0), error("Division by zero"));
    assert_eq!(apply(TokenKind::Modulo, 1, 0), error("Division by zero"));
    assert_eq!(apply(TokenKind::Plus, i64::MAX, 1), error("Integer overflow"));
    assert_eq!(apply(TokenKind::Minus, i64::MIN, 1), error("Integer overflow"));
    assert_eq!(
        apply(TokenKind::Asterisk, i64::MAX, 2),
        error("Integer overflow")
    );
    assert_eq!(
        apply(TokenKind::ForwardSlash, i64::MIN, -1),
        error("Integer overflow")
    );
    assert_eq!(
        apply(TokenKind::Modulo, i64::MIN, -1),
        error("Integer overflow")
    );
    assert_eq!(apply(TokenKind::And, 1, 2), error("No infix for And => EOF"));
}

#[test]
fn boolean_operators() {
    let apply = |kind: TokenKind, x: bool, y: bool| Eval::eval_bool_infix_expr(&op(kind), x, y);
    assert_eq!(apply(TokenKind::Equal, true, true), Object::Boolean(true));
    assert_eq!(apply(TokenKind::NotEqual, true, true), Object::Boolean(false));
    assert_eq!(apply(TokenKind::And, true, false), Object::Boolean(false));
    assert_eq!(apply(TokenKind::Or, true, false), Object::Boolean(true));
    assert_eq!(apply(TokenKind::Plus, true, false), error("No infix for bool"));
    assert_eq!(run("true && false || true"), Object::Boolean(true));
}

#[test]
fn string_operators() {
    assert_eq!(run("\"ab\" + \"cd\""), text("abcd"));
    assert_eq!(run("\"ab\" == \"ab\""), Object::Boolean(true));
    assert_eq!(run("\"ab\" == \"abc\""), Object::Boolean(false));
    assert_eq!(run("\"abcd\" - \"cd\""), text("ab"));
    assert_eq!(run("\"abcd\" - \"\""), text("abcd"));
    assert_eq!(
        run("\"abcd\" - \"ab\""),
        error("Cannot subtract ab from abcd")
    );
    assert_eq!(run("\"n = \" + 42"), text("n = 42"));
    assert_eq!(run("\"n = \" + -7"), text("n = -7"));
    assert_eq!(run("\"n10\" - 10"), text("n"));
    assert_eq!(
        Eval::eval_str_infix_expr(&op(TokenKind::Asterisk), "a".into(), "b".into()),
        error("Asterisk => EOF operation cannot be performed on strings")
    );
}

#[test]
fn operands_of_kinds_that_do_not_go_together() {
    assert_eq!(
        run("1 + true"),
        error("Cannot perform Plus => 3 on line 1 operation on this datatype")
    );
    assert_eq!(
        Eval::eval_infix(&op(TokenKind::Plus), integer(1), text("a")),
        error("Cannot perform Plus => EOF operation on this datatype")
    );
    assert_eq!(
        run("1.5 + 2.5"),
        error("Floating point arithmetic is not supported")
    );
    assert_eq!(run("2.5"), Object::Float("2.5".into()));
}

#[test]
fn library_functions_on_values() {
    assert_eq!(kind(integer(1)), text("Integer"));
    assert_eq!(kind(text("")), text("String"));
    assert_eq!(kind(Object::Null), text("NULL"));
    assert_eq!(run("kind(len)"), text("Builtin Function"));
    assert_eq!(run("kind(fn() { 1 })"), text("Function"));
    assert_eq!(len(text("héllo")), integer(6));
    assert_eq!(len(ints(&[1, 2, 3])), integer(3));
    assert_eq!(
        len(integer(1)),
        error("Integer does not have any associated function len()")
    );
    assert_eq!(first(text("abc")), Object::Char('a'));
    assert_eq!(first(text("")), Object::Null);
    assert_eq!(first(ints(&[4, 5])), integer(4));
    assert_eq!(first(ints(&[])), error("Array is empty"));
    assert_eq!(
        first(Object::Boolean(true)),
        error("Boolean does not have any associated function first()")
    );
    assert_eq!(last(text("abc")), Object::Char('c'));
    assert_eq!(last(ints(&[4, 5])), integer(5));
    assert_eq!(last(ints(&[])), error("Array is empty"));
    assert_eq!(
        chars(text("ab")),
        Object::Array(vec![Object::Char('a'), Object::Char('b')])
    );
    assert_eq!(
        chars(integer(1)),
        error("Integer does not have any associated function chars()")
    );
    assert_eq!(
        split(text("a,b,,c"), text(",")),
        Object::Array(vec![text("a"), text("b"), text(""), text("c")])
    );
    assert_eq!(
        split(text("aaa"), text("aa")),
        Object::Array(vec![text(""), text("a")])
    );
    assert_eq!(
        split(text("abc"), text("")),
        Object::Array(vec![text(""), text("a"), text("b"), text("c"), text("")])
    );
    assert_eq!(
        split(text(""), text("")),
        Object::Array(vec![text(""), text("")])
    );
    assert_eq!(split(text(""), text(",")), Object::Array(vec![text("")]));
    assert_eq!(
        split(text(",a,"), text(",")),
        Object::Array(vec![text(""), text("a"), text("")])
    );
    assert_eq!(
        split(text("a--b-c"), text("--")),
        Object::Array(vec![text("a"), text("b-c")])
    );
    assert_eq!(
        split(text("a b"), Object::Char(' ')),
        Object::Array(vec![text("a"), text("b")])
    );
    assert_eq!(
        split(text("a b"), integer(1)),
        error("Expected String or character, got Integer")
    );
    assert_eq!(
        split(integer(1), text(",")),
        error("Integer does not have any associated function first()")
    );
    assert_eq!(append(ints(&[1]), integer(2)), ints(&[1, 2]));
    assert_eq!(append(ints(&[1]), ints(&[2, 3])), ints(&[1, 2, 3]));
    assert_eq!(append(integer(1), integer(2)), error("Expected an array, Got Integer"));
}

#[test]
fn stripping() {
    assert_eq!(strip_start(text("abcd"), text("ab")), text("cd"));
    assert_eq!(strip_start(text("abcd"), text("cd")), text("abcd"));
    assert_eq!(strip_start(text("abcd"), integer(1)), text("bcd"));
    assert_eq!(strip_start(text("abcd"), integer(4)), text(""));
    assert_eq!(strip_start(text("abcd"), integer(5)), error("Index out of range"));
    assert_eq!(strip_start(text("héllo"), integer(1)), text("éllo"));
    assert_eq!(strip_start(text("héllo"), integer(3)), text("llo"));
    assert_eq!(strip_start(text("héllo"), integer(2)), error("Index out of range"));
    assert_eq!(strip_start(text("héllo"), len(text("héllo"))), text(""));
    assert_eq!(strip_end(text("héllo"), integer(3)), text("hé"));
    assert_eq!(strip_end(text("héllo"), integer(4)), error("Index out of range"));
    assert_eq!(strip_end(text("héllo"), integer(6)), text(""));
    assert_eq!(strip_end(text("héllo"), integer(0)), text("héllo"));
    assert_eq!(strip_start(text("abcd"), integer(-1)), error("Index out of range"));
    assert_eq!(
        strip_start(text("abcd"), Object::Null),
        error("String cannot be stripped from a String")
    );
    assert_eq!(strip_start(ints(&[1, 2, 3]), ints(&[1, 2])), ints(&[3]));
    assert_eq!(strip_start(ints(&[1, 2, 3]), ints(&[2])), ints(&[1, 2, 3]));
    assert_eq!(
        strip_start(ints(&[1]), ints(&[1, 2])),
        ints(&[1])
    );
    assert_eq!(strip_start(ints(&[1, 2, 3]), integer(2)), ints(&[3]));
    assert_eq!(
        strip_start(ints(&[1]), Object::Null),
        error("Array cannot be stripped from an Array")
    );
    assert_eq!(
        strip_start(integer(1), integer(1)),
        error("No associated function strip_start() for Integer")
    );
    assert_eq!(strip_end(text("abcd"), text("cd")), text("ab"));
    assert_eq!(strip_end(text("abcd"), text("ab")), text("abcd"));
    assert_eq!(strip_end(text("abcd"), integer(1)), text("abc"));
    assert_eq!(strip_end(text("abcd"), integer(5)), error("Index out of range"));
    assert_eq!(
        strip_end(text("abcd"), Object::Null),
        error("String cannot be stripped from a ")
    );
    assert_eq!(strip_end(ints(&[1, 2, 3]), ints(&[2, 3])), ints(&[1]));
    assert_eq!(strip_end(ints(&[1, 2, 3]), ints(&[2])), ints(&[1, 2, 3]));
    assert_eq!(strip_end(ints(&[1, 2, 3]), integer(2)), ints(&[1, 2]));
    assert_eq!(strip_end(ints(&[1, 2, 3]), integer(4)), error("Index out of range"));
    assert_eq!(
        strip_end(Object::Null, integer(1)),
        error("No associated function strip_start() for NULL")
    );
}

#[test]
fn writing_collects_lines() {
    let mut eval = Eval::new();
    assert_eq!(
        run_in(
            &mut eval,
            "writeln(1); writeln(\"two\"); writeln([1, 'c', true]); writeln({1: \"x\"})"
        ),
        Object::Null
    );
    assert_eq!(
        eval.take_output(),
        vec!["1", "two", "[1, c, true]", "{ 1: x }"]
    );
    assert_eq!(eval.take_output(), Vec::<String>::new());
    assert_eq!(base::write(Object::Null), "NULL");
    assert_eq!(base::write(error("bad")), "Err => bad");
    assert_eq!(base::write(Object::Builtin(BuiltinFunction::Len)), "Builtin len");
    assert_eq!(base::write(Object::Return(Box::new(integer(-3)))), "-3");
    assert_eq!(
        run("fn(a, b) { a }").to_string(),
        "fn(Ident 'a', Ident 'b') {\nIdent 'a'\n\n}"
    );
    assert_eq!(base::write(integer(i64::MIN)), "-9223372036854775808");
}

#[test]
fn reading_takes_the_lines_in_order() {
    let mut eval = Eval::new();
    eval.feed_input("first".into());
    eval.feed_input("second".into());
    assert_eq!(run_in(&mut eval, "read(\"a\"); read(\"b\"); a + b"), text("firstsecond"));
    assert_eq!(
        run_in(&mut eval, "read(\"c\")"),
        error("Failed to read from stdin")
    );
    eval.feed_input("12".into());
    assert_eq!(run_in(&mut eval, "read(1)"), error("Couldn't find variable"));
    assert_eq!(read(integer(0), "12".into()), integer(12));
    assert_eq!(read(integer(0), "12\n".into()), error("Expected an integer"));
    assert_eq!(read(integer(0), "+12".into()), integer(12));
    assert_eq!(read(integer(0), "-12".into()), integer(-12));
    assert_eq!(read(integer(0), "".into()), error("Expected an integer"));
    assert_eq!(read(integer(0), "-".into()), error("Expected an integer"));
    assert_eq!(
        read(integer(0), "9223372036854775808".into()),
        error("Expected an integer")
    );
    assert_eq!(read(integer(0), "-9223372036854775808".into()), integer(i64::MIN));
    assert_eq!(read(Object::Char('a'), "x".into()), Object::Char('x'));
    assert_eq!(
        read(Object::Char('a'), "é".into()),
        error("More than one characters received")
    );
    assert_eq!(
        read(Object::Char('a'), "".into()),
        error("More than one characters received")
    );
    assert_eq!(
        read(Object::Char('a'), "xy".into()),
        error("More than one characters received")
    );
    assert_eq!(read(text(""), "line\n".into()), text("line\n"));
    assert_eq!(
        read(Object::Float("0.0".into()), "1.5".into()),
        Object::Float("1.5".into())
    );
    assert_eq!(
        read(Object::Float("0.0".into()), "x".into()),
        error("Expected a floating point number")
    );
    assert_eq!(
        read(Object::Null, "x".into()),
        error("No associated function read() for NULL")
    );
}

#[test]
fn sources_are_evaluated_in_the_scope_in_use() {
    let mut eval = Eval::new();
    eval.load_source("lib/math".into(), "let double = fn(x) { x * 2 }; 1".into());
    assert_eq!(
        run_in(&mut eval, "source \"lib/math\"; double(21)"),
        integer(42)
    );
    assert_eq!(
        run_in(&mut eval, "source \"lib/none\";"),
        error("Couldn't find lib/none")
    );
    eval.load_source("lib/math".into(), "let double = fn(x) { x + x + 1 }; 1".into());
    assert_eq!(
        run_in(&mut eval, "source \"lib/math\"; double(21)"),
        integer(43)
    );
    eval.load_source("bad".into(), "let = 1; let z = 3;".into());
    assert_eq!(run_in(&mut eval, "source \"bad\"; z"), integer(3));
    let written = eval.take_output();
    assert_eq!(written.len(), 2);
    assert!(written[0].starts_with("Expected Ident()"));
    eval.load_source("loop".into(), "source \"loop\";".into());
    eval.set_depth_limit(20);
    assert_eq!(
        run_in(&mut eval, "source \"loop\";"),
        error("Maximum call depth exceeded")
    );
}

#[test]
fn the_scope_of_an_evaluator_lasts() {
    let mut eval = Eval::default();
    assert_eq!(run_in(&mut eval, "let x = 5;"), Object::Null);
    assert_eq!(run_in(&mut eval, "x + 1"), integer(6));
    assert_eq!(run_in(&mut eval, "let f = fn() { x };"), Object::Null);
    assert_eq!(run_in(&mut eval, "let x = 7; f()"), integer(7));
}

#[test]
fn library_functions_by_name() {
    assert_eq!(
        BuiltinFunction::try_builtin("writeln"),
        Some(Object::Builtin(BuiltinFunction::Write))
    );
    assert_eq!(BuiltinFunction::try_builtin("write"), None);
    assert_eq!(
        BuiltinFunction::try_builtin("strip_start"),
        Some(Object::Builtin(BuiltinFunction::StripStart))
    );
    assert_eq!(run("let len = 3; len"), integer(3));
    let mut eval = Eval::new();
    assert_eq!(
        BuiltinFunction::Len.apply(vec![text("abc")], &mut eval),
        integer(3)
    );
    assert_eq!(
        BuiltinFunction::Write.apply(vec![integer(1)], &mut eval),
        Object::Null
    );
    assert_eq!(eval.take_output(), vec!["1"]);
}

#[test]
fn scopes_bind_and_rebind() {
    let mut env = Environment::new();
    assert_eq!(env.get_here("x"), None);
    env.upsert("x".into(), integer(1));
    env.upsert("y".into(), integer(2));
    env.upsert("x".into(), integer(3));
    assert_eq!(env.get_here("x"), Some(integer(3)));
    assert_eq!(env.get_here("y"), Some(integer(2)));
    assert_eq!(env.store.len(), 2);
    assert_eq!(env.outer_env, None);
    assert_eq!(Environment::new_enclosed_env(4).outer_env, Some(4));
}

#[test]
fn values_alike_and_copied() {
    let nested = Object::Array(vec![
        integer(1),
        Object::HashLiteral(vec![(text("k"), Object::Char('v'))]),
        Object::Return(Box::new(Object::Null)),
    ]);
    assert!(nested.same_as(&nested.clone()));
    assert_eq!(nested.clone(), nested);
    assert!(!nested.same_as(&ints(&[1])));
    assert!(!integer(1).same_as(&text("1")));
    let function = run("fn(x) { x }");
    assert!(!function.same_as(&function.clone()));
    assert!(integer(1).same_key(&integer(1)));
    assert!(!ints(&[1]).same_key(&ints(&[1])));
    assert!(integer(1).hashable());
    assert!(!Object::Null.hashable());
    assert!(error("x").errored());
    assert_eq!(nested.kind(), "Array");
    assert_eq!(
        Eval::index_into(&ints(&[7, 8]), &integer(1)),
        integer(8)
    );
}

#[test]
fn operators_hand_an_error_on() {
    let bad = error("bad");
    let worse = error("worse");
    assert_eq!(Eval::eval_prefix(&op(TokenKind::Bang), &bad), bad);
    assert_eq!(Eval::eval_prefix(&op(TokenKind::Minus), &bad), bad);
    assert_eq!(Eval::eval_prefix(&op(TokenKind::Plus), &bad), bad);
    assert_eq!(Eval::eval_bang_expr(&bad), bad);
    assert_eq!(Eval::eval_minus_expr(&bad), bad);
    assert_eq!(
        Eval::eval_infix(&op(TokenKind::Plus), bad.clone(), integer(1)),
        bad
    );
    assert_eq!(
        Eval::eval_infix(&op(TokenKind::Plus), integer(1), bad.clone()),
        bad
    );
    assert_eq!(
        Eval::eval_infix(&op(TokenKind::Plus), bad.clone(), worse.clone()),
        bad
    );
    assert_eq!(Eval::index_into(&bad, &integer(0)), bad);
    assert_eq!(Eval::index_into(&ints(&[1]), &bad), bad);
    assert_eq!(Eval::index_into(&Object::HashLiteral(vec![]), &bad), bad);
    assert_eq!(Eval::index_into(&bad, &worse), bad);
}

#[test]
fn a_lookup_walks_outward_and_takes_the_innermost() {
    let mut outer = Environment::new();
    outer.upsert("x".into(), integer(1));
    outer.upsert("y".into(), integer(3));
    let scopes = vec![outer];
    let mut inner = Environment::new_enclosed_env(0);
    inner.upsert("x".into(), integer(2));
    assert_eq!(inner.get("x", &scopes), Some(integer(2)));
    assert_eq!(inner.get("y", &scopes), Some(integer(3)));
    assert_eq!(inner.get("z", &scopes), None);
    assert_eq!(scopes[0].get("x", &scopes), Some(integer(1)));
    assert_eq!(inner.get_here("y"), None);
    assert_eq!(inner.store.len(), 1);
    assert_eq!(scopes[0].store.len(), 2);

    let scopes = vec![scopes.into_iter().next().unwrap(), inner];
    assert_eq!(Environment::lookup(&scopes, 1, "x"), Some(integer(2)));
    assert_eq!(Environment::lookup(&scopes, 1, "y"), Some(integer(3)));
    assert_eq!(Environment::lookup(&scopes, 1, "z"), None);
    assert_eq!(Environment::lookup(&scopes, 0, "x"), Some(integer(1)));
    assert_eq!(Environment::lookup(&scopes, 2, "x"), None);
}

#[test]
fn an_evaluator_looks_names_up() {
    let mut eval = Eval::new();
    assert_eq!(run_in(&mut eval, "let x = 5; let f = fn(y) { x + y };"), Object::Null);
    assert_eq!(eval.get("x"), Some(integer(5)));
    assert_eq!(eval.get("y"), None);
    assert!(matches!(eval.get("f"), Some(Object::Function(_))));
}
