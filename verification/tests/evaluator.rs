//! End-to-end checks of the evaluator: the concrete scenarios of the
//! language's laws, each error variant, and the numeric bridge exercised
//! through `print`.
use rlok::error_handler::{LoxError, RuntimeError};
use rlok::interpreter::Interpreter;
use rlok::span::{Span, SpanParser};
use rlok::scanner::Scanner;

const FUEL: u64 = 1_000_000;

fn run_source(src: &str) -> (Vec<String>, Result<(), LoxError>) {
    let mut interp = Interpreter::build();
    let r = interp.run(src.to_string(), FUEL);
    (interp.output.clone(), r)
}

fn expect_output(src: &str, expected: &[&str]) {
    let (out, r) = run_source(src);
    assert!(r.is_ok(), "run failed");
    assert_eq!(out, expected.iter().map(|s| s.to_string()).collect::<Vec<_>>());
}

fn expect_runtime_error(src: &str) -> RuntimeError {
    let (_, r) = run_source(src);
    match r {
        Err(LoxError::Runtime(e)) => e,
        _ => panic!("expected a runtime error"),
    }
}

#[test]
fn arithmetic_precedence() {
    expect_output("print 1 + 2 * 3;", &["7"]);
}

#[test]
fn block_shadowing_prints_inner_then_outer() {
    expect_output(
        "var a = \"outer\";\n{ var a = \"inner\"; print a; }\nprint a;",
        &["inner", "outer"],
    );
}

#[test]
fn while_loop_with_mutation() {
    expect_output("var i = 0;\nwhile (i < 3) { print i; i = i + 1; }", &["0", "1", "2"]);
}

#[test]
fn for_loop_desugars_and_runs() {
    expect_output("for (var i = 0; i < 3; i = i + 1) print i;", &["0", "1", "2"]);
}

#[test]
fn function_call_and_return() {
    expect_output("fun add(a, b) { return a + b; }\nprint add(2, 3);", &["5"]);
}

#[test]
fn undefined_variable_is_a_runtime_error() {
    match expect_runtime_error("print x;") {
        RuntimeError::UndefinedVariable { name, .. } => assert_eq!(name, "x"),
        _ => panic!("expected UndefinedVariable"),
    }
}

#[test]
fn or_short_circuits_on_truthy_left() {
    // boom() would fail on the unbound name; `or` must never reach it.
    expect_output("fun boom() { return nope; }\nprint true or boom();", &["true"]);
}

#[test]
fn and_short_circuits_on_falsy_left() {
    expect_output("fun boom() { return nope; }\nprint false and boom();", &["false"]);
}

#[test]
fn logical_operators_keep_operand_values() {
    expect_output("print nil or \"kept\";\nprint 1 and 2;", &["kept", "2"]);
}

#[test]
fn return_unwinds_only_the_function() {
    expect_output("fun f() { while (true) { return 1; } return 2; }\nprint f();", &["1"]);
}

#[test]
fn arity_mismatch_is_reported() {
    match expect_runtime_error("fun g(a) { return a; }\nprint g(1, 2);") {
        RuntimeError::IncorrectArgumentCount { expected, got } => {
            assert_eq!((expected, got), (1, 2));
        }
        _ => panic!("expected IncorrectArgumentCount"),
    }
}

#[test]
fn closures_capture_their_defining_scope() {
    expect_output(
        "var x = \"global\";\nfun show() { print x; }\n{ var x = \"local\"; show(); }",
        &["global"],
    );
}

#[test]
fn division_by_zero_is_reported() {
    assert!(matches!(expect_runtime_error("print 1 / 0;"), RuntimeError::DivideByZero { .. }));
}

#[test]
fn division_yields_fractions() {
    expect_output("print 7 / 2;", &["3.5"]);
}

#[test]
fn string_concatenation() {
    expect_output("print \"ab\" + \"cd\";", &["abcd"]);
}

#[test]
fn non_plus_on_strings_is_reported() {
    assert!(matches!(
        expect_runtime_error("print \"a\" == \"a\";"),
        RuntimeError::InvalidStringConcat { .. }
    ));
}

#[test]
fn mixed_operands_are_a_type_mismatch() {
    assert!(matches!(
        expect_runtime_error("print 1 + \"a\";"),
        RuntimeError::BinaryTypeMismatch { .. }
    ));
}

#[test]
fn unary_minus_needs_a_number() {
    assert!(matches!(
        expect_runtime_error("print -\"a\";"),
        RuntimeError::UnaryExpects { .. }
    ));
}

#[test]
fn bang_uses_truthiness() {
    expect_output("print !nil;\nprint !0;\nprint !false;", &["true", "false", "true"]);
}

#[test]
fn assignment_writes_the_nearest_binding() {
    expect_output("var x = 1;\n{ x = 2; }\nprint x;", &["2"]);
}

#[test]
fn calling_a_number_is_not_callable() {
    assert!(matches!(expect_runtime_error("1(2);"), RuntimeError::NotCallable { .. }));
}

#[test]
fn numeric_comparisons() {
    expect_output(
        "print 1 < 2;\nprint 2 <= 2;\nprint 3 > 4;\nprint 1 == 1;\nprint 1 != 1;",
        &["true", "true", "false", "true", "false"],
    );
}

#[test]
fn clock_draws_a_queued_reading() {
    let mut interp = Interpreter::build();
    interp.provide_clock_reading(Some(2_000));
    let r = interp.run("print clock();".to_string(), FUEL);
    assert!(r.is_ok());
    assert_eq!(interp.output, vec!["2".to_string()]);
}

#[test]
fn clock_without_a_reading_fails() {
    let (_, r) = run_source("print clock();");
    assert!(matches!(r, Err(LoxError::Runtime(RuntimeError::NativeFunctionError))));
}

#[test]
fn clock_takes_no_arguments() {
    let mut interp = Interpreter::build();
    interp.provide_clock_reading(Some(1_000));
    let r = interp.run("clock(1);".to_string(), FUEL);
    assert!(matches!(
        r,
        Err(LoxError::Runtime(RuntimeError::IncorrectArgumentCount { expected: 0, got: 1 }))
    ));
}

#[test]
fn repl_mode_prints_expression_values() {
    let mut interp = Interpreter::build();
    interp.is_repl = true;
    let r = interp.run("1 + 2;".to_string(), FUEL);
    assert!(r.is_ok());
    assert_eq!(interp.output, vec!["3".to_string()]);
}

#[test]
fn globals_persist_across_run_units() {
    let mut interp = Interpreter::build();
    assert!(interp.run("var x = 40;".to_string(), FUEL).is_ok());
    assert!(interp.run("print x + 2;".to_string(), FUEL).is_ok());
    assert_eq!(interp.output, vec!["42".to_string()]);
}

#[test]
fn fuel_exhaustion_is_reported() {
    let mut interp = Interpreter::build();
    let r = interp.run("while (true) {}".to_string(), 0);
    assert!(matches!(r, Err(LoxError::Runtime(RuntimeError::Exhausted))));
}

#[test]
fn callable_display_forms() {
    expect_output("fun f() { return nil; }\nprint f;\nprint clock;", &["<fn f>", "<native fn>"]);
}

#[test]
fn span_renderer_underlines_the_tokens() {
    let mut sc = Scanner::build("var x = 1;".to_string());
    let tokens = match sc.scan_tokens() {
        Ok(t) => t,
        Err(_) => panic!("scan failed"),
    };
    let mut span = Span::new(0);
    span.set_last(2);
    let rendered = SpanParser::parse(span, &tokens);
    assert_eq!(rendered, "1| var x\n^^^^^ --- Here");
}

#[test]
fn invalid_unary_operator_on_hand_built_tree() {
    // The parser never builds such a node; the evaluator still rejects it.
    let mut interp = Interpreter::build();
    let span = Span::new(0);
    let e = rlok::expression::Expr::Unary {
        span,
        operator: rlok::tokens::Token::new(rlok::tokens::TokenType::Plus, "+".to_string(), None, 1),
        right: Box::new(rlok::expression::Expr::Literal {
            span,
            value: Some(rlok::lit::LitType::Number(1.0f32.to_bits())),
        }),
    };
    let r = interp.evaluate_expr(0, &e, FUEL);
    assert!(matches!(r, Err(RuntimeError::InvalidUnary { .. })));
}

#[test]
fn invalid_numeric_operator_on_hand_built_tree() {
    let mut interp = Interpreter::build();
    let span = Span::new(0);
    let one = rlok::expression::Expr::Literal {
        span,
        value: Some(rlok::lit::LitType::Number(1.0f32.to_bits())),
    };
    let two = rlok::expression::Expr::Literal {
        span,
        value: Some(rlok::lit::LitType::Number(2.0f32.to_bits())),
    };
    let e = rlok::expression::Expr::Binary {
        span,
        left: Box::new(one),
        operator: rlok::tokens::Token::new(rlok::tokens::TokenType::Dot, ".".to_string(), None, 1),
        right: Box::new(two),
    };
    let r = interp.evaluate_expr(0, &e, FUEL);
    assert!(matches!(r, Err(RuntimeError::InvalidNumerical { .. })));
}
