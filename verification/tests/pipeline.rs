//! End-to-end checks of the scanner and parser.
use rlok::expression::Expr;
use rlok::lit::LitType;
use rlok::parser::Parser;
use rlok::scanner::Scanner;
use rlok::statement::Statement;
use rlok::tokens::TokenType;

fn parse_source(src: &str) -> Vec<Statement> {
    let mut sc = Scanner::build(src.to_string());
    let tokens = match sc.scan_tokens() {
        Ok(t) => t,
        Err(_) => panic!("scan failed"),
    };
    let p = Parser::new(tokens);
    match p.parse() {
        Ok(s) => s,
        Err(_) => panic!("parse failed"),
    }
}

#[test]
fn scans_single_and_double_tokens() {
    let mut sc = Scanner::build("(){},.-+;*/ != == <= >= < > ! =".to_string());
    let toks = match sc.scan_tokens() {
        Ok(t) => t,
        Err(_) => panic!("scan failed"),
    };
    let kinds: Vec<TokenType> = toks.iter().map(|t| t.ty).collect();
    assert_eq!(
        kinds,
        vec![
            TokenType::LeftParen,
            TokenType::RightParen,
            TokenType::LeftBrace,
            TokenType::RightBrace,
            TokenType::Comma,
            TokenType::Dot,
            TokenType::Minus,
            TokenType::Plus,
            TokenType::Semicolon,
            TokenType::Star,
            TokenType::Slash,
            TokenType::BangEqual,
            TokenType::EqualEqual,
            TokenType::LessEqual,
            TokenType::GreaterEqual,
            TokenType::Less,
            TokenType::Greater,
            TokenType::Bang,
            TokenType::Equal,
            TokenType::Eof,
        ]
    );
}

#[test]
fn scans_keywords_idents_numbers_strings() {
    let mut sc = Scanner::build("var x = 12.5; print \"hi\";".to_string());
    let toks = match sc.scan_tokens() {
        Ok(t) => t,
        Err(_) => panic!("scan failed"),
    };
    assert_eq!(toks[0].ty, TokenType::Var);
    assert_eq!(toks[1].ty, TokenType::Ident);
    assert_eq!(toks[1].lexeme, "x");
    assert_eq!(toks[2].ty, TokenType::Equal);
    assert_eq!(toks[3].ty, TokenType::NumberLit);
    assert_eq!(toks[3].literal.as_deref(), Some("12.5"));
    assert_eq!(toks[5].ty, TokenType::Print);
    assert_eq!(toks[6].ty, TokenType::StringLit);
    assert_eq!(toks[6].literal.as_deref(), Some("hi"));
}

#[test]
fn scanner_reports_unterminated_string() {
    let mut sc = Scanner::build("\"oops".to_string());
    let err = match sc.scan_tokens() {
        Ok(_) => panic!("expected an error"),
        Err(e) => e,
    };
    assert!(matches!(
        err,
        rlok::error_handler::ScannerError::UnterminatedString { line: 1 }
    ));
}

#[test]
fn scanner_reports_unexpected_character() {
    let mut sc = Scanner::build("@".to_string());
    let err = match sc.scan_tokens() {
        Ok(_) => panic!("expected an error"),
        Err(e) => e,
    };
    assert!(matches!(
        err,
        rlok::error_handler::ScannerError::UnexpectedCharacter { line: 1, ch: '@' }
    ));
}

#[test]
fn parses_arithmetic_with_precedence() {
    let stmts = parse_source("print 1 + 2 * 3;");
    assert_eq!(stmts.len(), 1);
    match &stmts[0] {
        Statement::Print { expression, .. } => match expression {
            Expr::Binary { operator, right, .. } => {
                assert_eq!(operator.ty, TokenType::Plus);
                assert!(matches!(**right, Expr::Binary { .. }));
            }
            other => panic!("expected binary, got {:?}", kind_name(other)),
        },
        _ => panic!("expected print statement"),
    }
}

#[test]
fn parses_for_into_while_desugaring() {
    let stmts = parse_source("for (var i = 0; i < 3; i = i + 1) print i;");
    assert_eq!(stmts.len(), 1);
    match &stmts[0] {
        Statement::Block { statements, .. } => {
            assert_eq!(statements.len(), 2);
            assert!(matches!(statements[0], Statement::Var { .. }));
            assert!(matches!(statements[1], Statement::While { .. }));
        }
        _ => panic!("expected desugared block"),
    }
}

#[test]
fn parse_rejects_bad_assignment_target() {
    let mut sc = Scanner::build("1 = 2;".to_string());
    let tokens = match sc.scan_tokens() {
        Ok(t) => t,
        Err(_) => panic!("scan failed"),
    };
    let p = Parser::new(tokens);
    let err = match p.parse() {
        Ok(_) => panic!("expected an error"),
        Err(e) => e,
    };
    assert!(matches!(
        err,
        rlok::error_handler::ParserError::InvalidAssignmentTarget { line: 1 }
    ));
}

#[test]
fn number_literals_parse_to_binary32() {
    let stmts = parse_source("7;");
    match &stmts[0] {
        Statement::Expression { expression, .. } => match expression {
            Expr::Literal { value: Some(LitType::Number(bits)), .. } => {
                assert_eq!(*bits, 7.0f32.to_bits());
            }
            _ => panic!("expected number literal"),
        },
        _ => panic!("expected expression statement"),
    }
}

fn kind_name(e: &Expr) -> &'static str {
    match e {
        Expr::Binary { .. } => "binary",
        Expr::Grouping { .. } => "grouping",
        Expr::Literal { .. } => "literal",
        Expr::Unary { .. } => "unary",
        Expr::Variable { .. } => "variable",
        Expr::Assign { .. } => "assign",
        Expr::Logical { .. } => "logical",
        Expr::Call { .. } => "call",
    }
}

fn parse_error_of(src: &str) -> rlok::error_handler::ParserError {
    let mut sc = Scanner::build(src.to_string());
    let tokens = match sc.scan_tokens() {
        Ok(t) => t,
        Err(_) => panic!("scan failed"),
    };
    let p = Parser::new(tokens);
    match p.parse() {
        Ok(_) => panic!("expected a parse error"),
        Err(e) => e,
    }
}

#[test]
fn missing_if_condition_is_named() {
    assert!(matches!(
        parse_error_of("if x;"),
        rlok::error_handler::ParserError::MissingIfCondition { line: 1 }
    ));
}

#[test]
fn missing_then_branch_is_named() {
    assert!(matches!(
        parse_error_of("if (true)"),
        rlok::error_handler::ParserError::MissingThenBranch { line: 1 }
    ));
}

#[test]
fn while_missing_condition_is_named() {
    assert!(matches!(
        parse_error_of("while x;"),
        rlok::error_handler::ParserError::WhileMissingCondition { line: 1 }
    ));
}

#[test]
fn while_missing_body_is_named() {
    assert!(matches!(
        parse_error_of("while (true)"),
        rlok::error_handler::ParserError::WhileMissingBody { line: 1 }
    ));
}

#[test]
fn logic_and_missing_right_is_named() {
    assert!(matches!(
        parse_error_of("1 and"),
        rlok::error_handler::ParserError::LogicAndMissingRight { line: 1 }
    ));
}

#[test]
fn logic_or_missing_right_is_named() {
    assert!(matches!(
        parse_error_of("1 or"),
        rlok::error_handler::ParserError::LogicOrMissingRight { line: 1 }
    ));
}

#[test]
fn var_missing_initializer_is_named() {
    assert!(matches!(
        parse_error_of("var x ="),
        rlok::error_handler::ParserError::VarMissingExpr { line: 1 }
    ));
}

#[test]
fn print_missing_expression_is_named() {
    assert!(matches!(
        parse_error_of("print"),
        rlok::error_handler::ParserError::PrintNoExpression { line: 1 }
    ));
}

#[test]
fn assignment_missing_right_side_is_named() {
    assert!(matches!(
        parse_error_of("x ="),
        rlok::error_handler::ParserError::UnexpectedAssignmentTarget { line: 1 }
    ));
}

#[test]
fn too_many_arguments_is_named() {
    let mut source = String::from("f(");
    for _ in 0..256 {
        source.push_str("1,");
    }
    source.push_str("1);");
    assert!(matches!(
        parse_error_of(&source),
        rlok::error_handler::ParserError::TooManyArguments { .. }
    ));
}
