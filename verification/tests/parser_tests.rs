use lace::lexer::token::kind::{LiteralKind, TokenKind};
use lace::lexer::token::span::{dummy_span, Span};
use lace::lexer::token::{dummy_token, Token};
use lace::lexer::Lexer;
use lace::parser::ast::nodes::{
    ArrayLiteral, ConditionalOperator, FunctionCall, FunctionLiteral, HashLiteral, IdentNode,
    IndexAccess, InfixOperator, PrefixOperator, PrimitiveNode,
};
use lace::parser::ast::statement::{
    BlockStatement, LetStatement, ReturnStatement, SourceStatement, Statement,
};
use lace::parser::ast::{Expression, Precedence};
use lace::parser::diagnostics::{caret_line, digits};
use lace::parser::errors::{
    BadExpectations, CondIssue, ExpectedIdent, ExpectedNumber, ExprError, FuncError, FuncIssue,
    IncompleteConditional, NoPrefixParser, NumKind, ParseError, ParserError, UnterminatedKind,
    UnterminatedLiteral,
};
use lace::parser::Parser;
use std::rc::Rc;

pub fn validate_parser(input: &str, expected_statemets: Vec<Statement>) {
    let lexer = Lexer::new(input.into());
    let mut parser = Parser::new(lexer);
    let program = parser.parse_program();

    assert_eq!(check_parser_errors(&parser), 0);

    assert_eq!(program.statements.len(), expected_statemets.len());

    for (i, expected) in expected_statemets.iter().enumerate() {
        println!("{} | {:?} | {:?} ", i, expected, program.statements[i]);
        assert_eq!(program.statements[i], *expected);
    }
}

fn check_parser_errors(parser: &Parser) -> usize {
    if !parser.errors.is_empty() {
        println!("Parser has {} errors:", parser.errors.len());
        for error in parser.errors.iter() {
            println!("{}", error.emit_err());
        }
    }

    parser.errors.len()
}

fn parse(input: &str) -> (Vec<Statement>, Vec<ParseError>) {
    let mut parser = Parser::new(Lexer::new(input.into()));
    let program = parser.parse_program();
    (program.statements, parser.errors)
}

fn parse_one(input: &str) -> Expression {
    let (mut statements, errors) = parse(input);
    assert_eq!(errors, vec![]);
    assert_eq!(statements.len(), 1);
    match statements.remove(0) {
        Statement::Expression(e) => e,
        other => panic!("not an expression: {:?}", other),
    }
}

fn ident(label: &str) -> IdentNode {
    IdentNode {
        token: dummy_token(TokenKind::Ident {
            label: label.into(),
        }),
        label: label.to_string(),
    }
}

fn name(label: &str) -> Expression {
    Expression::Identifier(ident(label))
}

fn integer(i: i64) -> Expression {
    Expression::Primitive(PrimitiveNode::IntegerLiteral(i))
}

fn binary(op: TokenKind, left: Expression, right: Expression) -> Expression {
    Expression::Binary(InfixOperator::new(dummy_token(op), left, right))
}

fn exprs(statements: Vec<Expression>) -> BlockStatement {
    BlockStatement {
        statements: statements.into_iter().map(Statement::Expression).collect(),
    }
}

#[test]
fn will_you_parse_let() {
    println!("Hello");
    let input = r#"
        let x = 5;
        let y = 10;
        let flag = false;
        let foobar = y;
    "#;

    let expected_statemets = vec![
        Statement::Assignment(LetStatement {
            name: IdentNode {
                token: dummy_token(TokenKind::Ident { label: "x".into() }),
                label: "x".to_string(),
            },
            val: Expression::Primitive(PrimitiveNode::IntegerLiteral(5)),
        }),
        Statement::Assignment(LetStatement {
            name: IdentNode {
                token: dummy_token(TokenKind::Ident { label: "y".into() }),
                label: "y".to_string(),
            },
            val: Expression::Primitive(PrimitiveNode::IntegerLiteral(10)),
        }),
        Statement::Assignment(LetStatement {
            name: IdentNode {
                token: dummy_token(TokenKind::Ident {
                    label: "flag".to_string(),
                }),
                label: "flag".to_string(),
            },
            val: Expression::Primitive(PrimitiveNode::BooleanLiteral(false)),
        }),
        Statement::Assignment(LetStatement {
            name: IdentNode {
                token: dummy_token(TokenKind::Ident {
                    label: "foobar".to_string(),
                }),
                label: "foobar".to_string(),
            },
            val: Expression::Identifier(IdentNode {
                token: dummy_token(TokenKind::Ident {
                    label: "y".to_string(),
                }),
                label: "y".to_string(),
            }),
        }),
    ];

    validate_parser(input, expected_statemets);
}

#[test]
fn will_you_parse_source() {
    let input = r#"
        let x = 5;
        source "path/to/source";
        let y = 10;
    "#;
    let expected_statemets = vec![
        Statement::Assignment(LetStatement {
            name: IdentNode {
                token: dummy_token(TokenKind::Ident { label: "x".into() }),
                label: "x".to_string(),
            },
            val: Expression::Primitive(PrimitiveNode::IntegerLiteral(5)),
        }),
        Statement::Source(SourceStatement {
            path: String::from("path/to/source"),
        }),
        Statement::Assignment(LetStatement {
            name: IdentNode {
                token: dummy_token(TokenKind::Ident { label: "y".into() }),
                label: "y".to_string(),
            },
            val: Expression::Primitive(PrimitiveNode::IntegerLiteral(10)),
        }),
    ];

    validate_parser(input, expected_statemets)
}

#[test]
fn multiplication_binds_tighter_than_addition() {
    assert_eq!(
        parse_one("1 + 2 * 3"),
        binary(
            TokenKind::Plus,
            integer(1),
            binary(TokenKind::Asterisk, integer(2), integer(3))
        )
    );
}

#[test]
fn parentheses_group() {
    assert_eq!(
        parse_one("(1 + 2) * 3"),
        binary(
            TokenKind::Asterisk,
            binary(TokenKind::Plus, integer(1), integer(2)),
            integer(3)
        )
    );
}

#[test]
fn subtraction_associates_to_the_left() {
    assert_eq!(
        parse_one("1 - 2 - 3"),
        binary(
            TokenKind::Minus,
            binary(TokenKind::Minus, integer(1), integer(2)),
            integer(3)
        )
    );
}

#[test]
fn comparison_binds_as_tightly_as_an_index() {
    assert_eq!(
        parse_one("1 + 2 < 3"),
        binary(
            TokenKind::Plus,
            integer(1),
            binary(TokenKind::LessThan, integer(2), integer(3))
        )
    );
    assert_eq!(
        parse_one("a == b + 1"),
        binary(
            TokenKind::Equal,
            name("a"),
            binary(TokenKind::Plus, name("b"), integer(1))
        )
    );
}

#[test]
fn prefix_operators_bind_tighter_than_infix_operators() {
    assert_eq!(
        parse_one("-a * !b"),
        binary(
            TokenKind::Asterisk,
            Expression::Unary(PrefixOperator::new(
                dummy_token(TokenKind::Minus),
                name("a")
            )),
            Expression::Unary(PrefixOperator::new(dummy_token(TokenKind::Bang), name("b"))),
        )
    );
}

#[test]
fn calls_and_indexes_extend_an_expression() {
    assert_eq!(
        parse_one("add(1, 2 * 3)[0]"),
        Expression::ArrIndex(IndexAccess {
            arr: Box::new(Expression::FunctionCall(FunctionCall {
                function: Box::new(name("add")),
                args: vec![integer(1), binary(TokenKind::Asterisk, integer(2), integer(3))],
            })),
            index: Box::new(integer(0)),
        })
    );
    assert_eq!(
        parse_one("f()"),
        Expression::FunctionCall(FunctionCall {
            function: Box::new(name("f")),
            args: vec![],
        })
    );
}

#[test]
fn literals_of_every_kind() {
    assert_eq!(
        parse_one("[1, 'c', \"s\", true, 2.5]"),
        Expression::Array(ArrayLiteral {
            elements: vec![
                integer(1),
                Expression::Primitive(PrimitiveNode::CharLiteral('c')),
                Expression::Primitive(PrimitiveNode::StringLiteral("s".into())),
                Expression::Primitive(PrimitiveNode::BooleanLiteral(true)),
                Expression::Primitive(PrimitiveNode::FloatLiteral("2.5".into())),
            ]
        })
    );
    assert_eq!(
        parse_one("{\"a\": 1, 2: [3]}"),
        Expression::HashMapLiteral(HashLiteral {
            pairs: vec![
                (
                    Expression::Primitive(PrimitiveNode::StringLiteral("a".into())),
                    integer(1)
                ),
                (
                    integer(2),
                    Expression::Array(ArrayLiteral {
                        elements: vec![integer(3)]
                    })
                ),
            ]
        })
    );
    assert_eq!(
        parse_one("{}"),
        Expression::HashMapLiteral(HashLiteral { pairs: vec![] })
    );
}

#[test]
fn conditionals_with_and_without_else() {
    assert_eq!(
        parse_one("if (x < y) { x } else { y }"),
        Expression::Conditional(ConditionalOperator {
            cond: Box::new(binary(TokenKind::LessThan, name("x"), name("y"))),
            consequence: exprs(vec![name("x")]),
            alternative: Some(exprs(vec![name("y")])),
        })
    );
    assert_eq!(
        parse_one("if (x) { 1; 2 }"),
        Expression::Conditional(ConditionalOperator {
            cond: Box::new(name("x")),
            consequence: exprs(vec![integer(1), integer(2)]),
            alternative: None,
        })
    );
}

#[test]
fn function_literals_and_their_names() {
    assert_eq!(
        parse_one("fn(x, y) { return x + y; }"),
        Expression::FunctionDef(FunctionLiteral {
            name: None,
            params: Rc::new(vec![ident("x"), ident("y")]),
            body: Rc::new(BlockStatement {
                statements: vec![Statement::Return(ReturnStatement {
                    returnable: binary(TokenKind::Plus, name("x"), name("y")),
                })],
            }),
        })
    );
    assert_eq!(
        parse_one("fn main() { }"),
        Expression::FunctionDef(FunctionLiteral {
            name: Some("main".into()),
            params: Rc::new(vec![]),
            body: Rc::new(BlockStatement { statements: vec![] }),
        })
    );
    let (statements, errors) = parse("let id = fn(x) { x };");
    assert_eq!(errors, vec![]);
    assert_eq!(
        statements,
        vec![Statement::Assignment(LetStatement {
            name: ident("id"),
            val: Expression::FunctionDef(FunctionLiteral {
                name: Some("Ident(id) => 5 to 6 on line 1".into()),
                params: Rc::new(vec![ident("x")]),
                body: Rc::new(exprs(vec![name("x")])),
            }),
        })]
    );
}

#[test]
fn one_malformed_statement_is_recorded_and_left_out() {
    let (statements, errors) = parse("let a = 1; let b = ; let c = 3;");
    assert_eq!(
        errors,
        vec![ParseError::NoPrefix(NoPrefixParser {
            token: dummy_token(TokenKind::Semicolon)
        })]
    );
    assert_eq!(
        statements,
        vec![
            Statement::Assignment(LetStatement {
                name: ident("a"),
                val: integer(1)
            }),
            Statement::Assignment(LetStatement {
                name: ident("c"),
                val: integer(3)
            }),
        ]
    );
}

#[test]
fn parsing_resumes_at_the_token_after_an_error() {
    let (statements, errors) = parse("let = 5; 7");
    assert_eq!(
        errors,
        vec![
            ParseError::Expectation(BadExpectations::new(
                dummy_token(TokenKind::Ident {
                    label: String::new()
                }),
                dummy_token(TokenKind::Assign),
            )),
            ParseError::NoPrefix(NoPrefixParser {
                token: dummy_token(TokenKind::Assign)
            }),
        ]
    );
    assert_eq!(
        statements,
        vec![Statement::Expression(integer(5)), Statement::Expression(integer(7))]
    );
}

#[test]
fn each_missing_delimiter_of_a_conditional_has_its_error() {
    let issue = |input: &str| {
        let (_, errors) = parse(input);
        match errors.last() {
            Some(ParseError::Conditional(e)) => e.issue,
            other => panic!("{:?}", other),
        }
    };
    assert_eq!(issue("if x"), CondIssue::ExprIncorrectlyOpened);
    assert_eq!(issue("if (x"), CondIssue::ExprIncorrectlyClosed);
    assert_eq!(issue("if (x)"), CondIssue::BodyIncorrectlyOpened);
    assert_eq!(issue("if (x) { } else"), CondIssue::ExpectedElse);
}

#[test]
fn a_missing_delimiter_is_also_recorded_as_an_expectation() {
    let (_, errors) = parse("if (x");
    assert_eq!(errors.len(), 2);
    assert_eq!(
        errors[0].emit_err(),
        "Expected Rparen => EOF, found Eof => 6 on line 1"
    );
    assert_eq!(
        errors[1],
        ParseError::Conditional(IncompleteConditional::new(
            Span {
                start_line: 1,
                end_line: 1,
                start_col: 0,
                end_col: 2
            },
            CondIssue::ExprIncorrectlyClosed,
            Some(Span {
                start_line: 1,
                end_line: 1,
                start_col: 5,
                end_col: 6
            }),
            4,
        ))
    );
}

#[test]
fn function_literal_errors() {
    let issue = |input: &str| {
        let (_, errors) = parse(input);
        match errors.last() {
            Some(ParseError::Func(e)) => e.issue,
            other => panic!("{:?}", other),
        }
    };
    assert_eq!(issue("fn x"), FuncIssue::FuncMissingParens);
    assert_eq!(issue("fn (a, b"), FuncIssue::DefIncorrectlyClosed);
    assert_eq!(issue("fn (a) 1"), FuncIssue::BodyIncorrectlyOpened);
    let (_, errors) = parse("fn (a, 1) { }");
    assert!(matches!(errors[0], ParseError::Ident(_)));
}

#[test]
fn literal_errors() {
    let (_, errors) = parse("99999999999999999999");
    assert_eq!(
        errors,
        vec![ParseError::Number(ExpectedNumber::new(
            NumKind::Int,
            "99999999999999999999".into()
        ))]
    );
    let (_, errors) = parse("1.2.3");
    assert_eq!(
        errors,
        vec![ParseError::Number(ExpectedNumber::new(
            NumKind::Float,
            "1.2.3".into()
        ))]
    );
    let (_, errors) = parse("let s = \"open");
    assert_eq!(
        errors,
        vec![ParseError::Unterminated(UnterminatedLiteral::from(
            UnterminatedKind::Str
        ))]
    );
    let (_, errors) = parse("'ab");
    assert_eq!(
        errors[0],
        ParseError::Unterminated(UnterminatedLiteral::from(UnterminatedKind::Char))
    );
    assert_eq!(parse_one("9223372036854775807"), integer(i64::MAX));
}

#[test]
fn unclosed_lists_and_groups() {
    let (_, errors) = parse("[1, 2");
    assert!(matches!(errors.last(), Some(ParseError::Expr(_))));
    let (_, errors) = parse("(1 + 2");
    assert!(matches!(errors.last(), Some(ParseError::Expr(_))));
    let (_, errors) = parse("f(1,");
    assert!(matches!(errors.last(), Some(ParseError::NoPrefix(_))));
}

#[test]
fn source_takes_a_string_only() {
    let (statements, errors) = parse("source 5;");
    assert_eq!(statements, vec![]);
    assert_eq!(errors.len(), 1);
    assert!(matches!(errors[0], ParseError::Expectation(_)));
}

#[test]
fn error_messages_and_places() {
    let token = Token {
        kind: TokenKind::RParen,
        span: Span {
            start_line: 2,
            end_line: 2,
            start_col: 4,
            end_col: 5,
        },
    };
    let error = NoPrefixParser {
        token: token.clone(),
    };
    assert_eq!(error.emit_err(), "\tEncountered an illegal token Rparen");
    assert_eq!(error.range(), (2, 2));
    assert_eq!(error.width(), (4, 5));
    assert_eq!(error.err_head(), "\x1b[94m--> At 2:5\x1b[0m");
    assert!(error.check_false_illegal());

    let start = Span {
        start_line: 1,
        end_line: 1,
        start_col: 3,
        end_col: 5,
    };
    let end = Span {
        start_line: 2,
        end_line: 2,
        start_col: 0,
        end_col: 7,
    };
    let cond = IncompleteConditional::new(start, CondIssue::ExpectedElse, Some(end), 9);
    assert_eq!(
        cond.emit_err(),
        "\tExpected an Else block for this conditional expression."
    );
    assert_eq!(cond.range(), (1, 2));
    assert_eq!(cond.width(), (2, 7));
    assert_eq!(cond.err_head(), "\x1b[94m--> At 2:9\x1b[0m");
    let closed = IncompleteConditional::new(start, CondIssue::ExprIncorrectlyClosed, None, 9);
    assert_eq!(closed.width(), (3, 5));
    assert_eq!(closed.range(), (1, 1));

    let func = FuncError::new(start, FuncIssue::BodyIncorrectlyOpened, Some(end), 1);
    assert_eq!(func.emit_err(), "\tFunction body wasn't opened properly");
    assert_eq!(func.width(), (2, 10));
    let func = FuncError::new(dummy_span(), FuncIssue::FuncMissingParens, None, 1);
    assert_eq!(func.width(), (0, 0));

    let expr = ExprError::new(start, None, 0);
    assert_eq!(expr.emit_err(), "Expression did not close properly");
    assert_eq!(expr.range(), (0, 0));
    assert_eq!(expr.err_head(), "");
    assert!(!expr.check_false_illegal());

    let found = ExpectedIdent::from(token.clone());
    assert_eq!(
        found.emit_err(),
        "Expected an identifier, received Rparen => 5 on line 2"
    );
    assert_eq!(found.width(), (2, 2));

    assert_eq!(
        ExpectedNumber::new(NumKind::Float, "1.2.3".into()).emit_err(),
        "Expected a floating point number, received 1.2.3"
    );
    assert_eq!(
        UnterminatedLiteral::from(UnterminatedKind::Char).emit_err(),
        "Unterminated character"
    );
    assert_eq!(
        BadExpectations::new(dummy_token(TokenKind::Comma), token).emit_err(),
        "Expected Comma => EOF, found Rparen => 5 on line 2"
    );
}

#[test]
fn precedence_levels_are_ordered() {
    let levels = [
        Precedence::Lowest,
        Precedence::Equality,
        Precedence::Comparative,
        Precedence::Additive,
        Precedence::Multiplicative,
        Precedence::Prefix,
        Precedence::FnCall,
        Precedence::Index,
    ];
    for (i, low) in levels.iter().enumerate() {
        for (j, high) in levels.iter().enumerate() {
            assert_eq!(low.lower_than(high), i.min(6) < j.min(6));
        }
    }
    assert_eq!(Precedence::FnCall.level(), Precedence::Index.level());
    assert_eq!(Precedence::Prefix.level(), 5);
    assert_eq!(
        Precedence::from(&dummy_token(TokenKind::LessThan)),
        Precedence::Index
    );
    assert_eq!(
        Precedence::from(&dummy_token(TokenKind::Or)),
        Precedence::Additive
    );
    assert_eq!(
        Precedence::from(&dummy_token(TokenKind::Semicolon)),
        Precedence::Lowest
    );
}

#[test]
fn an_operand_is_missing_at_the_end_of_the_text() {
    let (statements, errors) = parse("1 +");
    assert_eq!(statements, vec![]);
    assert_eq!(errors.len(), 1);
    assert!(matches!(errors[0], ParseError::NoPrefix(_)));
    let kind = TokenKind::Literal {
        kind: LiteralKind::Int,
        val: "1".into(),
    };
    assert!(!dummy_token(kind).reached_eof());
}

#[test]
fn trees_render() {
    let render = |input: &str| {
        let (statements, errors) = parse(input);
        assert_eq!(errors, vec![]);
        statements
            .iter()
            .map(|statement| statement.to_string())
            .collect::<Vec<String>>()
    };
    assert_eq!(
        render("let x = 1 + 2; return -x; source \"lib\"; "),
        vec![
            "Let => { Ident 'x' | Assigned | 1 (Int) Infix(Plus => 11 on line 1) 2 (Int) }",
            "return Prefix(Minus => 23 on line 1)Ident 'x';",
            "Source lib",
        ]
    );
    assert_eq!(
        render("[1, 'c', \"s\", true, 2.5][0]; "),
        vec!["Array => Array => { Elements => [ 1 (Int), 'c' (Char), \"s\" (Str), true (Bool), 2.5 (Float) ] } | Index => 0 (Int)"]
    );
    assert_eq!(
        render("f(1, x); {1: 2, 3: 4}; {}; f()"),
        vec![
            "Fn Call Ident 'f' => params { 1 (Int), Ident 'x' }",
            "{ 1 (Int): 2 (Int),3 (Int): 4 (Int) }",
            "{  }",
            "Fn Call Ident 'f' => params {  }",
        ]
    );
    assert_eq!(
        render("if (x) { 1 } else { 2; 3 }"),
        vec!["Conditonal => { condition => Ident 'x' | consequence => {\n1 (Int)\n} | alternative => {\n2 (Int)\n3 (Int)\n} \n}}"]
    );
    assert_eq!(
        render("if (x) { }"),
        vec!["Conditonal => { condition => Ident 'x' | consequence => {\n} \n}}"]
    );
    assert_eq!(
        render("fn(a, b) { a }"),
        vec!["Func\n--> Params => (Ident 'a', Ident 'b')\n-->{\nIdent 'a'\n}"]
    );
    assert_eq!(
        render("fn go() { }"),
        vec!["\nFunc => { Name => go | Params => () | Body => {\n}\n"]
    );
    let mut parser = Parser::new(Lexer::new("1; 2".into()));
    assert_eq!(parser.parse_program().to_string(), "1 (Int)\n2 (Int)\n");
}

#[test]
fn parsing_a_program_takes_every_token() {
    for input in ["let x = 1; x + ", "if (x) { fn(", "}}}", "1 2 3", ""] {
        let mut parser = Parser::new(Lexer::new(input.into()));
        parser.parse_program();
        assert!(parser.curr_token.reached_eof(), "{}", input);
    }
}

#[test]
fn the_sources_that_a_program_includes() {
    let paths = |input: &str| {
        let mut parser = Parser::new(Lexer::new(input.into()));
        parser.parse_program().source_paths()
    };
    assert_eq!(paths("let x = 1; x + 2"), Vec::<String>::new());
    assert_eq!(paths("source \"a\"; source \"b\"; source \"a\"; "), vec!["a", "b", "a"]);
    assert_eq!(
        paths(
            "source \"1\"; let f = fn() { source \"2\"; if (x) { source \"3\"; } else { source \"4\"; } };
             [fn() { source \"5\"; }, {1: fn() { source \"6\"; }}][g(fn() { source \"7\"; })];
             return -fn() { source \"8\"; } + 1; "
        ),
        vec!["1", "2", "3", "4", "5", "6", "7", "8"]
    );
}

struct Plain;

impl ParserError for Plain {
    fn emit_err(&self) -> String {
        String::from("plain")
    }
}

#[test]
fn an_error_without_a_place_tells_its_message_only() {
    let error = Plain;
    assert_eq!(error.emit_err(), "plain");
    assert_eq!(error.range(), (0, 0));
    assert_eq!(error.width(), (0, 0));
    assert_eq!(error.err_head(), "");
    assert!(!error.check_false_illegal());
}

#[test]
fn the_caret_line_points_at_the_columns() {
    assert_eq!(caret_line(2, 5, 8), "  ^^^   ");
    assert_eq!(caret_line(0, 0, 0), "");
    assert_eq!(caret_line(3, 1, 2), "    ");
    assert_eq!(caret_line(0, 2, 1), "^^");
    assert_eq!(digits(0), 1);
    assert_eq!(digits(9), 1);
    assert_eq!(digits(10), 2);
    assert_eq!(digits(12345), 5);
    assert_eq!(digits(usize::MAX), usize::MAX.to_string().len());
}
