use lace::lexer::token::kind::{LiteralKind, TokenKind};
use lace::lexer::token::span::{dummy_span, Span};
use lace::lexer::token::{dummy_token, Token};
use lace::lexer::Lexer;

fn validate_tokens(input: &str, tokens: Vec<TokenKind>) {
    let mut lexer = Lexer::new(input.into());

    for expected_token_kind in tokens {
        let received_token = lexer.next_token();
        println!(
            "expected: {}, received {}",
            expected_token_kind.to_string(),
            received_token.to_string()
        );
        assert_eq!(expected_token_kind, received_token.kind);
    }
}

fn kinds(input: &str) -> Vec<TokenKind> {
    let mut lexer = Lexer::new(input.into());
    let mut kinds = Vec::new();
    loop {
        let token = lexer.next_token();
        let done = token.reached_eof();
        kinds.push(token.kind);
        if done {
            return kinds;
        }
    }
}

fn ident(label: &str) -> TokenKind {
    TokenKind::Ident {
        label: label.into(),
    }
}

fn integer(val: &str) -> TokenKind {
    TokenKind::Literal {
        kind: LiteralKind::Int,
        val: val.into(),
    }
}

#[test]
fn will_you_lex() {
    let input = "=+(.){},;%";

    let tokens = vec![
        TokenKind::Assign,
        TokenKind::Plus,
        TokenKind::LParen,
        TokenKind::Dot,
        TokenKind::RParen,
        TokenKind::LCurly,
        TokenKind::RCurly,
        TokenKind::Comma,
        TokenKind::Semicolon,
        TokenKind::Modulo,
    ];

    validate_tokens(input, tokens)
}

#[test]
fn will_you_lex_some_code() {
    let input = r#"let five = 5;
        let ten = 10;

        let add = fn(x, y) {
            x + y
        };

        let result = add(five, ten);
        let greet = "Hi, my age is 10";
        let flag = true;
        let ch = 'b';
        let fl = 40.627;
        let ln = greet.len();
        "#;

    let tokens = vec![
        TokenKind::Let,
        TokenKind::Ident {
            label: "five".into(),
        },
        TokenKind::Assign,
        TokenKind::Literal {
            kind: LiteralKind::Int,
            val: String::from("5"),
        },
        TokenKind::Semicolon,
        TokenKind::Let,
        TokenKind::Ident {
            label: "ten".into(),
        },
        TokenKind::Assign,
        TokenKind::Literal {
            kind: LiteralKind::Int,
            val: String::from("10"),
        },
        TokenKind::Semicolon,
        TokenKind::Let,
        TokenKind::Ident {
            label: "add".into(),
        },
        TokenKind::Assign,
        TokenKind::Function,
        TokenKind::LParen,
        TokenKind::Ident { label: "x".into() },
        TokenKind::Comma,
        TokenKind::Ident { label: "y".into() },
        TokenKind::RParen,
        TokenKind::LCurly,
        TokenKind::Ident { label: "x".into() },
        TokenKind::Plus,
        TokenKind::Ident { label: "y".into() },
        TokenKind::RCurly,
        TokenKind::Semicolon,
        TokenKind::Let,
        TokenKind::Ident {
            label: "result".into(),
        },
        TokenKind::Assign,
        TokenKind::Ident {
            label: "add".into(),
        },
        TokenKind::LParen,
        TokenKind::Ident {
            label: "five".into(),
        },
        TokenKind::Comma,
        TokenKind::Ident {
            label: "ten".into(),
        },
        TokenKind::RParen,
        TokenKind::Semicolon,
        TokenKind::Let,
        TokenKind::Ident {
            label: "greet".into(),
        },
        TokenKind::Assign,
        TokenKind::Literal {
            kind: LiteralKind::Str { terminated: true },
            val: String::from("Hi, my age is 10"),
        },
        TokenKind::Semicolon,
        TokenKind::Let,
        TokenKind::Ident {
            label: "flag".into(),
        },
        TokenKind::Assign,
        TokenKind::True,
        TokenKind::Semicolon,
        TokenKind::Let,
        TokenKind::Ident { label: "ch".into() },
        TokenKind::Assign,
        TokenKind::Literal {
            kind: LiteralKind::Char { terminated: true },
            val: String::from("b"),
        },
        TokenKind::Semicolon,
        TokenKind::Let,
        TokenKind::Ident { label: "fl".into() },
        TokenKind::Assign,
        TokenKind::Literal {
            kind: LiteralKind::Float,
            val: String::from("40.627"),
        },
        TokenKind::Semicolon,
        TokenKind::Let,
        TokenKind::Ident { label: "ln".into() },
        TokenKind::Assign,
        TokenKind::Ident {
            label: "greet".into(),
        },
        TokenKind::Dot,
        TokenKind::Ident {
            label: "len".into(),
        },
        TokenKind::LParen,
        TokenKind::RParen,
        TokenKind::Semicolon,
        TokenKind::Eof,
    ];

    validate_tokens(input, tokens)
}

#[test]
fn will_you_lex_more_code() {
    let input = r#"let five = 5;
            let ten = 10;
            let add = fn(x, y) {
                x + y;
            };
            let result = add(five, ten);
        !-/5*;
        5 < 10 > 5;
        if (5 < 10) {
            return true;
        } else {
            return false;
        }

        5 <= 10;
        10 == 10;
        10 != 9;
        "#;

    let tokens = vec![
        TokenKind::Let,
        TokenKind::Ident {
            label: "five".into(),
        },
        TokenKind::Assign,
        TokenKind::Literal {
            kind: LiteralKind::Int,
            val: String::from("5"),
        },
        TokenKind::Semicolon,
        TokenKind::Let,
        TokenKind::Ident {
            label: "ten".into(),
        },
        TokenKind::Assign,
        TokenKind::Literal {
            kind: LiteralKind::Int,
            val: String::from("10"),
        },
        TokenKind::Semicolon,
        TokenKind::Let,
        TokenKind::Ident {
            label: "add".into(),
        },
        TokenKind::Assign,
        TokenKind::Function,
        TokenKind::LParen,
        TokenKind::Ident { label: "x".into() },
        TokenKind::Comma,
        TokenKind::Ident { label: "y".into() },
        TokenKind::RParen,
        TokenKind::LCurly,
        TokenKind::Ident { label: "x".into() },
        TokenKind::Plus,
        TokenKind::Ident { label: "y".into() },
        TokenKind::Semicolon,
        TokenKind::RCurly,
        TokenKind::Semicolon,
        TokenKind::Let,
        TokenKind::Ident {
            label: "result".into(),
        },
        TokenKind::Assign,
        TokenKind::Ident {
            label: "add".into(),
        },
        TokenKind::LParen,
        TokenKind::Ident {
            label: "five".into(),
        },
        TokenKind::Comma,
        TokenKind::Ident {
            label: "ten".into(),
        },
        TokenKind::RParen,
        TokenKind::Semicolon,
        TokenKind::Bang,
        TokenKind::Minus,
        TokenKind::ForwardSlash,
        TokenKind::Literal {
            kind: LiteralKind::Int,
            val: String::from("5"),
        },
        TokenKind::Asterisk,
        TokenKind::Semicolon,
        TokenKind::Literal {
            kind: LiteralKind::Int,
            val: String::from("5"),
        },
        TokenKind::LessThan,
        TokenKind::Literal {
            kind: LiteralKind::Int,
            val: String::from("10"),
        },
        TokenKind::GreaterThan,
        TokenKind::Literal {
            kind: LiteralKind::Int,
            val: String::from("5"),
        },
        TokenKind::Semicolon,
        TokenKind::If,
        TokenKind::LParen,
        TokenKind::Literal {
            kind: LiteralKind::Int,
            val: String::from("5"),
        },
        TokenKind::LessThan,
        TokenKind::Literal {
            kind: LiteralKind::Int,
            val: String::from("10"),
        },
        TokenKind::RParen,
        TokenKind::LCurly,
        TokenKind::Return,
        TokenKind::True,
        TokenKind::Semicolon,
        TokenKind::RCurly,
        TokenKind::Else,
        TokenKind::LCurly,
        TokenKind::Return,
        TokenKind::False,
        TokenKind::Semicolon,
        TokenKind::RCurly,
        TokenKind::Literal {
            kind: LiteralKind::Int,
            val: String::from("5"),
        },
        TokenKind::LessThanEqual,
        TokenKind::Literal {
            kind: LiteralKind::Int,
            val: String::from("10"),
        },
        TokenKind::Semicolon,
        TokenKind::Literal {
            kind: LiteralKind::Int,
            val: String::from("10"),
        },
        TokenKind::Equal,
        TokenKind::Literal {
            kind: LiteralKind::Int,
            val: String::from("10"),
        },
        TokenKind::Semicolon,
        TokenKind::Literal {
            kind: LiteralKind::Int,
            val: String::from("10"),
        },
        TokenKind::NotEqual,
        TokenKind::Literal {
            kind: LiteralKind::Int,
            val: String::from("9"),
        },
        TokenKind::Semicolon,
        TokenKind::Eof,
    ];

    validate_tokens(input, tokens)
}

#[test]
fn will_you_escape() {
    // This test checks for two things
    // Will a character after a backslash be properly excaped
    // Will a backslash after a backslash also be excaped

    let input = r#"
        let msg = "He said, \"Lemons taste good.\"";
        let other = "Escape the \\escape";
    "#;

    let tokens = vec![
        TokenKind::Let,
        TokenKind::Ident {
            label: "msg".into(),
        },
        TokenKind::Assign,
        TokenKind::Literal {
            kind: LiteralKind::Str { terminated: true },
            val: String::from(r#"He said, "Lemons taste good.""#),
        },
        TokenKind::Semicolon,
        TokenKind::Let,
        TokenKind::Ident {
            label: "other".into(),
        },
        TokenKind::Assign,
        TokenKind::Literal {
            kind: LiteralKind::Str { terminated: true },
            val: String::from(r#"Escape the \escape"#),
        },
        TokenKind::Semicolon,
        TokenKind::Eof,
    ];

    validate_tokens(input, tokens)
}

#[test]
fn will_you_lex_a_comment() {
    let input = r#"
        // Hello
        //What is up
        let count = 0; // This is a counter
        count = count + 1;
        /* This is a
block comment */
    "#;

    let tokens = vec![
        TokenKind::LineComment {
            content: " Hello".into(),
        },
        TokenKind::LineComment {
            content: "What is up".into(),
        },
        TokenKind::Let,
        TokenKind::Ident {
            label: "count".into(),
        },
        TokenKind::Assign,
        TokenKind::Literal {
            kind: LiteralKind::Int,
            val: "0".into(),
        },
        TokenKind::Semicolon,
        TokenKind::LineComment {
            content: " This is a counter".into(),
        },
        TokenKind::Ident {
            label: "count".into(),
        },
        TokenKind::Assign,
        TokenKind::Ident {
            label: "count".into(),
        },
        TokenKind::Plus,
        TokenKind::Literal {
            kind: LiteralKind::Int,
            val: "1".into(),
        },
        TokenKind::Semicolon,
        TokenKind::BlockComment {
            content: " This is a\nblock comment ".into(),
            terminated: true,
        },
    ];

    validate_tokens(input, tokens)
}

#[test]
fn detect_unterminated_comment() {
    let input = r#"
        /*This is an
unterminated
block comment"#;

    let tokens = vec![TokenKind::BlockComment {
        content: "This is an\nunterminated\nblock comment".into(),
        terminated: false,
    }];

    validate_tokens(input, tokens)
}

#[test]
fn detect_unterminated_string() {
    let input = r#"let s = "unterm;"#;

    let tokens = vec![
        TokenKind::Let,
        TokenKind::Ident { label: "s".into() },
        TokenKind::Assign,
        TokenKind::Literal {
            kind: LiteralKind::Str { terminated: false },
            val: "unterm".into(),
        },
        TokenKind::Semicolon,
    ];

    validate_tokens(input, tokens)
}

#[test]
fn detect_illegal() {
    let input = "]+!Γ¡É≡ƒÜª";

    let tokens = vec![
        TokenKind::RBracket,
        TokenKind::Plus,
        TokenKind::Bang,
        TokenKind::Illegal { ch: 'Γ' },
        TokenKind::Illegal { ch: '¡' },
    ];

    validate_tokens(input, tokens)
}

#[test]
fn tests_will_you_lex() {
    let input = "=+(){},;%";

    let tokens = vec![
        TokenKind::Assign,
        TokenKind::Plus,
        TokenKind::LParen,
        TokenKind::RParen,
        TokenKind::LCurly,
        TokenKind::RCurly,
        TokenKind::Comma,
        TokenKind::Semicolon,
        TokenKind::Modulo,
    ];

    validate_tokens(input, tokens)
}

#[test]
fn tests_will_you_lex_some_code() {
    let input = r#"let five = 5;
        let ten = 10;

        let add = fn(x, y) {
            x + y
        };

        let result = add(five, ten);
        let greet = "Hi, my age is 10";
        let flag = true;
        "#;

    let tokens = vec![
        TokenKind::Let,
        ident("five"),
        TokenKind::Assign,
        integer("5"),
        TokenKind::Semicolon,
        TokenKind::Let,
        ident("ten"),
        TokenKind::Assign,
        integer("10"),
        TokenKind::Semicolon,
        TokenKind::Let,
        ident("add"),
        TokenKind::Assign,
        TokenKind::Function,
        TokenKind::LParen,
        ident("x"),
        TokenKind::Comma,
        ident("y"),
        TokenKind::RParen,
        TokenKind::LCurly,
        ident("x"),
        TokenKind::Plus,
        ident("y"),
        TokenKind::RCurly,
        TokenKind::Semicolon,
        TokenKind::Let,
        ident("result"),
        TokenKind::Assign,
        ident("add"),
        TokenKind::LParen,
        ident("five"),
        TokenKind::Comma,
        ident("ten"),
        TokenKind::RParen,
        TokenKind::Semicolon,
        TokenKind::Let,
        ident("greet"),
        TokenKind::Assign,
        TokenKind::Literal {
            kind: LiteralKind::Str { terminated: true },
            val: String::from("Hi, my age is 10"),
        },
        TokenKind::Semicolon,
        TokenKind::Let,
        ident("flag"),
        TokenKind::Assign,
        TokenKind::True,
        TokenKind::Semicolon,
        TokenKind::Eof,
    ];

    validate_tokens(input, tokens)
}

#[test]
fn tests_detect_illegal() {
    let input = "]+!⭐🚦";

    let tokens = vec![
        TokenKind::RBracket,
        TokenKind::Plus,
        TokenKind::Bang,
        TokenKind::Illegal { ch: '⭐' },
        TokenKind::Illegal { ch: '🚦' },
    ];

    validate_tokens(input, tokens)
}

#[test]
fn empty_input_gives_end_of_input_for_ever() {
    let mut lexer = Lexer::new(String::new());
    for _ in 0..3 {
        let token = lexer.next_token();
        assert!(token.reached_eof());
        assert_eq!(token.kind, TokenKind::Eof);
    }
}

#[test]
fn two_character_operators() {
    assert_eq!(
        kinds("== != <= >= && || = ! < >"),
        vec![
            TokenKind::Equal,
            TokenKind::NotEqual,
            TokenKind::LessThanEqual,
            TokenKind::GreaterThanEqual,
            TokenKind::And,
            TokenKind::Or,
            TokenKind::Assign,
            TokenKind::Bang,
            TokenKind::LessThan,
            TokenKind::GreaterThan,
            TokenKind::Eof,
        ]
    );
}

#[test]
fn lone_ampersand_and_pipe_are_illegal() {
    assert_eq!(
        kinds("& |"),
        vec![
            TokenKind::Illegal { ch: '&' },
            TokenKind::Illegal { ch: '|' },
            TokenKind::Eof,
        ]
    );
}

#[test]
fn keywords_are_not_identifiers() {
    assert_eq!(
        kinds("fn let if else true false return source fnx _a1"),
        vec![
            TokenKind::Function,
            TokenKind::Let,
            TokenKind::If,
            TokenKind::Else,
            TokenKind::True,
            TokenKind::False,
            TokenKind::Return,
            TokenKind::Source,
            ident("fnx"),
            ident("_a1"),
            TokenKind::Eof,
        ]
    );
    assert_eq!(TokenKind::try_keyword("source"), Some(TokenKind::Source));
    assert_eq!(TokenKind::try_keyword("sources"), None);
}

#[test]
fn numbers_with_a_dot_are_floats() {
    assert_eq!(
        kinds("12 1.5 1.2.3 7."),
        vec![
            integer("12"),
            TokenKind::Literal {
                kind: LiteralKind::Float,
                val: "1.5".into()
            },
            TokenKind::Literal {
                kind: LiteralKind::Float,
                val: "1.2.3".into()
            },
            TokenKind::Literal {
                kind: LiteralKind::Float,
                val: "7.".into()
            },
            TokenKind::Eof,
        ]
    );
}

#[test]
fn character_literals() {
    assert_eq!(
        kinds("'a' 'bc "),
        vec![
            TokenKind::Literal {
                kind: LiteralKind::Char { terminated: true },
                val: "a".into()
            },
            TokenKind::Literal {
                kind: LiteralKind::Char { terminated: false },
                val: "b".into()
            },
            ident("c"),
            TokenKind::Eof,
        ]
    );
}

#[test]
fn spans_count_lines_from_one_and_columns_from_zero() {
    let mut lexer = Lexer::new("let x\n  = 12;".into());
    let spans: Vec<Span> = (0..5).map(|_| lexer.next_token().span).collect();
    assert_eq!(
        spans[0],
        Span {
            start_line: 1,
            end_line: 1,
            start_col: 0,
            end_col: 3
        }
    );
    assert_eq!(
        spans[1],
        Span {
            start_line: 1,
            end_line: 1,
            start_col: 4,
            end_col: 5
        }
    );
    assert_eq!(
        spans[2],
        Span {
            start_line: 2,
            end_line: 2,
            start_col: 2,
            end_col: 3
        }
    );
    assert_eq!(
        spans[3],
        Span {
            start_line: 2,
            end_line: 2,
            start_col: 4,
            end_col: 6
        }
    );
}

#[test]
fn make_span_at_the_start_of_the_text() {
    let lexer = Lexer::new("ab\ncd".into());
    assert_eq!(
        lexer.make_span(0),
        Span {
            start_line: 1,
            end_line: 0,
            start_col: 0,
            end_col: 0
        }
    );
}

#[test]
fn spans_and_tokens_render_for_diagnostics() {
    let span = Span {
        start_line: 3,
        end_line: 3,
        start_col: 4,
        end_col: 5,
    };
    assert_eq!(span.to_string(), "5 on line 3");
    let wide = Span {
        start_line: 3,
        end_line: 4,
        start_col: 4,
        end_col: 9,
    };
    assert_eq!(wide.to_string(), "5 to 9 on lines 3 to 4");
    assert_eq!(dummy_span().to_string(), "EOF");
    assert_eq!(
        dummy_token(ident("add")).to_string(),
        "Ident(add) => EOF"
    );
    assert_eq!(
        Token {
            kind: integer("42"),
            span
        }
        .to_string(),
        "Int Literal(42) => 5 on line 3"
    );
    assert_eq!(TokenKind::LParen.to_string(), "Lparen");
    assert_eq!(TokenKind::RCurly.to_string(), "RSquirly");
    assert_eq!(TokenKind::Illegal { ch: '#' }.to_string(), "Illegal(#)");
    assert_eq!(
        TokenKind::Literal {
            kind: LiteralKind::Str { terminated: false },
            val: "x".into()
        }
        .to_string(),
        "Unterm Str Literal(x)"
    );
}

#[test]
fn tokens_are_equal_whatever_their_place() {
    let here = Token {
        kind: ident("x"),
        span: Span {
            start_line: 1,
            end_line: 1,
            start_col: 0,
            end_col: 1,
        },
    };
    assert_eq!(here, dummy_token(ident("x")));
    assert_ne!(here, dummy_token(ident("y")));
    assert_eq!(
        dummy_token(TokenKind::Illegal { ch: 'a' }),
        dummy_token(TokenKind::Illegal { ch: 'b' })
    );
    assert!(dummy_token(TokenKind::Semicolon).is_actually_legal());
    assert!(!dummy_token(TokenKind::Comma).is_actually_legal());
    assert_eq!(here.clone().span, here.span);
}

#[test]
fn lines_of_the_text() {
    let lexer = Lexer::new("ab\n\ncd".into());
    assert_eq!(lexer.line_count(), 3);
    assert_eq!(lexer.line_text(1), "ab");
    assert_eq!(lexer.line_text(2), "");
    assert_eq!(lexer.line_text(3), "cd");
    assert_eq!(lexer.line_text(0), "");
    assert_eq!(lexer.line_text(4), "");
}

#[test]
fn the_end_of_input_covers_one_place_past_the_text() {
    let mut lexer = Lexer::new("a".into());
    assert_eq!(
        lexer.next_token().span,
        Span {
            start_line: 1,
            end_line: 1,
            start_col: 0,
            end_col: 1
        }
    );
    let end = lexer.next_token();
    assert_eq!(end.kind, TokenKind::Eof);
    assert_eq!(
        end.span,
        Span {
            start_line: 1,
            end_line: 1,
            start_col: 1,
            end_col: 2
        }
    );
    assert_eq!(end.to_string(), "Eof => 2 on line 1");
    assert_eq!(lexer.next_token().span, end.span);
}
