//! The parser: from tokens to an abstract syntax tree.
//!
//! Expressions are parsed by precedence climbing. An error abandons the
//! statement it was met in: it is recorded, the statement is left out, and
//! parsing resumes at the next token.
pub mod ast;
pub mod diagnostics;
pub mod errors;
pub mod laws;
pub mod model;

use crate::lexer::token::kind::{LiteralKind, TokenKind, TokenKindView};
use crate::lexer::token::span::{dummy_span, Span};
use crate::lexer::token::{dummy_token, Token};
use crate::lexer::Lexer;
use crate::text::{char_at, chars_of, parse_integer};
use ast::nodes::{
    ArrayLiteral, ConditionalOperator, FunctionCall, FunctionLiteral, HashLiteral, IdentNode,
    IndexAccess, InfixOperator, PrefixOperator, PrimitiveNode,
};
use ast::statement::{BlockStatement, LetStatement, ReturnStatement, SourceStatement, Statement};
use ast::{
    exprs_view, idents_view, pairs_view, stmts_view, Expression, Precedence, Program, StatementView,
};
use errors::{
    errors_view, BadExpectations, CondIssue, ExpectedIdent, ExpectedNumber, ExprError, FuncError,
    FuncIssue, IncompleteConditional, NoPrefixParser, NumKind, ParseError, ParseErrorView,
    UnterminatedKind, UnterminatedLiteral,
};
use model::{count_of, dummy, is_float_text, ParserView};
use std::rc::Rc;
use vstd::prelude::*;

verus! {

/// A parser over the tokens of a lexer, with one token of lookahead.
pub struct Parser {
    pub lexer: Lexer,
    pub curr_token: Token,
    pub peeked_token: Token,
    pub errors: Vec<ParseError>,
}

impl View for Parser {
    type V = ParserView;

    open spec fn view(&self) -> ParserView {
        ParserView {
            curr: self.curr_token@,
            peek: self.peeked_token@,
            rest: self.lexer@.remaining(),
            end: self.lexer@.end_span(),
            errors: errors_view(self.errors@),
        }
    }
}

/// The value of what a production gives.
pub open spec fn outcome<T: View>(result: Result<T, ParseError>) -> Result<T::V, ParseErrorView> {
    match result {
        Ok(node) => Ok(node@),
        Err(error) => Err(error@),
    }
}

/// The value of a statement that may have been left out.
pub open spec fn maybe<T: View>(result: Option<T>) -> Option<T::V> {
    match result {
        Some(node) => Some(node@),
        None => None,
    }
}

impl Parser {
    /// A parser at the start of the tokens of `lexer`.
    pub fn new(lexer: Lexer) -> (parser: Parser)
        ensures
            parser@ == (ParserView {
                curr: dummy(TokenKindView::Eof),
                peek: dummy(TokenKindView::Eof),
                rest: lexer@.remaining(),
                end: lexer@.end_span(),
                errors: Seq::empty(),
            }).advance().advance(),
    {
        let mut parser = Parser {
            lexer,
            curr_token: dummy_token(TokenKind::Eof),
            peeked_token: dummy_token(TokenKind::Eof),
            errors: Vec::new(),
        };
        assert(parser@.errors =~= Seq::empty());
        parser.next_token();
        parser.next_token();
        parser
    }

    /// Takes one token: the next token becomes the current one, and the
    /// lexer hands out the one after it.
    pub fn next_token(&mut self)
        ensures
            final(self)@ == old(self)@.advance(),
            final(self)@.follows(old(self)@),
            final(self).errors == old(self).errors,
    {
        let ghost before = self.lexer@;
        let token = self.lexer.next_token();
        proof {
            let after = self.lexer@;
            if before.position < before.input.len() {
                assert(before.remaining() == seq![token@] + after.remaining());
                assert(before.remaining().drop_first() =~= after.remaining());
            } else {
                assert(before.skip_whitespace() == before);
                assert(before.remaining() =~= Seq::empty());
                assert(after == before);
            }
        }
        self.curr_token = self.peeked_token.clone();
        self.peeked_token = token;
    }

    /// Whether the next token is of the given kind.
    pub fn peek_token_is(&self, token_kind: &TokenKind) -> (r: bool)
        ensures
            r == self@.peek_is(token_kind@),
    {
        kind_is(&self.peeked_token, token_kind)
    }

    /// Whether the current token is of the kind of `token`.
    pub fn curr_token_is(&self, token: &Token) -> (r: bool)
        ensures
            r == self@.curr_is(token@.kind),
    {
        kind_is(&self.curr_token, &token.kind)
    }

    /// Records an error.
    pub fn found_err(&mut self, err: ParseError)
        ensures
            final(self)@ == old(self)@.record(err@),
            final(self)@.follows(old(self)@),
    {
        self.errors.push(err);
        assert(errors_view(self.errors@) =~= errors_view(old(self).errors@).push(err@));
    }

    /// Records that a token like `token` was expected next.
    pub fn peek_error(&mut self, token: &Token)
        ensures
            final(self)@ == old(self)@.record(
                ParseErrorView::Expectation { expected: token@, got: old(self)@.peek },
            ),
            final(self)@.follows(old(self)@),
    {
        let error = BadExpectations::new(token.clone(), self.peeked_token.clone());
        self.found_err(ParseError::Expectation(error));
    }

    /// Takes the next token if it is like `token`; else records that
    /// another token was expected.
    pub fn expect_peek(&mut self, token: &Token) -> (r: bool)
        ensures
            (r, final(self)@) == old(self)@.expect_peek(token@),
            final(self)@.follows(old(self)@),
    {
        if self.peek_token_is(&token.kind) {
            self.next_token();
            true
        } else {
            self.peek_error(token);
            false
        }
    }

    /// The level at which the current token binds.
    pub fn curr_precedence(&self) -> (p: Precedence)
        ensures
            p == Precedence::of(self@.curr.kind),
    {
        Precedence::from(&self.curr_token)
    }

    /// The level at which the next token binds.
    pub fn peek_precedence(&self) -> (p: Precedence)
        ensures
            p == Precedence::of(self@.peek.kind),
    {
        Precedence::from(&self.peeked_token)
    }

    /// Takes a semicolon, if one comes next.
    fn skip_semicolon(&mut self)
        ensures
            final(self)@ == old(self)@.skip_semicolon(),
            final(self)@.follows(old(self)@),
    {
        if self.peek_token_is(&TokenKind::Semicolon) {
            self.next_token();
        }
    }
}

/// Whether a token is of the given kind. Identifiers are alike whatever
/// their name, and literals whatever their value.
fn kind_is(token: &Token, kind: &TokenKind) -> (r: bool)
    ensures
        r == ParserView::is_kind(token@, kind@),
{
    match &token.kind {
        TokenKind::Ident { label: _ } => match kind {
            TokenKind::Ident { label: _ } => true,
            _ => false,
        },
        TokenKind::Literal { kind: _, val: _ } => match kind {
            TokenKind::Literal { kind: _, val: _ } => true,
            _ => false,
        },
        _ => token.kind.same_as(kind),
    }
}

/// Whether a text reads as a float.
pub(crate) fn float_text(val: &str) -> (r: bool)
    ensures
        r == is_float_text(val@),
{
    let chars = chars_of(val);
    let mut dots: usize = 0;
    let mut i: usize = 0;
    assert(chars@.take(0) =~= Seq::<char>::empty());
    while i < chars.len()
        invariant
            i <= chars.len(),
            chars@ == val@,
            dots == count_of(chars@.take(i as int), '.'),
            dots <= i,
            forall|j: int| 0 <= j < i ==> crate::lexer::is_digit(#[trigger] chars@[j]) || chars@[j] == '.',
        decreases chars.len() - i,
    {
        let c = chars[i];
        assert(chars@.take(i + 1).drop_last() =~= chars@.take(i as int));
        if c == '.' {
            dots = dots + 1;
        } else if !(c >= '0' && c <= '9') {
            return false;
        }
        i = i + 1;
    }
    assert(chars@.take(i as int) =~= chars@);
    dots <= 1 && chars.len() > dots
}

impl IdentNode {
    /// The identifier that the current token is.
    pub fn parse(parser: &mut Parser) -> (r: Result<IdentNode, ParseError>)
        ensures
            outcome(r) == old(parser)@.ident(),
            *final(parser) == *old(parser),
    {
        match &parser.curr_token.kind {
            TokenKind::Ident { label } => Ok(
                IdentNode { token: parser.curr_token.clone(), label: label.clone() },
            ),
            _ => Err(ParseError::Ident(ExpectedIdent::from(parser.curr_token.clone()))),
        }
    }
}

impl PrimitiveNode {
    /// The literal that the current token is.
    pub fn parse(parser: &mut Parser) -> (r: Result<PrimitiveNode, ParseError>)
        ensures
            outcome(r) == old(parser)@.primitive(),
            *final(parser) == *old(parser),
    {
        match &parser.curr_token.kind {
            TokenKind::Literal { kind, val } => match kind {
                LiteralKind::Int => match parse_integer(val.as_str()) {
                    Some(i) => Ok(PrimitiveNode::IntegerLiteral(i)),
                    None => Err(ParseError::Number(ExpectedNumber::new(NumKind::Int, val.clone()))),
                },
                LiteralKind::Float => if float_text(val.as_str()) {
                    Ok(PrimitiveNode::FloatLiteral(val.clone()))
                } else {
                    Err(ParseError::Number(ExpectedNumber::new(NumKind::Float, val.clone())))
                },
                LiteralKind::Char { terminated } => {
                    let chars = chars_of(val.as_str());
                    if *terminated && chars.len() > 0 {
                        Ok(PrimitiveNode::CharLiteral(char_at(&chars, 0)))
                    } else {
                        Err(
                            ParseError::Unterminated(
                                UnterminatedLiteral::from(UnterminatedKind::Char),
                            ),
                        )
                    }
                },
                LiteralKind::Str { terminated } => if *terminated {
                    Ok(PrimitiveNode::StringLiteral(val.clone()))
                } else {
                    Err(ParseError::Unterminated(UnterminatedLiteral::from(UnterminatedKind::Str)))
                },
            },
            TokenKind::True => Ok(PrimitiveNode::BooleanLiteral(true)),
            TokenKind::False => Ok(PrimitiveNode::BooleanLiteral(false)),
            _ => Err(ParseError::NoPrefix(NoPrefixParser { token: parser.curr_token.clone() })),
        }
    }
}

/// The error of a production that was asked for at the end of input.
fn at_end(parser: &Parser) -> (error: ParseError)
    ensures
        error@ == (ParseErrorView::NoPrefix { token: parser@.curr }),
{
    ParseError::NoPrefix(NoPrefixParser { token: parser.curr_token.clone() })
}

impl Parser {
    /// Whether the next token is an infix operator between two operands.
    fn peek_is_binary(&self) -> (r: bool)
        ensures
            r == self@.peek_is_binary(),
    {
        match self.peeked_token.kind {
            TokenKind::Plus
            | TokenKind::Minus
            | TokenKind::ForwardSlash
            | TokenKind::Asterisk
            | TokenKind::Equal
            | TokenKind::NotEqual
            | TokenKind::LessThan
            | TokenKind::GreaterThan
            | TokenKind::LessThanEqual
            | TokenKind::GreaterThanEqual
            | TokenKind::And
            | TokenKind::Or
            | TokenKind::Modulo => true,
            _ => false,
        }
    }
}

impl Expression {
    /// Parses an expression whose operators all bind tighter than
    /// `precedence`, starting at the current token.
    pub fn parse(parser: &mut Parser, precedence: Precedence) -> (r: Result<Expression, ParseError>)
        ensures
            (outcome(r), final(parser)@) == old(parser)@.expression(precedence),
            final(parser)@.follows(old(parser)@),
        decreases old(parser)@.fuel(), 4nat,
    {
        let mut left_expr = match Self::parse_prefix(parser) {
            Ok(left) => left,
            Err(error) => {
                return Err(error);
            },
        };
        loop
            invariant
                parser@.infix(precedence, left_expr@) == old(parser)@.expression(precedence),
                parser@.follows(old(parser)@),
            decreases parser@.fuel(),
        {
            if parser.peek_token_is(&TokenKind::Semicolon) || !precedence.lower_than(
                &parser.peek_precedence(),
            ) {
                return Ok(left_expr);
            }
            let ghost at = parser@;
            let extended = if parser.peek_is_binary() {
                parser.next_token();
                match InfixOperator::parse(parser, left_expr) {
                    Ok(node) => Ok(Expression::Binary(node)),
                    Err(error) => Err(error),
                }
            } else {
                match parser.peeked_token.kind {
                    TokenKind::LParen => {
                        parser.next_token();
                        match FunctionCall::parse(parser, left_expr) {
                            Ok(node) => Ok(Expression::FunctionCall(node)),
                            Err(error) => Err(error),
                        }
                    },
                    TokenKind::LBracket => {
                        parser.next_token();
                        match IndexAccess::parse(parser, left_expr) {
                            Ok(node) => Ok(Expression::ArrIndex(node)),
                            Err(error) => Err(error),
                        }
                    },
                    _ => {
                        return Ok(left_expr);
                    },
                }
            };
            assert(at.extension(left_expr@) == Some((outcome(extended), parser@)));
            match extended {
                Ok(node) => {
                    left_expr = node;
                },
                Err(error) => {
                    return Err(error);
                },
            }
        }
    }

    /// Parses what the current token starts.
    fn parse_prefix(parser: &mut Parser) -> (r: Result<Expression, ParseError>)
        ensures
            (outcome(r), final(parser)@) == old(parser)@.prefix(),
            final(parser)@.follows(old(parser)@),
        decreases old(parser)@.fuel(), 2nat,
    {
        match &parser.curr_token.kind {
            TokenKind::Ident { label: _ } => match IdentNode::parse(parser) {
                Ok(node) => Ok(Expression::Identifier(node)),
                Err(error) => Err(error),
            },
            TokenKind::Literal { kind: _, val: _ } | TokenKind::False | TokenKind::True => {
                match PrimitiveNode::parse(parser) {
                    Ok(node) => Ok(Expression::Primitive(node)),
                    Err(error) => Err(error),
                }
            },
            TokenKind::Bang | TokenKind::Minus => match PrefixOperator::parse(parser) {
                Ok(node) => Ok(Expression::Unary(node)),
                Err(error) => Err(error),
            },
            TokenKind::LParen => Self::parse_grouped_expr(parser),
            TokenKind::If => match ConditionalOperator::parse(parser) {
                Ok(node) => Ok(Expression::Conditional(node)),
                Err(error) => Err(error),
            },
            TokenKind::Function => match FunctionLiteral::parse(parser) {
                Ok(node) => Ok(Expression::FunctionDef(node)),
                Err(error) => Err(error),
            },
            TokenKind::LBracket => match ArrayLiteral::parse(parser) {
                Ok(node) => Ok(Expression::Array(node)),
                Err(error) => Err(error),
            },
            TokenKind::LCurly => match HashLiteral::parse(parser) {
                Ok(node) => Ok(Expression::HashMapLiteral(node)),
                Err(error) => Err(error),
            },
            _ => Err(at_end(parser)),
        }
    }

    /// Parses a group in parentheses, with the current token the opening
    /// parenthesis.
    fn parse_grouped_expr(parser: &mut Parser) -> (r: Result<Expression, ParseError>)
        ensures
            (outcome(r), final(parser)@) == old(parser)@.grouped(),
            final(parser)@.follows(old(parser)@),
        decreases old(parser)@.fuel(), 1nat,
    {
        if parser.curr_token.reached_eof() {
            return Err(at_end(parser));
        }
        let start = parser.curr_token.span;
        parser.next_token();
        let expr = Expression::parse(parser, Precedence::Lowest);
        if parser.expect_peek(&dummy_token(TokenKind::RParen)) {
            expr
        } else {
            Err(
                ParseError::Expr(
                    ExprError::new(
                        start,
                        Some(parser.peeked_token.span),
                        parser.peeked_token.span.start_col,
                    ),
                ),
            )
        }
    }

    /// Parses a list of expressions between commas, with the current
    /// token the opening delimiter, up to a token like `end`.
    pub fn parse_expr_list(parser: &mut Parser, end: &Token) -> (r: Result<
        Vec<Expression>,
        ParseError,
    >)
        ensures
            (
                match r {
                    Ok(list) => Ok(exprs_view(list@)),
                    Err(error) => Err(error@),
                },
                final(parser)@,
            ) == old(parser)@.expr_list(end@),
            final(parser)@.follows(old(parser)@),
            !(old(parser)@.curr.kind is Eof) ==> final(parser)@.fuel() < old(parser)@.fuel(),
        decreases old(parser)@.fuel(), 0nat,
    {
        let mut expr_list: Vec<Expression> = Vec::new();
        if parser.peek_token_is(&end.kind) {
            parser.next_token();
            assert(exprs_view(expr_list@) =~= Seq::empty());
            return Ok(expr_list);
        }
        if parser.curr_token.reached_eof() {
            return Err(at_end(parser));
        }
        parser.next_token();
        match Expression::parse(parser, Precedence::Lowest) {
            Ok(first) => {
                expr_list.push(first);
                assert(exprs_view(expr_list@) =~= seq![first@]);
            },
            Err(error) => {
                return Err(error);
            },
        }
        let mut start = dummy_span();
        while parser.peek_token_is(&TokenKind::Comma)
            invariant
                parser@.more_exprs(end@, exprs_view(expr_list@), start) == old(parser)@.expr_list(
                    end@,
                ),
                parser@.follows(old(parser)@),
                parser@.fuel() < old(parser)@.fuel(),
            decreases parser@.fuel(),
        {
            parser.next_token();
            start = parser.curr_token.span;
            parser.next_token();
            match Expression::parse(parser, Precedence::Lowest) {
                Ok(next) => {
                    let ghost listed = exprs_view(expr_list@);
                    expr_list.push(next);
                    assert(exprs_view(expr_list@) =~= listed.push(next@));
                },
                Err(error) => {
                    return Err(error);
                },
            }
        }
        if !parser.expect_peek(end) {
            Err(
                ParseError::Expr(
                    ExprError::new(
                        start,
                        Some(parser.peeked_token.span),
                        parser.peeked_token.span.start_col,
                    ),
                ),
            )
        } else {
            Ok(expr_list)
        }
    }
}

impl PrefixOperator {
    /// Parses a prefix operator with its operand, with the current token
    /// the operator.
    pub fn parse(parser: &mut Parser) -> (r: Result<PrefixOperator, ParseError>)
        ensures
            (outcome(r), final(parser)@) == old(parser)@.unary(),
            final(parser)@.follows(old(parser)@),
        decreases old(parser)@.fuel(), 1nat,
    {
        if parser.curr_token.reached_eof() {
            return Err(at_end(parser));
        }
        let token = parser.curr_token.clone();
        parser.next_token();
        match Expression::parse(parser, Precedence::Prefix) {
            Ok(right) => Ok(PrefixOperator::new(token, right)),
            Err(error) => Err(error),
        }
    }
}

impl InfixOperator {
    /// Parses an infix operator with its right operand, with the current
    /// token the operator and `left_expr` the left operand.
    pub fn parse(parser: &mut Parser, left_expr: Expression) -> (r: Result<
        InfixOperator,
        ParseError,
    >)
        ensures
            (outcome(r), final(parser)@) == old(parser)@.binary(left_expr@),
            final(parser)@.follows(old(parser)@),
            !(old(parser)@.curr.kind is Eof) ==> final(parser)@.fuel() < old(parser)@.fuel(),
        decreases old(parser)@.fuel(), 1nat,
    {
        if parser.curr_token.reached_eof() {
            return Err(at_end(parser));
        }
        let token = parser.curr_token.clone();
        let precedence = parser.curr_precedence();
        parser.next_token();
        match Expression::parse(parser, precedence) {
            Ok(right_expr) => Ok(InfixOperator::new(token, left_expr, right_expr)),
            Err(error) => Err(error),
        }
    }
}

impl FunctionCall {
    /// Parses the arguments of a call of `function`, with the current
    /// token the opening parenthesis.
    pub fn parse(parser: &mut Parser, function: Expression) -> (r: Result<FunctionCall, ParseError>)
        ensures
            (outcome(r), final(parser)@) == old(parser)@.call(function@),
            final(parser)@.follows(old(parser)@),
            !(old(parser)@.curr.kind is Eof) ==> final(parser)@.fuel() < old(parser)@.fuel(),
        decreases old(parser)@.fuel(), 1nat,
    {
        match Expression::parse_expr_list(parser, &dummy_token(TokenKind::RParen)) {
            Ok(args) => Ok(FunctionCall { function: Box::new(function), args }),
            Err(error) => Err(error),
        }
    }
}

impl ArrayLiteral {
    /// Parses an array literal, with the current token the opening
    /// bracket.
    pub fn parse(parser: &mut Parser) -> (r: Result<ArrayLiteral, ParseError>)
        ensures
            (outcome(r), final(parser)@) == old(parser)@.array(),
            final(parser)@.follows(old(parser)@),
        decreases old(parser)@.fuel(), 1nat,
    {
        match Expression::parse_expr_list(parser, &dummy_token(TokenKind::RBracket)) {
            Ok(elements) => Ok(ArrayLiteral { elements }),
            Err(error) => Err(error),
        }
    }
}

impl IndexAccess {
    /// Parses an index into `left_expr`, with the current token the
    /// opening bracket. A missing closing bracket is recorded.
    pub fn parse(parser: &mut Parser, left_expr: Expression) -> (r: Result<IndexAccess, ParseError>)
        ensures
            (outcome(r), final(parser)@) == old(parser)@.index(left_expr@),
            final(parser)@.follows(old(parser)@),
            !(old(parser)@.curr.kind is Eof) ==> final(parser)@.fuel() < old(parser)@.fuel(),
        decreases old(parser)@.fuel(), 1nat,
    {
        if parser.curr_token.reached_eof() {
            return Err(at_end(parser));
        }
        parser.next_token();
        match Expression::parse(parser, Precedence::Lowest) {
            Ok(index) => {
                parser.expect_peek(&dummy_token(TokenKind::RBracket));
                Ok(IndexAccess { arr: Box::new(left_expr), index: Box::new(index) })
            },
            Err(error) => Err(error),
        }
    }
}

impl HashLiteral {
    /// Parses a hash-map literal, with the current token the opening
    /// brace. A missing colon, comma or closing brace is recorded.
    pub fn parse(parser: &mut Parser) -> (r: Result<HashLiteral, ParseError>)
        ensures
            (outcome(r), final(parser)@) == old(parser)@.hash(),
            final(parser)@.follows(old(parser)@),
        decreases old(parser)@.fuel(), 1nat,
    {
        let mut pairs: Vec<(Expression, Expression)> = Vec::new();
        assert(pairs_view(pairs@) =~= Seq::empty());
        while !parser.peek_token_is(&TokenKind::RCurly)
            invariant
                parser@.hash_pairs(pairs_view(pairs@)) == old(parser)@.hash_pairs(Seq::empty()),
                parser@.follows(old(parser)@),
            decreases parser@.fuel(),
        {
            if parser.curr_token.reached_eof() {
                return Err(at_end(parser));
            }
            parser.next_token();
            let key = match Expression::parse(parser, Precedence::Lowest) {
                Ok(key) => key,
                Err(error) => {
                    return Err(error);
                },
            };
            parser.expect_peek(&dummy_token(TokenKind::Colon));
            parser.next_token();
            let val = match Expression::parse(parser, Precedence::Lowest) {
                Ok(val) => val,
                Err(error) => {
                    return Err(error);
                },
            };
            let ghost listed = pairs_view(pairs@);
            pairs.push((key, val));
            assert(pairs_view(pairs@) =~= listed.push((key@, val@)));
            if !parser.peek_token_is(&TokenKind::RCurly) {
                parser.expect_peek(&dummy_token(TokenKind::Comma));
            }
        }
        parser.expect_peek(&dummy_token(TokenKind::RCurly));
        Ok(HashLiteral { pairs })
    }
}

impl ConditionalOperator {
    /// Parses a conditional, with the current token `if`.
    #[verifier::rlimit(60)]
    pub fn parse(parser: &mut Parser) -> (r: Result<ConditionalOperator, ParseError>)
        ensures
            (outcome(r), final(parser)@) == old(parser)@.conditional(),
            final(parser)@.follows(old(parser)@),
        decreases old(parser)@.fuel(), 1nat,
    {
        if parser.curr_token.reached_eof() {
            return Err(at_end(parser));
        }
        let start_pos = parser.curr_token.span;
        if !parser.expect_peek(&dummy_token(TokenKind::LParen)) {
            return Err(
                ParseError::Conditional(
                    IncompleteConditional::new(
                        start_pos,
                        CondIssue::ExprIncorrectlyOpened,
                        None,
                        parser.peeked_token.span.start_col,
                    ),
                ),
            );
        }
        parser.next_token();
        let cond = match Expression::parse(parser, Precedence::Lowest) {
            Ok(cond) => cond,
            Err(error) => {
                return Err(error);
            },
        };
        if !parser.expect_peek(&dummy_token(TokenKind::RParen)) {
            let column = parser.peeked_token.span.start_col;
            return Err(
                ParseError::Conditional(
                    IncompleteConditional::new(
                        start_pos,
                        CondIssue::ExprIncorrectlyClosed,
                        Some(parser.peeked_token.span),
                        if column > 0 {
                            column - 1
                        } else {
                            0
                        },
                    ),
                ),
            );
        }
        if !parser.expect_peek(&dummy_token(TokenKind::LCurly)) {
            return Err(
                ParseError::Conditional(
                    IncompleteConditional::new(
                        start_pos,
                        CondIssue::BodyIncorrectlyOpened,
                        Some(parser.peeked_token.span),
                        parser.peeked_token.span.start_col,
                    ),
                ),
            );
        }
        let consequence = BlockStatement::parse(parser);
        let mut alternative = None;
        if parser.peek_token_is(&TokenKind::Else) {
            parser.next_token();
            if !parser.expect_peek(&dummy_token(TokenKind::LCurly)) {
                return Err(
                    ParseError::Conditional(
                        IncompleteConditional::new(
                            start_pos,
                            CondIssue::ExpectedElse,
                            Some(parser.peeked_token.span),
                            parser.peeked_token.span.start_col,
                        ),
                    ),
                );
            }
            alternative = Some(BlockStatement::parse(parser));
        }
        Ok(ConditionalOperator { cond: Box::new(cond), consequence, alternative })
    }
}

impl FunctionLiteral {
    /// Parses a function literal, with the current token `fn`.
    pub fn parse(parser: &mut Parser) -> (r: Result<FunctionLiteral, ParseError>)
        ensures
            (outcome(r), final(parser)@) == old(parser)@.function(),
            final(parser)@.follows(old(parser)@),
        decreases old(parser)@.fuel(), 1nat,
    {
        if parser.curr_token.reached_eof() {
            return Err(at_end(parser));
        }
        let start_pos = parser.curr_token.span;
        let name = Self::parse_function_name(parser);
        if !parser.expect_peek(&dummy_token(TokenKind::LParen)) {
            return Err(
                ParseError::Func(
                    FuncError::new(
                        start_pos,
                        FuncIssue::FuncMissingParens,
                        None,
                        parser.peeked_token.span.start_col,
                    ),
                ),
            );
        }
        let params = match Self::parse_function_params(parser, &start_pos) {
            Ok(params) => params,
            Err(error) => {
                return Err(error);
            },
        };
        if !parser.expect_peek(&dummy_token(TokenKind::LCurly)) {
            return Err(
                ParseError::Func(
                    FuncError::new(
                        start_pos,
                        FuncIssue::BodyIncorrectlyOpened,
                        Some(parser.peeked_token.span),
                        parser.peeked_token.span.start_col,
                    ),
                ),
            );
        }
        let body = BlockStatement::parse(parser);
        Ok(FunctionLiteral { name, params: Rc::new(params), body: Rc::new(body) })
    }

    /// Takes the name of the function, if an identifier comes next.
    fn parse_function_name(parser: &mut Parser) -> (name: Option<String>)
        ensures
            (ast::name_view(name), final(parser)@) == old(parser)@.function_name(),
            final(parser)@.follows(old(parser)@),
    {
        let name = match &parser.peeked_token.kind {
            TokenKind::Ident { label } => Some(label.clone()),
            _ => None,
        };
        if name.is_some() {
            parser.next_token();
        }
        name
    }

    /// Parses the parameters, with the current token the opening
    /// parenthesis.
    fn parse_function_params(parser: &mut Parser, start: &Span) -> (r: Result<
        Vec<IdentNode>,
        ParseError,
    >)
        ensures
            (
                match r {
                    Ok(list) => Ok(idents_view(list@)),
                    Err(error) => Err(error@),
                },
                final(parser)@,
            ) == old(parser)@.function_params(*start),
            final(parser)@.follows(old(parser)@),
    {
        let mut idents: Vec<IdentNode> = Vec::new();
        if parser.peek_token_is(&TokenKind::RParen) {
            parser.next_token();
            assert(idents_view(idents@) =~= Seq::empty());
            return Ok(idents);
        }
        parser.next_token();
        match IdentNode::parse(parser) {
            Ok(ident) => {
                idents.push(ident);
                assert(idents_view(idents@) =~= seq![ident@]);
            },
            Err(error) => {
                return Err(error);
            },
        }
        while parser.peek_token_is(&TokenKind::Comma)
            invariant
                parser@.more_params(idents_view(idents@)) == old(parser)@.advance().more_params(
                    seq![old(parser)@.advance().ident()->Ok_0],
                ),
                old(parser)@.advance().ident() is Ok,
                !old(parser)@.peek_is(TokenKindView::RParen),
                parser@.follows(old(parser)@),
            decreases parser@.fuel(),
        {
            parser.next_token();
            parser.next_token();
            match IdentNode::parse(parser) {
                Ok(ident) => {
                    let ghost listed = idents_view(idents@);
                    idents.push(ident);
                    assert(idents_view(idents@) =~= listed.push(ident@));
                },
                Err(error) => {
                    return Err(error);
                },
            }
        }
        if !parser.expect_peek(&dummy_token(TokenKind::RParen)) {
            return Err(
                ParseError::Func(
                    FuncError::new(
                        *start,
                        FuncIssue::DefIncorrectlyClosed,
                        Some(parser.peeked_token.span),
                        parser.peeked_token.span.start_col,
                    ),
                ),
            );
        }
        Ok(idents)
    }
}

impl BlockStatement {
    /// Parses the statements of a block, with the current token the
    /// opening brace, up to the closing brace or the end of input.
    pub fn parse(parser: &mut Parser) -> (block: BlockStatement)
        ensures
            (block@, final(parser)@) == old(parser)@.advance().block(Seq::empty()),
            final(parser)@.follows(old(parser)@),
        decreases old(parser)@.fuel(), 8nat,
    {
        parser.next_token();
        let mut block: Vec<Statement> = Vec::new();
        assert(stmts_view(block@) =~= Seq::empty());
        let closing = dummy_token(TokenKind::RCurly);
        while !parser.curr_token_is(&closing) && !parser.curr_token.reached_eof()
            invariant
                parser@.block(stmts_view(block@)) == old(parser)@.advance().block(Seq::empty()),
                parser@.follows(old(parser)@),
                closing@.kind == TokenKindView::RCurly,
            decreases parser@.fuel(),
        {
            let ghost listed = stmts_view(block@);
            if let Some(statement) = parser.parse_statement() {
                block.push(statement);
                assert(stmts_view(block@) =~= listed.push(statement@));
            }
            parser.next_token();
        }
        BlockStatement { statements: block }
    }
}

impl Parser {
    /// Parses the whole program: statements up to the first end of input.
    /// A statement that fails is left out, and its errors are recorded.
    pub fn parse_program(&mut self) -> (program: Program)
        ensures
            (program@, final(self)@) == old(self)@.program(Seq::empty()),
            final(self)@.follows(old(self)@),
    {
        let mut statements: Vec<Statement> = Vec::new();
        assert(stmts_view(statements@) =~= Seq::empty());
        while !self.curr_token.reached_eof()
            invariant
                self@.program(stmts_view(statements@)) == old(self)@.program(Seq::empty()),
                self@.follows(old(self)@),
            decreases self@.fuel(),
        {
            let ghost listed = stmts_view(statements@);
            if let Some(statement) = self.parse_statement() {
                statements.push(statement);
                assert(stmts_view(statements@) =~= listed.push(statement@));
            }
            self.next_token();
        }
        Program { statements }
    }

    /// Parses one statement, by the current token.
    #[verifier::rlimit(60)]
    pub fn parse_statement(&mut self) -> (statement: Option<Statement>)
        ensures
            (maybe(statement), final(self)@) == old(self)@.statement(),
            final(self)@.follows(old(self)@),
        decreases old(self)@.fuel(), 6nat,
    {
        match self.curr_token.kind {
            TokenKind::Let => match self.parse_let() {
                Some(statement) => Some(Statement::Assignment(statement)),
                None => None,
            },
            TokenKind::Return => match self.parse_return() {
                Some(statement) => Some(Statement::Return(statement)),
                None => None,
            },
            TokenKind::Source => match self.parse_source() {
                Some(statement) => Some(Statement::Source(statement)),
                None => None,
            },
            _ => match self.parse_expression() {
                Some(expression) => Some(Statement::Expression(expression)),
                None => None,
            },
        }
    }

    /// Parses a binding, with the current token `let`.
    pub fn parse_let(&mut self) -> (statement: Option<LetStatement>)
        ensures
            (maybe(statement), final(self)@) == old(self)@.let_statement(),
            final(self)@.follows(old(self)@),
        decreases old(self)@.fuel(), 5nat,
    {
        if !self.expect_peek(&dummy_token(TokenKind::Ident { label: String::new() })) {
            return None;
        }
        let name = IdentNode::parse(self);
        if !self.expect_peek(&dummy_token(TokenKind::Assign)) {
            return None;
        }
        self.next_token();
        let val = Expression::parse(self, Precedence::Lowest);
        match (val, name) {
            (Ok(val), Ok(name)) => {
                let val = match val {
                    Expression::FunctionDef(literal) => Expression::FunctionDef(
                        FunctionLiteral {
                            name: Some(name.token.to_string()),
                            params: literal.params,
                            body: literal.body,
                        },
                    ),
                    other => other,
                };
                self.skip_semicolon();
                Some(LetStatement { name, val })
            },
            (Err(error), _) => {
                self.found_err(error);
                None
            },
            (_, Err(error)) => {
                self.found_err(error);
                None
            },
        }
    }

    /// Parses a return, with the current token `return`.
    fn parse_return(&mut self) -> (statement: Option<ReturnStatement>)
        ensures
            (maybe(statement), final(self)@) == old(self)@.return_statement(),
            final(self)@.follows(old(self)@),
        decreases old(self)@.fuel(), 5nat,
    {
        self.next_token();
        match Expression::parse(self, Precedence::Lowest) {
            Ok(returnable) => {
                self.skip_semicolon();
                Some(ReturnStatement { returnable })
            },
            Err(error) => {
                self.found_err(error);
                None
            },
        }
    }

    /// Parses an inclusion, with the current token `source`.
    fn parse_source(&mut self) -> (statement: Option<SourceStatement>)
        ensures
            (maybe(statement), final(self)@) == old(self)@.source_statement(),
            final(self)@.follows(old(self)@),
        decreases old(self)@.fuel(), 5nat,
    {
        self.next_token();
        let first = self.curr_token.clone();
        match Expression::parse(self, Precedence::Lowest) {
            Ok(Expression::Primitive(PrimitiveNode::StringLiteral(path))) => {
                self.skip_semicolon();
                Some(SourceStatement { path })
            },
            Ok(_) => {
                self.skip_semicolon();
                let expected = dummy_token(
                    TokenKind::Literal {
                        kind: LiteralKind::Str { terminated: true },
                        val: String::new(),
                    },
                );
                self.found_err(ParseError::Expectation(BadExpectations::new(expected, first)));
                None
            },
            Err(error) => {
                self.found_err(error);
                None
            },
        }
    }

    /// Parses an expression that stands as a statement.
    fn parse_expression(&mut self) -> (expression: Option<Expression>)
        ensures
            (
                match expression {
                    Some(e) => Some(StatementView::Expression(e@)),
                    None => None,
                },
                final(self)@,
            ) == old(self)@.expression_statement(),
            final(self)@.follows(old(self)@),
        decreases old(self)@.fuel(), 5nat,
    {
        let expr = Expression::parse(self, Precedence::Lowest);
        self.skip_semicolon();
        match expr {
            Ok(expr) => Some(expr),
            Err(error) => {
                self.found_err(error);
                None
            },
        }
    }
}

} // verus!
