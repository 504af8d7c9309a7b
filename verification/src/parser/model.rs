//! The parser as a mathematical function.
//!
//! A parser is modelled by the tokens that lie ahead of it and the errors
//! that it has recorded. Each production is a function from such a state to
//! what was parsed and the state after it. Parsing never lengthens the
//! tokens ahead; where a production goes on after a part of itself, the
//! model says so by asking that the tokens ahead did not grow, which always
//! holds.
use super::ast::{ExpressionView, IdentView, Precedence, PrimitiveView, StatementView};
use super::errors::{before, CondIssue, FuncIssue, NumKind, ParseErrorView, UnterminatedKind};
use crate::lexer::is_digit;
use crate::lexer::token::kind::{LiteralKind, TokenKindView};
use crate::lexer::token::span::Span;
use crate::lexer::token::TokenView;
use crate::text::parsed_integer;
use vstd::prelude::*;

verus! {

/// The state of a parser: the current token, the token after it, the tokens
/// that the lexer has yet to hand out, the place where the text ends, and
/// the errors recorded so far.
pub struct ParserView {
    pub curr: TokenView,
    pub peek: TokenView,
    pub rest: Seq<TokenView>,
    pub end: Span,
    pub errors: Seq<ParseErrorView>,
}

/// What a production gives: a node or an error, and the state after it.
pub type Parsed<T> = (Result<T, ParseErrorView>, ParserView);

/// The number of times that `c` occurs in `s`.
pub open spec fn count_of(s: Seq<char>, c: char) -> nat
    decreases s.len(),
{
    if s.len() == 0 {
        0
    } else {
        count_of(s.drop_last(), c) + if s.last() == c {
            1nat
        } else {
            0nat
        }
    }
}

/// Whether a text reads as a float: digits with at most one dot among
/// them, and at least one digit.
pub open spec fn is_float_text(s: Seq<char>) -> bool {
    &&& forall|i: int| 0 <= i < s.len() ==> is_digit(#[trigger] s[i]) || s[i] == '.'
    &&& count_of(s, '.') <= 1
    &&& s.len() > count_of(s, '.')
}

/// A token that was not read from a source.
pub open spec fn dummy(kind: TokenKindView) -> TokenView {
    TokenView { kind, span: Span::nowhere() }
}

impl ParserView {
    /// The token that is handed out once the text is used up.
    pub open spec fn padding(self) -> TokenView {
        TokenView { kind: TokenKindView::Eof, span: self.end }
    }

    /// The state after one token was taken.
    pub open spec fn advance(self) -> ParserView {
        if self.rest.len() > 0 {
            ParserView { curr: self.peek, peek: self.rest[0], rest: self.rest.drop_first(), ..self }
        } else {
            ParserView { curr: self.peek, peek: self.padding(), ..self }
        }
    }

    /// The number of tokens ahead that are not the end of input.
    pub open spec fn fuel(self) -> nat {
        self.rest.len() + (if self.curr.kind is Eof {
            0nat
        } else {
            1nat
        }) + (if self.peek.kind is Eof {
            0nat
        } else {
            1nat
        })
    }

    /// Whether two states have the same tokens ahead.
    pub open spec fn same_place(self, other: ParserView) -> bool {
        self.curr == other.curr && self.peek == other.peek && self.rest == other.rest
    }

    /// Whether `self` can come after `before`: the tokens ahead did not
    /// grow, and, unless `before` stood at an end of input, they shrank if
    /// they changed at all; and the errors of `before` are still recorded,
    /// ahead of any that were added.
    pub open spec fn follows(self, before: ParserView) -> bool {
        &&& self.end == before.end
        &&& before.errors.is_prefix_of(self.errors)
        &&& self.fuel() <= before.fuel()
        &&& !(before.curr.kind is Eof) && !self.same_place(before) ==> self.fuel() < before.fuel()
    }

    /// The state with one more error recorded.
    pub open spec fn record(self, error: ParseErrorView) -> ParserView {
        ParserView { errors: self.errors.push(error), ..self }
    }

    /// Whether a token is of the given kind. Identifiers are alike whatever
    /// their name, and literals whatever their value.
    pub open spec fn is_kind(token: TokenView, kind: TokenKindView) -> bool {
        match token.kind {
            TokenKindView::Ident { .. } => kind is Ident,
            TokenKindView::Literal { .. } => kind is Literal,
            _ => token.kind == kind,
        }
    }

    /// Whether the next token is of the given kind.
    pub open spec fn peek_is(self, kind: TokenKindView) -> bool {
        Self::is_kind(self.peek, kind)
    }

    /// Whether the current token is of the given kind.
    pub open spec fn curr_is(self, kind: TokenKindView) -> bool {
        Self::is_kind(self.curr, kind)
    }

    /// Takes the next token if it is like `expected`; else records that
    /// another token was expected.
    pub open spec fn expect_peek(self, expected: TokenView) -> (bool, ParserView) {
        if self.peek_is(expected.kind) {
            (true, self.advance())
        } else {
            (false, self.record(ParseErrorView::Expectation { expected, got: self.peek }))
        }
    }

    /// The state after a semicolon, if one comes next, was taken.
    pub open spec fn skip_semicolon(self) -> ParserView {
        if self.peek_is(TokenKindView::Semicolon) {
            self.advance()
        } else {
            self
        }
    }

    /// The identifier that the current token is.
    pub open spec fn ident(self) -> Result<IdentView, ParseErrorView> {
        match self.curr.kind {
            TokenKindView::Ident { label } => Ok(IdentView { token: self.curr, label }),
            _ => Err(ParseErrorView::Ident { found: self.curr }),
        }
    }

    /// The literal that the current token is.
    pub open spec fn primitive(self) -> Result<PrimitiveView, ParseErrorView> {
        match self.curr.kind {
            TokenKindView::Literal { kind, val } => match kind {
                LiteralKind::Int => match parsed_integer(val) {
                    Some(i) => Ok(PrimitiveView::Integer(i)),
                    None => Err(ParseErrorView::Number { kind: NumKind::Int, found: val }),
                },
                LiteralKind::Float => if is_float_text(val) {
                    Ok(PrimitiveView::Float(val))
                } else {
                    Err(ParseErrorView::Number { kind: NumKind::Float, found: val })
                },
                LiteralKind::Char { terminated } => if terminated && val.len() > 0 {
                    Ok(PrimitiveView::Char(val[0]))
                } else {
                    Err(ParseErrorView::Unterminated { kind: UnterminatedKind::Char })
                },
                LiteralKind::Str { terminated } => if terminated {
                    Ok(PrimitiveView::Str(val))
                } else {
                    Err(ParseErrorView::Unterminated { kind: UnterminatedKind::Str })
                },
            },
            TokenKindView::True => Ok(PrimitiveView::Boolean(true)),
            TokenKindView::False => Ok(PrimitiveView::Boolean(false)),
            _ => Err(ParseErrorView::NoPrefix { token: self.curr }),
        }
    }

    /// The name of a function literal: the identifier after `fn`, if there
    /// is one, which is then taken.
    pub open spec fn function_name(self) -> (Option<Seq<char>>, ParserView) {
        match self.peek.kind {
            TokenKindView::Ident { label } => (Some(label), self.advance()),
            _ => (None, self),
        }
    }

    /// The parameters after the first: while a comma comes next, the comma
    /// and the identifier after it are taken.
    pub open spec fn more_params(self, params: Seq<IdentView>) -> Parsed<Seq<IdentView>>
        decreases self.fuel(),
    {
        if self.peek_is(TokenKindView::Comma) {
            let at = self.advance().advance();
            match at.ident() {
                Ok(param) => if at.fuel() < self.fuel() {
                    at.more_params(params.push(param))
                } else {
                    (Ok(params.push(param)), at)
                },
                Err(error) => (Err(error), at),
            }
        } else {
            (Ok(params), self)
        }
    }

    /// The parameters of a function literal, with the current token the
    /// opening parenthesis: identifiers between commas, up to the closing
    /// parenthesis. `start` is where the literal starts.
    pub open spec fn function_params(self, start: Span) -> Parsed<Seq<IdentView>> {
        if self.peek_is(TokenKindView::RParen) {
            (Ok(Seq::empty()), self.advance())
        } else {
            let first = self.advance();
            match first.ident() {
                Err(error) => (Err(error), first),
                Ok(param) => {
                    let (params, after) = first.more_params(seq![param]);
                    match params {
                        Err(error) => (Err(error), after),
                        Ok(params) => {
                            let (closed, done) = after.expect_peek(dummy(TokenKindView::RParen));
                            if closed {
                                (Ok(params), done)
                            } else {
                                (
                                    Err(
                                        ParseErrorView::Func {
                                            start,
                                            issue: FuncIssue::DefIncorrectlyClosed,
                                            end: Some(done.peek.span),
                                            current: done.peek.span.start_col,
                                        },
                                    ),
                                    done,
                                )
                            }
                        },
                    }
                },
            }
        }
    }

    /// Whether the next token continues an expression as an infix operator
    /// between two operands.
    pub open spec fn peek_is_binary(self) -> bool {
        match self.peek.kind {
            TokenKindView::Plus
            | TokenKindView::Minus
            | TokenKindView::ForwardSlash
            | TokenKindView::Asterisk
            | TokenKindView::Equal
            | TokenKindView::NotEqual
            | TokenKindView::LessThan
            | TokenKindView::GreaterThan
            | TokenKindView::LessThanEqual
            | TokenKindView::GreaterThanEqual
            | TokenKindView::And
            | TokenKindView::Or
            | TokenKindView::Modulo => true,
            _ => false,
        }
    }

    /// An expression whose operators all bind tighter than `precedence`:
    /// what the current token starts, extended as far as the operators
    /// that follow allow.
    pub open spec fn expression(self, precedence: Precedence) -> Parsed<ExpressionView>
        decreases self.fuel(), 4nat,
    {
        let (left, after) = self.prefix();
        match left {
            Err(error) => (Err(error), after),
            Ok(left) => if after.fuel() <= self.fuel() {
                after.infix(precedence, left)
            } else {
                (Ok(left), after)
            },
        }
    }

    /// What the current token starts: an identifier, a literal, a prefix
    /// operator with its operand, a group in parentheses, a conditional, a
    /// function literal, an array literal or a hash-map literal.
    pub open spec fn prefix(self) -> Parsed<ExpressionView>
        decreases self.fuel(), 2nat,
    {
        match self.curr.kind {
            TokenKindView::Ident { .. } => (
                match self.ident() {
                    Ok(ident) => Ok(ExpressionView::Identifier(ident)),
                    Err(error) => Err(error),
                },
                self,
            ),
            TokenKindView::Literal { .. } | TokenKindView::False | TokenKindView::True => (
                match self.primitive() {
                    Ok(primitive) => Ok(ExpressionView::Primitive(primitive)),
                    Err(error) => Err(error),
                },
                self,
            ),
            TokenKindView::Bang | TokenKindView::Minus => self.unary(),
            TokenKindView::LParen => self.grouped(),
            TokenKindView::If => self.conditional(),
            TokenKindView::Function => self.function(),
            TokenKindView::LBracket => self.array(),
            TokenKindView::LCurly => self.hash(),
            _ => (Err(ParseErrorView::NoPrefix { token: self.curr }), self),
        }
    }

    /// One extension of `left` by what the next token starts: an infix
    /// operator and its right operand, the arguments of a call, or an
    /// index. `None` where the next token starts none of these.
    pub open spec fn extension(self, left: ExpressionView) -> Option<Parsed<ExpressionView>>
        decreases self.fuel(), 2nat,
    {
        if self.peek_is_binary() {
            Some(self.advance().binary(left))
        } else if self.peek.kind is LParen {
            Some(self.advance().call(left))
        } else if self.peek.kind is LBracket {
            Some(self.advance().index(left))
        } else {
            None
        }
    }

    /// Extends `left` while the next token is no semicolon and binds
    /// tighter than `precedence`.
    pub open spec fn infix(self, precedence: Precedence, left: ExpressionView) -> Parsed<
        ExpressionView,
    >
        decreases self.fuel(), 3nat,
    {
        if !self.peek_is(TokenKindView::Semicolon) && precedence.rank() < Precedence::of(
            self.peek.kind,
        ).rank() {
            match self.extension(left) {
                None => (Ok(left), self),
                Some((Err(error), after)) => (Err(error), after),
                Some((Ok(extended), after)) => if after.fuel() < self.fuel() {
                    after.infix(precedence, extended)
                } else {
                    (Ok(extended), after)
                },
            }
        } else {
            (Ok(left), self)
        }
    }

    /// The error of a production that was asked for at the end of input.
    pub open spec fn at_end<T>(self) -> Parsed<T> {
        (Err(ParseErrorView::NoPrefix { token: self.curr }), self)
    }

    /// A prefix operator with its operand, with the current token the
    /// operator.
    pub open spec fn unary(self) -> Parsed<ExpressionView>
        decreases self.fuel(), 1nat,
    {
        if self.curr.kind is Eof {
            self.at_end()
        } else {
            let (right, after) = self.advance().expression(Precedence::Prefix);
            (
                match right {
                    Ok(right) => Ok(
                        ExpressionView::Unary { operator: self.curr, right: Box::new(right) },
                    ),
                    Err(error) => Err(error),
                },
                after,
            )
        }
    }

    /// An infix operator with its operands, with the current token the
    /// operator: the right operand binds tighter than the operator.
    pub open spec fn binary(self, left: ExpressionView) -> Parsed<ExpressionView>
        decreases self.fuel(), 1nat,
    {
        if self.curr.kind is Eof {
            self.at_end()
        } else {
            let (right, after) = self.advance().expression(Precedence::of(self.curr.kind));
            (
                match right {
                    Ok(right) => Ok(
                        ExpressionView::Binary {
                            operator: self.curr,
                            left: Box::new(left),
                            right: Box::new(right),
                        },
                    ),
                    Err(error) => Err(error),
                },
                after,
            )
        }
    }

    /// A group in parentheses, with the current token the opening
    /// parenthesis.
    pub open spec fn grouped(self) -> Parsed<ExpressionView>
        decreases self.fuel(), 1nat,
    {
        if self.curr.kind is Eof {
            self.at_end()
        } else {
            let (inner, after) = self.advance().expression(Precedence::Lowest);
            let (closed, done) = after.expect_peek(dummy(TokenKindView::RParen));
            if closed {
                (inner, done)
            } else {
                (
                    Err(
                        ParseErrorView::Expr {
                            start: self.curr.span,
                            end: Some(done.peek.span),
                            current: done.peek.span.start_col,
                        },
                    ),
                    done,
                )
            }
        }
    }

    /// A call of `function`, with the current token the opening
    /// parenthesis of the arguments.
    pub open spec fn call(self, function: ExpressionView) -> Parsed<ExpressionView>
        decreases self.fuel(), 1nat,
    {
        let (args, after) = self.expr_list(dummy(TokenKindView::RParen));
        (
            match args {
                Ok(args) => Ok(ExpressionView::FunctionCall { function: Box::new(function), args }),
                Err(error) => Err(error),
            },
            after,
        )
    }

    /// An array literal, with the current token the opening bracket.
    pub open spec fn array(self) -> Parsed<ExpressionView>
        decreases self.fuel(), 1nat,
    {
        let (elements, after) = self.expr_list(dummy(TokenKindView::RBracket));
        (
            match elements {
                Ok(elements) => Ok(ExpressionView::Array { elements }),
                Err(error) => Err(error),
            },
            after,
        )
    }

    /// An index into `arr`, with the current token the opening bracket:
    /// the index, and the closing bracket, whose absence is recorded.
    pub open spec fn index(self, arr: ExpressionView) -> Parsed<ExpressionView>
        decreases self.fuel(), 1nat,
    {
        if self.curr.kind is Eof {
            self.at_end()
        } else {
            let (index, after) = self.advance().expression(Precedence::Lowest);
            match index {
                Err(error) => (Err(error), after),
                Ok(index) => (
                    Ok(ExpressionView::ArrIndex { arr: Box::new(arr), index: Box::new(index) }),
                    after.expect_peek(dummy(TokenKindView::RBracket)).1,
                ),
            }
        }
    }

    /// A hash-map literal, with the current token the opening brace: the
    /// pairs, and the closing brace, whose absence is recorded.
    pub open spec fn hash(self) -> Parsed<ExpressionView>
        decreases self.fuel(), 1nat,
    {
        let (pairs, after) = self.hash_pairs(Seq::empty());
        match pairs {
            Err(error) => (Err(error), after),
            Ok(pairs) => (
                Ok(ExpressionView::HashMapLiteral { pairs }),
                after.expect_peek(dummy(TokenKindView::RCurly)).1,
            ),
        }
    }

    /// A list of expressions between commas, with the current token the
    /// opening delimiter, up to a token like `end`, which is taken.
    pub open spec fn expr_list(self, end: TokenView) -> Parsed<Seq<ExpressionView>>
        decreases self.fuel(), 0nat,
    {
        if self.peek_is(end.kind) {
            (Ok(Seq::empty()), self.advance())
        } else if self.curr.kind is Eof {
            self.at_end()
        } else {
            let (first, after) = self.advance().expression(Precedence::Lowest);
            match first {
                Err(error) => (Err(error), after),
                Ok(first) => if after.fuel() < self.fuel() {
                    after.more_exprs(end, seq![first], Span::nowhere())
                } else {
                    (Ok(seq![first]), after)
                },
            }
        }
    }

    /// The expressions after the first of a list: while a comma comes
    /// next, the comma is taken and the expression after it parsed; then a
    /// token like `end` is expected. `start` is the place of the last comma.
    pub open spec fn more_exprs(self, end: TokenView, exprs: Seq<ExpressionView>, start: Span)
        -> Parsed<Seq<ExpressionView>>
        decreases self.fuel(), 0nat,
    {
        if self.peek_is(TokenKindView::Comma) {
            let comma = self.advance();
            let (next, after) = comma.advance().expression(Precedence::Lowest);
            match next {
                Err(error) => (Err(error), after),
                Ok(next) => if after.fuel() < self.fuel() {
                    after.more_exprs(end, exprs.push(next), comma.curr.span)
                } else {
                    (Ok(exprs.push(next)), after)
                },
            }
        } else {
            let (closed, done) = self.expect_peek(end);
            if closed {
                (Ok(exprs), done)
            } else {
                (
                    Err(
                        ParseErrorView::Expr {
                            start,
                            end: Some(done.peek.span),
                            current: done.peek.span.start_col,
                        },
                    ),
                    done,
                )
            }
        }
    }

    /// The pairs of a hash-map literal, with the current token the opening
    /// brace or the last token of a pair: until a closing brace comes next,
    /// a key, a colon, a value, and a comma unless the brace follows. A
    /// missing colon or comma is recorded and parsing goes on.
    pub open spec fn hash_pairs(self, pairs: Seq<(ExpressionView, ExpressionView)>) -> Parsed<
        Seq<(ExpressionView, ExpressionView)>,
    >
        decreases self.fuel(), 0nat,
    {
        if self.peek_is(TokenKindView::RCurly) {
            (Ok(pairs), self)
        } else if self.curr.kind is Eof {
            self.at_end()
        } else {
            let (key, after_key) = self.advance().expression(Precedence::Lowest);
            match key {
                Err(error) => (Err(error), after_key),
                Ok(key) => {
                    let colon = after_key.expect_peek(dummy(TokenKindView::Colon)).1;
                    if colon.fuel() < self.fuel() {
                        let (val, after_val) = colon.advance().expression(Precedence::Lowest);
                        match val {
                            Err(error) => (Err(error), after_val),
                            Ok(val) => {
                                let next = if after_val.peek_is(TokenKindView::RCurly) {
                                    after_val
                                } else {
                                    after_val.expect_peek(dummy(TokenKindView::Comma)).1
                                };
                                if next.fuel() < self.fuel() {
                                    next.hash_pairs(pairs.push((key, val)))
                                } else {
                                    (Ok(pairs.push((key, val))), next)
                                }
                            },
                        }
                    } else {
                        (Ok(pairs), colon)
                    }
                },
            }
        }
    }

    /// The error of a conditional that lacks a delimiter. `at` is the
    /// state in which the delimiter was missed.
    pub open spec fn cond_error(start: Span, issue: CondIssue, at: ParserView) -> ParseErrorView {
        ParseErrorView::Conditional {
            start,
            issue,
            end: if issue == CondIssue::ExprIncorrectlyOpened {
                None
            } else {
                Some(at.peek.span)
            },
            current: if issue == CondIssue::ExprIncorrectlyClosed {
                before(at.peek.span.start_col)
            } else {
                at.peek.span.start_col
            },
        }
    }

    /// A conditional, with the current token `if`: a condition in
    /// parentheses, a block, and after `else` another block.
    pub open spec fn conditional(self) -> Parsed<ExpressionView>
        decreases self.fuel(), 1nat,
    {
        let start = self.curr.span;
        let (opened, at_paren) = self.expect_peek(dummy(TokenKindView::LParen));
        if self.curr.kind is Eof {
            self.at_end()
        } else if !opened {
            (Err(Self::cond_error(start, CondIssue::ExprIncorrectlyOpened, at_paren)), at_paren)
        } else {
            let (cond, after_cond) = at_paren.advance().expression(Precedence::Lowest);
            let (closed, at_close) = after_cond.expect_peek(dummy(TokenKindView::RParen));
            let (body, at_brace) = at_close.expect_peek(dummy(TokenKindView::LCurly));
            match cond {
                Err(error) => (Err(error), after_cond),
                Ok(cond) => if !closed {
                    (Err(Self::cond_error(start, CondIssue::ExprIncorrectlyClosed, at_close)), at_close)
                } else if !body {
                    (Err(Self::cond_error(start, CondIssue::BodyIncorrectlyOpened, at_brace)), at_brace)
                } else if at_brace.fuel() < self.fuel() {
                    let (consequence, after_block) = at_brace.advance().block(Seq::empty());
                    let (opened, at_else) = after_block.advance().expect_peek(
                        dummy(TokenKindView::LCurly),
                    );
                    if !after_block.peek_is(TokenKindView::Else) {
                        (
                            Ok(
                                ExpressionView::Conditional {
                                    cond: Box::new(cond),
                                    consequence,
                                    alternative: None,
                                },
                            ),
                            after_block,
                        )
                    } else if !opened {
                        (Err(Self::cond_error(start, CondIssue::ExpectedElse, at_else)), at_else)
                    } else if at_else.fuel() < self.fuel() {
                        let (alternative, done) = at_else.advance().block(Seq::empty());
                        (
                            Ok(
                                ExpressionView::Conditional {
                                    cond: Box::new(cond),
                                    consequence,
                                    alternative: Some(alternative),
                                },
                            ),
                            done,
                        )
                    } else {
                        at_else.at_end()
                    }
                } else {
                    at_brace.at_end()
                },
            }
        }
    }

    /// The error of a function literal that lacks a delimiter. `at` is the
    /// state in which the delimiter was missed.
    pub open spec fn func_error(start: Span, issue: FuncIssue, at: ParserView) -> ParseErrorView {
        ParseErrorView::Func {
            start,
            issue,
            end: if issue == FuncIssue::FuncMissingParens {
                None
            } else {
                Some(at.peek.span)
            },
            current: at.peek.span.start_col,
        }
    }

    /// A function literal, with the current token `fn`: a name, if there
    /// is one, the parameters in parentheses, and the body.
    pub open spec fn function(self) -> Parsed<ExpressionView>
        decreases self.fuel(), 1nat,
    {
        let start = self.curr.span;
        let (name, named) = self.function_name();
        let (opened, at_paren) = named.expect_peek(dummy(TokenKindView::LParen));
        let (params, after_params) = at_paren.function_params(start);
        let (body, at_brace) = after_params.expect_peek(dummy(TokenKindView::LCurly));
        if self.curr.kind is Eof {
            self.at_end()
        } else if !opened {
            (Err(Self::func_error(start, FuncIssue::FuncMissingParens, at_paren)), at_paren)
        } else {
            match params {
                Err(error) => (Err(error), after_params),
                Ok(params) => if !body {
                    (Err(Self::func_error(start, FuncIssue::BodyIncorrectlyOpened, at_brace)), at_brace)
                } else if at_brace.fuel() < self.fuel() {
                    let (body, done) = at_brace.advance().block(Seq::empty());
                    (Ok(ExpressionView::FunctionDef { name, params, body }), done)
                } else {
                    at_brace.at_end()
                },
            }
        }
    }

    /// The statements of a block, with the current token the first after
    /// the opening brace: statements up to a closing brace or the end of
    /// input. After each statement one token is taken; a statement that
    /// fails is left out.
    pub open spec fn block(self, stmts: Seq<StatementView>) -> (Seq<StatementView>, ParserView)
        decreases self.fuel(), 7nat,
    {
        if self.curr_is(TokenKindView::RCurly) || self.curr.kind is Eof {
            (stmts, self)
        } else {
            let (stmt, after) = self.statement();
            let stmts = match stmt {
                Some(stmt) => stmts.push(stmt),
                None => stmts,
            };
            let next = after.advance();
            if next.fuel() < self.fuel() {
                next.block(stmts)
            } else {
                (stmts, next)
            }
        }
    }

    /// One statement, by the current token: a binding after `let`, a
    /// return after `return`, an inclusion after `source`, else an
    /// expression. An error is recorded and no statement given.
    pub open spec fn statement(self) -> (Option<StatementView>, ParserView)
        decreases self.fuel(), 6nat,
    {
        match self.curr.kind {
            TokenKindView::Let => self.let_statement(),
            TokenKindView::Return => self.return_statement(),
            TokenKindView::Source => self.source_statement(),
            _ => self.expression_statement(),
        }
    }

    /// The expression that a binding holds: a function literal takes the
    /// rendering of the name's token as its name.
    pub open spec fn bound(name: IdentView, val: ExpressionView) -> ExpressionView {
        match val {
            ExpressionView::FunctionDef { name: _, params, body } => ExpressionView::FunctionDef {
                name: Some(name.token.text()),
                params,
                body,
            },
            _ => val,
        }
    }

    /// A binding, with the current token `let`: a name, `=`, an
    /// expression, and a semicolon if one follows.
    pub open spec fn let_statement(self) -> (Option<StatementView>, ParserView)
        decreases self.fuel(), 5nat,
    {
        let (named, at_name) = self.expect_peek(dummy(TokenKindView::Ident { label: Seq::empty() }));
        let (assigned, at_assign) = at_name.expect_peek(dummy(TokenKindView::Assign));
        if !named {
            (None, at_name)
        } else if !assigned {
            (None, at_assign)
        } else {
            let (val, after) = at_assign.advance().expression(Precedence::Lowest);
            match (val, at_name.ident()) {
                (Ok(val), Ok(name)) => (
                    Some(StatementView::Assignment { name, val: Self::bound(name, val) }),
                    after.skip_semicolon(),
                ),
                (Err(error), _) => (None, after.record(error)),
                (_, Err(error)) => (None, after.record(error)),
            }
        }
    }

    /// A return, with the current token `return`: an expression, and a
    /// semicolon if one follows.
    pub open spec fn return_statement(self) -> (Option<StatementView>, ParserView)
        decreases self.fuel(), 5nat,
    {
        let (val, after) = self.advance().expression(Precedence::Lowest);
        match val {
            Ok(val) => (Some(StatementView::Return(val)), after.skip_semicolon()),
            Err(error) => (None, after.record(error)),
        }
    }

    /// An inclusion, with the current token `source`: a string literal,
    /// and a semicolon if one follows. Any other expression is recorded as
    /// a string that was expected.
    pub open spec fn source_statement(self) -> (Option<StatementView>, ParserView)
        decreases self.fuel(), 5nat,
    {
        let (val, after) = self.advance().expression(Precedence::Lowest);
        match val {
            Ok(ExpressionView::Primitive(PrimitiveView::Str(path))) => (
                Some(StatementView::Source(path)),
                after.skip_semicolon(),
            ),
            Ok(_) => (
                None,
                after.skip_semicolon().record(
                    ParseErrorView::Expectation {
                        expected: dummy(
                            TokenKindView::Literal {
                                kind: LiteralKind::Str { terminated: true },
                                val: Seq::empty(),
                            },
                        ),
                        got: self.advance().curr,
                    },
                ),
            ),
            Err(error) => (None, after.record(error)),
        }
    }

    /// An expression as a statement: the expression, and a semicolon if
    /// one follows, which is taken even after an error.
    pub open spec fn expression_statement(self) -> (Option<StatementView>, ParserView)
        decreases self.fuel(), 5nat,
    {
        let (val, after) = self.expression(Precedence::Lowest);
        match val {
            Ok(val) => (Some(StatementView::Expression(val)), after.skip_semicolon()),
            Err(error) => (None, after.skip_semicolon().record(error)),
        }
    }

    /// The statements of a program: statements up to the first end of
    /// input. After each statement one token is taken; a statement that
    /// fails is left out.
    pub open spec fn program(self, stmts: Seq<StatementView>) -> (Seq<StatementView>, ParserView)
        decreases self.fuel(),
    {
        if self.curr.kind is Eof {
            (stmts, self)
        } else {
            let (stmt, after) = self.statement();
            let stmts = match stmt {
                Some(stmt) => stmts.push(stmt),
                None => stmts,
            };
            let next = after.advance();
            if next.fuel() < self.fuel() {
                next.program(stmts)
            } else {
                (stmts, next)
            }
        }
    }
}

} // verus!
