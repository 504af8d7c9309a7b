//! What can go wrong while parsing. Each error keeps the place where it was
//! met, so that a diagnostic can point at the source.
use crate::lexer::token::span::Span;
use crate::lexer::token::{Token, TokenView};
use crate::text::{join, nat_digits, number_to_string};
use vstd::prelude::*;

verus! {

/// What is wrong with a conditional.
#[derive(Clone, Copy, Debug, PartialEq, Eq, Structural)]
pub enum CondIssue {
    /// The condition does not start with `(`.
    ExprIncorrectlyOpened,
    /// The condition does not end with `)`.
    ExprIncorrectlyClosed,
    /// The consequence does not start with `{`.
    BodyIncorrectlyOpened,
    /// `else` is not followed by `{`.
    ExpectedElse,
}

/// What is wrong with a function literal.
#[derive(Clone, Copy, Debug, PartialEq, Eq, Structural)]
pub enum FuncIssue {
    /// The parameters do not start with `(`.
    FuncMissingParens,
    /// The body does not start with `{`.
    BodyIncorrectlyOpened,
    /// The parameters do not end with `)`.
    DefIncorrectlyClosed,
}

/// The kind of number that was expected.
#[derive(Clone, Copy, Debug, PartialEq, Eq, Structural)]
pub enum NumKind {
    Int,
    Float,
}

/// The kind of literal that was left open.
#[derive(Clone, Copy, Debug, PartialEq, Eq, Structural)]
pub enum UnterminatedKind {
    Char,
    Str,
}

impl CondIssue {
    /// What the issue reads as.
    pub open spec fn text(self) -> Seq<char> {
        match self {
            CondIssue::ExprIncorrectlyOpened => "Conditional expression didn't open properly. Expected '('"@,
            CondIssue::ExprIncorrectlyClosed => "Condtional expression didn't close properly. Expected ')'"@,
            CondIssue::BodyIncorrectlyOpened => "Body of conditonal expression didn't open properly. Expected '{'"@,
            CondIssue::ExpectedElse => "Expected an Else block for this conditional expression."@,
        }
    }

    /// Renders the issue.
    pub fn to_string(&self) -> (s: String)
        ensures
            s@ == self.text(),
    {
        match self {
            CondIssue::ExprIncorrectlyOpened => String::from_str(
                "Conditional expression didn't open properly. Expected '('",
            ),
            CondIssue::ExprIncorrectlyClosed => String::from_str(
                "Condtional expression didn't close properly. Expected ')'",
            ),
            CondIssue::BodyIncorrectlyOpened => String::from_str(
                "Body of conditonal expression didn't open properly. Expected '{'",
            ),
            CondIssue::ExpectedElse => String::from_str(
                "Expected an Else block for this conditional expression.",
            ),
        }
    }
}

impl FuncIssue {
    /// What the issue reads as.
    pub open spec fn text(self) -> Seq<char> {
        match self {
            FuncIssue::FuncMissingParens => "Expected parentheses after function definition"@,
            FuncIssue::BodyIncorrectlyOpened => "Function body wasn't opened properly"@,
            FuncIssue::DefIncorrectlyClosed => "Function definition wasn't closed properly"@,
        }
    }

    /// Renders the issue.
    pub fn to_string(&self) -> (s: String)
        ensures
            s@ == self.text(),
    {
        match self {
            FuncIssue::FuncMissingParens => String::from_str(
                "Expected parentheses after function definition",
            ),
            FuncIssue::BodyIncorrectlyOpened => String::from_str(
                "Function body wasn't opened properly",
            ),
            FuncIssue::DefIncorrectlyClosed => String::from_str(
                "Function definition wasn't closed properly",
            ),
        }
    }
}

/// The heading of a diagnostic: a line and a column, in colour.
pub open spec fn head_text(line: int, column: int) -> Seq<char> {
    "\x1b[94m--> At "@ + nat_digits(line as nat) + ":"@ + nat_digits(column as nat) + "\x1b[0m"@
}

/// Renders the heading of a diagnostic.
fn head(line: u128, column: u128) -> (s: String)
    ensures
        s@ == head_text(line as int, column as int),
{
    let at = join("\x1b[94m--> At ", number_to_string(line).as_str());
    let colon = join(at.as_str(), ":");
    let place = join(colon.as_str(), number_to_string(column).as_str());
    join(place.as_str(), "\x1b[0m")
}

/// One less than `n`, or zero.
pub open spec fn before(n: usize) -> usize {
    if n > 0 {
        (n - 1) as usize
    } else {
        0
    }
}

/// The mathematical value of a parse error.
#[allow(inconsistent_fields)]
pub enum ParseErrorView {
    NoPrefix { token: TokenView },
    Conditional { start: Span, issue: CondIssue, end: Option<Span>, current: usize },
    Func { start: Span, issue: FuncIssue, end: Option<Span>, current: usize },
    Expr { start: Span, end: Option<Span>, current: usize },
    Ident { found: TokenView },
    Number { kind: NumKind, found: Seq<char> },
    Unterminated { kind: UnterminatedKind },
    Expectation { expected: TokenView, got: TokenView },
}

/// The span at which a construct ends: `end`, or `start` where none is known.
pub open spec fn end_or(start: Span, end: Option<Span>) -> Span {
    match end {
        Some(span) => span,
        None => start,
    }
}

impl ParseErrorView {
    /// The message of the error.
    pub open spec fn message(self) -> Seq<char> {
        match self {
            ParseErrorView::NoPrefix { token } => "\tEncountered an illegal token "@
                + token.kind.text(),
            ParseErrorView::Conditional { issue, .. } => "\t"@ + issue.text(),
            ParseErrorView::Func { issue, .. } => "\t"@ + issue.text(),
            ParseErrorView::Expr { .. } => "Expression did not close properly"@,
            ParseErrorView::Ident { found } => "Expected an identifier, received "@ + found.text(),
            ParseErrorView::Number { kind, found } => "Expected "@ + (match kind {
                NumKind::Int => "an integer"@,
                NumKind::Float => "a floating point number"@,
            }) + ", received "@ + found,
            ParseErrorView::Unterminated { kind } => match kind {
                UnterminatedKind::Char => "Unterminated character"@,
                UnterminatedKind::Str => "Unterminated string"@,
            },
            ParseErrorView::Expectation { expected, got } => "Expected "@ + expected.text()
                + ", found "@ + got.text(),
        }
    }

    /// The first and the last line that the error covers, or zeros where
    /// the error keeps no place.
    pub open spec fn range(self) -> (usize, usize) {
        match self {
            ParseErrorView::NoPrefix { token } => (token.span.start_line, token.span.end_line),
            ParseErrorView::Conditional { start, end, .. } => (
                start.start_line,
                end_or(start, end).end_line,
            ),
            ParseErrorView::Func { start, end, .. } => (
                start.start_line,
                end_or(start, end).end_line,
            ),
            ParseErrorView::Ident { found } => (found.span.start_line, found.span.end_line),
            _ => (0, 0),
        }
    }

    /// The columns between which the error is underlined, or zeros where
    /// the error keeps no place.
    pub open spec fn width(self) -> (usize, usize) {
        match self {
            ParseErrorView::NoPrefix { token } => (token.span.start_col, token.span.end_col),
            ParseErrorView::Conditional { start, issue, end, .. } => (
                if issue == CondIssue::ExprIncorrectlyClosed {
                    start.start_col
                } else {
                    before(start.start_col)
                },
                end_or(start, end).end_col,
            ),
            ParseErrorView::Func { start, issue, end, .. } => (
                before(start.start_col),
                if issue == FuncIssue::BodyIncorrectlyOpened {
                    if end_or(start, end).end_col + 3 <= usize::MAX {
                        (end_or(start, end).end_col + 3) as usize
                    } else {
                        usize::MAX
                    }
                } else {
                    end_or(start, end).end_col
                },
            ),
            ParseErrorView::Ident { found } => (found.span.start_line, found.span.end_line),
            _ => (0, 0),
        }
    }

    /// The heading of the diagnostic, or nothing where the error keeps no
    /// place.
    pub open spec fn head(self) -> Seq<char> {
        match self {
            ParseErrorView::NoPrefix { token } => head_text(
                token.span.start_line as int,
                token.span.start_col + 1,
            ),
            ParseErrorView::Conditional { current, .. } => head_text(
                self.range().1 as int,
                current as int,
            ),
            ParseErrorView::Func { current, .. } => head_text(self.range().1 as int, current as int),
            ParseErrorView::Ident { found } => head_text(
                found.span.start_line as int,
                found.span.start_col + 1,
            ),
            _ => Seq::empty(),
        }
    }

    /// Whether the error is about a token that the language knows, met in a
    /// wrong place: another error then tells of the same token.
    pub open spec fn false_illegal(self) -> bool {
        match self {
            ParseErrorView::NoPrefix { token } => token.is_actually_legal(),
            ParseErrorView::Ident { found } => found.is_actually_legal(),
            _ => false,
        }
    }
}

/// What every parse error can tell of itself. An error that keeps no place
/// tells its message only: for it the lines and the columns are zeros,
/// the heading is empty, and it is about no token that the language knows.
pub trait ParserError {
    /// The message of the error.
    fn emit_err(&self) -> String;

    /// The first and the last line that the error covers.
    fn range(&self) -> (lines: (usize, usize))
        default_ensures
            lines == (0usize, 0usize),
    {
        (0, 0)
    }

    /// The columns between which the error is underlined.
    fn width(&self) -> (columns: (usize, usize))
        default_ensures
            columns == (0usize, 0usize),
    {
        (0, 0)
    }

    /// The heading of the diagnostic.
    fn err_head(&self) -> (heading: String)
        default_ensures
            heading@ == Seq::<char>::empty(),
    {
        String::new()
    }

    /// Whether the error is about a token that the language knows.
    fn check_false_illegal(&self) -> (known: bool)
        default_ensures
            !known,
    {
        false
    }
}

/// No expression starts with this token.
#[derive(Debug, PartialEq)]
pub struct NoPrefixParser {
    pub token: Token,
}

/// A conditional that lacks one of its delimiters.
#[derive(Debug, PartialEq)]
pub struct IncompleteConditional {
    pub start: Span,
    pub issue: CondIssue,
    pub end: Option<Span>,
    pub current: usize,
}

/// A function literal that lacks one of its delimiters.
#[derive(Debug, PartialEq)]
pub struct FuncError {
    pub start: Span,
    pub issue: FuncIssue,
    pub end: Option<Span>,
    pub current: usize,
}

/// A list of expressions that lacks its closing delimiter.
#[derive(Debug, PartialEq)]
pub struct ExprError {
    pub start: Span,
    pub end: Option<Span>,
    pub current: usize,
}

/// A token that should have been an identifier.
#[derive(Debug, PartialEq)]
pub struct ExpectedIdent {
    pub found: Token,
}

/// A literal that does not read as a number of its kind.
#[derive(Debug, PartialEq)]
pub struct ExpectedNumber {
    pub kind: NumKind,
    pub found: String,
}

/// A character or string literal without its closing quote.
#[derive(Debug, PartialEq)]
pub struct UnterminatedLiteral {
    pub kind: UnterminatedKind,
}

/// A token other than the one that the grammar asks for.
#[derive(Debug, PartialEq)]
pub struct BadExpectations {
    pub expected: Token,
    pub got: Token,
}

impl View for NoPrefixParser {
    type V = ParseErrorView;

    open spec fn view(&self) -> ParseErrorView {
        ParseErrorView::NoPrefix { token: self.token@ }
    }
}

impl View for IncompleteConditional {
    type V = ParseErrorView;

    open spec fn view(&self) -> ParseErrorView {
        ParseErrorView::Conditional {
            start: self.start,
            issue: self.issue,
            end: self.end,
            current: self.current,
        }
    }
}

impl View for FuncError {
    type V = ParseErrorView;

    open spec fn view(&self) -> ParseErrorView {
        ParseErrorView::Func {
            start: self.start,
            issue: self.issue,
            end: self.end,
            current: self.current,
        }
    }
}

impl View for ExprError {
    type V = ParseErrorView;

    open spec fn view(&self) -> ParseErrorView {
        ParseErrorView::Expr { start: self.start, end: self.end, current: self.current }
    }
}

impl View for ExpectedIdent {
    type V = ParseErrorView;

    open spec fn view(&self) -> ParseErrorView {
        ParseErrorView::Ident { found: self.found@ }
    }
}

impl View for ExpectedNumber {
    type V = ParseErrorView;

    open spec fn view(&self) -> ParseErrorView {
        ParseErrorView::Number { kind: self.kind, found: self.found@ }
    }
}

impl View for UnterminatedLiteral {
    type V = ParseErrorView;

    open spec fn view(&self) -> ParseErrorView {
        ParseErrorView::Unterminated { kind: self.kind }
    }
}

impl View for BadExpectations {
    type V = ParseErrorView;

    open spec fn view(&self) -> ParseErrorView {
        ParseErrorView::Expectation { expected: self.expected@, got: self.got@ }
    }
}

/// One less than `n`, or zero.
fn one_before(n: usize) -> (r: usize)
    ensures
        r == before(n),
{
    if n > 0 {
        n - 1
    } else {
        0
    }
}

/// The span at which a construct ends.
fn end_span(start: &Span, end: &Option<Span>) -> (span: Span)
    ensures
        span == end_or(*start, *end),
{
    match end {
        Some(span) => *span,
        None => *start,
    }
}

impl IncompleteConditional {
    pub fn new(start: Span, issue: CondIssue, end: Option<Span>, current: usize) -> (e: Self)
        ensures
            e@ == (ParseErrorView::Conditional { start, issue, end, current }),
    {
        Self { start, issue, end, current }
    }
}

impl FuncError {
    pub fn new(start: Span, issue: FuncIssue, end: Option<Span>, current: usize) -> (e: Self)
        ensures
            e@ == (ParseErrorView::Func { start, issue, end, current }),
    {
        Self { start, issue, end, current }
    }
}

impl ExprError {
    pub fn new(start: Span, end: Option<Span>, current: usize) -> (e: Self)
        ensures
            e@ == (ParseErrorView::Expr { start, end, current }),
    {
        Self { start, end, current }
    }
}

impl ExpectedIdent {
    /// The error for a token that should have been an identifier.
    pub fn from(value: Token) -> (e: Self)
        ensures
            e@ == (ParseErrorView::Ident { found: value@ }),
    {
        Self { found: value }
    }
}

impl ExpectedNumber {
    pub fn new(kind: NumKind, found: String) -> (e: Self)
        ensures
            e@ == (ParseErrorView::Number { kind, found: found@ }),
    {
        Self { kind, found }
    }
}

impl UnterminatedLiteral {
    /// The error for a literal of the given kind that was left open.
    pub fn from(value: UnterminatedKind) -> (e: Self)
        ensures
            e@ == (ParseErrorView::Unterminated { kind: value }),
    {
        Self { kind: value }
    }
}

impl BadExpectations {
    pub fn new(expected: Token, got: Token) -> (e: Self)
        ensures
            e@ == (ParseErrorView::Expectation { expected: expected@, got: got@ }),
    {
        Self { expected, got }
    }
}

impl ParserError for NoPrefixParser {
    fn emit_err(&self) -> (s: String)
        ensures
            s@ == self@.message(),
    {
        join("\tEncountered an illegal token ", self.token.kind.to_string().as_str())
    }

    fn range(&self) -> (r: (usize, usize))
        ensures
            r == self@.range(),
    {
        (self.token.span.start_line, self.token.span.end_line)
    }

    fn width(&self) -> (r: (usize, usize))
        ensures
            r == self@.width(),
    {
        (self.token.span.start_col, self.token.span.end_col)
    }

    fn err_head(&self) -> (s: String)
        ensures
            s@ == self@.head(),
    {
        head(self.token.span.start_line as u128, self.token.span.start_col as u128 + 1)
    }

    fn check_false_illegal(&self) -> (r: bool)
        ensures
            r == self@.false_illegal(),
    {
        self.token.is_actually_legal()
    }
}

impl ParserError for IncompleteConditional {
    fn emit_err(&self) -> (s: String)
        ensures
            s@ == self@.message(),
    {
        join("\t", self.issue.to_string().as_str())
    }

    fn range(&self) -> (r: (usize, usize))
        ensures
            r == self@.range(),
    {
        (self.start.start_line, end_span(&self.start, &self.end).end_line)
    }

    fn width(&self) -> (r: (usize, usize))
        ensures
            r == self@.width(),
    {
        let start = match self.issue {
            CondIssue::ExprIncorrectlyClosed => self.start.start_col,
            _ => one_before(self.start.start_col),
        };
        (start, end_span(&self.start, &self.end).end_col)
    }

    fn err_head(&self) -> (s: String)
        ensures
            s@ == self@.head(),
    {
        head(end_span(&self.start, &self.end).end_line as u128, self.current as u128)
    }

    fn check_false_illegal(&self) -> (r: bool)
        ensures
            r == self@.false_illegal(),
    {
        false
    }
}

impl ParserError for FuncError {
    fn emit_err(&self) -> (s: String)
        ensures
            s@ == self@.message(),
    {
        join("\t", self.issue.to_string().as_str())
    }

    fn range(&self) -> (r: (usize, usize))
        ensures
            r == self@.range(),
    {
        (self.start.start_line, end_span(&self.start, &self.end).end_line)
    }

    fn width(&self) -> (r: (usize, usize))
        ensures
            r == self@.width(),
    {
        let end_col = end_span(&self.start, &self.end).end_col;
        let end = match self.issue {
            FuncIssue::BodyIncorrectlyOpened => if end_col <= usize::MAX - 3 {
                end_col + 3
            } else {
                usize::MAX
            },
            _ => end_col,
        };
        (one_before(self.start.start_col), end)
    }

    fn err_head(&self) -> (s: String)
        ensures
            s@ == self@.head(),
    {
        head(end_span(&self.start, &self.end).end_line as u128, self.current as u128)
    }

    fn check_false_illegal(&self) -> (r: bool)
        ensures
            r == self@.false_illegal(),
    {
        false
    }
}

impl ParserError for ExprError {
    fn emit_err(&self) -> (s: String)
        ensures
            s@ == self@.message(),
    {
        String::from_str("Expression did not close properly")
    }

    fn range(&self) -> (r: (usize, usize))
        ensures
            r == self@.range(),
    {
        (0, 0)
    }

    fn width(&self) -> (r: (usize, usize))
        ensures
            r == self@.width(),
    {
        (0, 0)
    }

    fn err_head(&self) -> (s: String)
        ensures
            s@ == self@.head(),
    {
        String::new()
    }

    fn check_false_illegal(&self) -> (r: bool)
        ensures
            r == self@.false_illegal(),
    {
        false
    }
}

impl ParserError for ExpectedIdent {
    fn emit_err(&self) -> (s: String)
        ensures
            s@ == self@.message(),
    {
        join("Expected an identifier, received ", self.found.to_string().as_str())
    }

    fn range(&self) -> (r: (usize, usize))
        ensures
            r == self@.range(),
    {
        (self.found.span.start_line, self.found.span.end_line)
    }

    fn width(&self) -> (r: (usize, usize))
        ensures
            r == self@.width(),
    {
        (self.found.span.start_line, self.found.span.end_line)
    }

    fn err_head(&self) -> (s: String)
        ensures
            s@ == self@.head(),
    {
        head(self.found.span.start_line as u128, self.found.span.start_col as u128 + 1)
    }

    fn check_false_illegal(&self) -> (r: bool)
        ensures
            r == self@.false_illegal(),
    {
        self.found.is_actually_legal()
    }
}

impl ParserError for ExpectedNumber {
    fn emit_err(&self) -> (s: String)
        ensures
            s@ == self@.message(),
    {
        let kind = match self.kind {
            NumKind::Int => "an integer",
            NumKind::Float => "a floating point number",
        };
        let expected = join("Expected ", kind);
        let received = join(expected.as_str(), ", received ");
        join(received.as_str(), self.found.as_str())
    }

    fn range(&self) -> (r: (usize, usize))
        ensures
            r == self@.range(),
    {
        (0, 0)
    }

    fn width(&self) -> (r: (usize, usize))
        ensures
            r == self@.width(),
    {
        (0, 0)
    }

    fn err_head(&self) -> (s: String)
        ensures
            s@ == self@.head(),
    {
        String::new()
    }

    fn check_false_illegal(&self) -> (r: bool)
        ensures
            r == self@.false_illegal(),
    {
        false
    }
}

impl ParserError for UnterminatedLiteral {
    fn emit_err(&self) -> (s: String)
        ensures
            s@ == self@.message(),
    {
        match self.kind {
            UnterminatedKind::Char => String::from_str("Unterminated character"),
            UnterminatedKind::Str => String::from_str("Unterminated string"),
        }
    }

    fn range(&self) -> (r: (usize, usize))
        ensures
            r == self@.range(),
    {
        (0, 0)
    }

    fn width(&self) -> (r: (usize, usize))
        ensures
            r == self@.width(),
    {
        (0, 0)
    }

    fn err_head(&self) -> (s: String)
        ensures
            s@ == self@.head(),
    {
        String::new()
    }

    fn check_false_illegal(&self) -> (r: bool)
        ensures
            r == self@.false_illegal(),
    {
        false
    }
}

impl ParserError for BadExpectations {
    fn emit_err(&self) -> (s: String)
        ensures
            s@ == self@.message(),
    {
        let expected = join("Expected ", self.expected.to_string().as_str());
        let found = join(expected.as_str(), ", found ");
        join(found.as_str(), self.got.to_string().as_str())
    }

    fn range(&self) -> (r: (usize, usize))
        ensures
            r == self@.range(),
    {
        (0, 0)
    }

    fn width(&self) -> (r: (usize, usize))
        ensures
            r == self@.width(),
    {
        (0, 0)
    }

    fn err_head(&self) -> (s: String)
        ensures
            s@ == self@.head(),
    {
        String::new()
    }

    fn check_false_illegal(&self) -> (r: bool)
        ensures
            r == self@.false_illegal(),
    {
        false
    }
}

/// Any one of the parse errors.
#[derive(Debug, PartialEq)]
pub enum ParseError {
    NoPrefix(NoPrefixParser),
    Conditional(IncompleteConditional),
    Func(FuncError),
    Expr(ExprError),
    Ident(ExpectedIdent),
    Number(ExpectedNumber),
    Unterminated(UnterminatedLiteral),
    Expectation(BadExpectations),
}

impl View for ParseError {
    type V = ParseErrorView;

    open spec fn view(&self) -> ParseErrorView {
        match self {
            ParseError::NoPrefix(e) => e@,
            ParseError::Conditional(e) => e@,
            ParseError::Func(e) => e@,
            ParseError::Expr(e) => e@,
            ParseError::Ident(e) => e@,
            ParseError::Number(e) => e@,
            ParseError::Unterminated(e) => e@,
            ParseError::Expectation(e) => e@,
        }
    }
}

impl ParserError for ParseError {
    fn emit_err(&self) -> (s: String)
        ensures
            s@ == self@.message(),
    {
        match self {
            ParseError::NoPrefix(e) => e.emit_err(),
            ParseError::Conditional(e) => e.emit_err(),
            ParseError::Func(e) => e.emit_err(),
            ParseError::Expr(e) => e.emit_err(),
            ParseError::Ident(e) => e.emit_err(),
            ParseError::Number(e) => e.emit_err(),
            ParseError::Unterminated(e) => e.emit_err(),
            ParseError::Expectation(e) => e.emit_err(),
        }
    }

    fn range(&self) -> (r: (usize, usize))
        ensures
            r == self@.range(),
    {
        match self {
            ParseError::NoPrefix(e) => e.range(),
            ParseError::Conditional(e) => e.range(),
            ParseError::Func(e) => e.range(),
            ParseError::Expr(e) => e.range(),
            ParseError::Ident(e) => e.range(),
            ParseError::Number(e) => e.range(),
            ParseError::Unterminated(e) => e.range(),
            ParseError::Expectation(e) => e.range(),
        }
    }

    fn width(&self) -> (r: (usize, usize))
        ensures
            r == self@.width(),
    {
        match self {
            ParseError::NoPrefix(e) => e.width(),
            ParseError::Conditional(e) => e.width(),
            ParseError::Func(e) => e.width(),
            ParseError::Expr(e) => e.width(),
            ParseError::Ident(e) => e.width(),
            ParseError::Number(e) => e.width(),
            ParseError::Unterminated(e) => e.width(),
            ParseError::Expectation(e) => e.width(),
        }
    }

    fn err_head(&self) -> (s: String)
        ensures
            s@ == self@.head(),
    {
        match self {
            ParseError::NoPrefix(e) => e.err_head(),
            ParseError::Conditional(e) => e.err_head(),
            ParseError::Func(e) => e.err_head(),
            ParseError::Expr(e) => e.err_head(),
            ParseError::Ident(e) => e.err_head(),
            ParseError::Number(e) => e.err_head(),
            ParseError::Unterminated(e) => e.err_head(),
            ParseError::Expectation(e) => e.err_head(),
        }
    }

    fn check_false_illegal(&self) -> (r: bool)
        ensures
            r == self@.false_illegal(),
    {
        match self {
            ParseError::NoPrefix(e) => e.check_false_illegal(),
            ParseError::Conditional(e) => e.check_false_illegal(),
            ParseError::Func(e) => e.check_false_illegal(),
            ParseError::Expr(e) => e.check_false_illegal(),
            ParseError::Ident(e) => e.check_false_illegal(),
            ParseError::Number(e) => e.check_false_illegal(),
            ParseError::Unterminated(e) => e.check_false_illegal(),
            ParseError::Expectation(e) => e.check_false_illegal(),
        }
    }
}

/// The values of a list of errors.
pub open spec fn errors_view(errors: Seq<ParseError>) -> Seq<ParseErrorView> {
    Seq::new(errors.len(), |i: int| errors[i]@)
}

} // verus!
