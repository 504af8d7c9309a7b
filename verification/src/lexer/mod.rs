//! The lexer: a cursor over the source text that hands out tokens on demand.
pub mod laws;
pub mod token;

use crate::text::{chars_of, string_of};
use token::kind::{LiteralKind, TokenKind, TokenKindView};
use token::span::Span;
use token::{Token, TokenView, EOF_CHAR};
use vstd::prelude::*;

verus! {

/// Whether a character may stand in an identifier: an ASCII letter, an
/// ASCII digit or an underscore.
pub open spec fn is_ident_char(c: char) -> bool {
    is_ident_start(c) || is_digit(c)
}

/// Whether a character may start an identifier: an ASCII letter or an
/// underscore.
pub open spec fn is_ident_start(c: char) -> bool {
    ('a' <= c && c <= 'z') || ('A' <= c && c <= 'Z') || c == '_'
}

/// Whether a character is an ASCII decimal digit.
pub open spec fn is_digit(c: char) -> bool {
    '0' <= c && c <= '9'
}

/// Whether a character is ASCII whitespace: space, tab, line feed, form
/// feed or carriage return.
pub open spec fn is_blank(c: char) -> bool {
    c == ' ' || c == '\t' || c == '\n' || c == '\x0C' || c == '\r'
}

/// The positions at which the lines of a text start: position 0, and the
/// position after each line feed.
pub open spec fn line_starts(input: Seq<char>) -> Seq<usize>
    decreases input.len(),
{
    if input.len() == 0 {
        seq![0usize]
    } else if input.last() == '\n' {
        line_starts(input.drop_last()).push(input.len() as usize)
    } else {
        line_starts(input.drop_last())
    }
}

/// The index of the first line start at or after index `i` that lies beyond
/// `bound`, or the number of line starts when there is none.
pub open spec fn first_start_beyond(starts: Seq<usize>, bound: int, i: int) -> int
    decreases starts.len() - i,
{
    if i < 0 || i >= starts.len() {
        starts.len() as int
    } else if starts[i] > bound {
        i
    } else {
        first_start_beyond(starts, bound, i + 1)
    }
}

/// The span of the text between two positions. A line is numbered by the
/// count of line starts up to the position, and a column is the distance
/// from the start of that line.
pub open spec fn span_between(input: Seq<char>, start: int, end: int) -> Span {
    let starts = line_starts(input);
    let start_line = first_start_beyond(starts, start, 0);
    let end_line = first_start_beyond(starts, end - 1, 0);
    Span {
        start_line: start_line as usize,
        end_line: end_line as usize,
        start_col: (start - starts[start_line - 1]) as usize,
        end_col: (if end_line == 0 {
            end
        } else {
            end - starts[end_line - 1]
        }) as usize,
    }
}

/// The mathematical value of a [`Lexer`]: the text and the position of the
/// character under the cursor.
pub struct LexerView {
    pub input: Seq<char>,
    pub position: int,
}

impl LexerView {
    /// The character under the cursor, or the end marker past the text.
    pub open spec fn current(self) -> char {
        if self.position < self.input.len() {
            self.input[self.position as int]
        } else {
            EOF_CHAR
        }
    }

    /// The character after the one under the cursor.
    pub open spec fn peek(self) -> char {
        if self.position + 1 < self.input.len() {
            self.input[self.position + 1]
        } else {
            EOF_CHAR
        }
    }

    /// The character two places after the one under the cursor.
    pub open spec fn peek_peek(self) -> char {
        if self.position + 2 < self.input.len() {
            self.input[self.position + 2]
        } else {
            EOF_CHAR
        }
    }

    /// Whether no character follows the one under the cursor.
    pub open spec fn reached_end_of_input(self) -> bool {
        self.position + 1 >= self.input.len()
    }

    /// The cursor moved one character on; at the end of the text it stays.
    pub open spec fn advance(self) -> LexerView {
        if self.position < self.input.len() {
            LexerView { input: self.input, position: self.position + 1 }
        } else {
            self
        }
    }

    /// The text from `from` up to `to`, cut off at the end of the input.
    pub open spec fn slice(self, from: int, to: int) -> Seq<char> {
        let end = if to < self.input.len() {
            to
        } else {
            self.input.len() as int
        };
        if 0 <= from <= end {
            self.input.subrange(from, end)
        } else {
            Seq::empty()
        }
    }

    /// The cursor moved over any whitespace.
    pub open spec fn skip_whitespace(self) -> LexerView
        decreases self.input.len() - self.position,
    {
        if self.position < self.input.len() && is_blank(self.current()) {
            self.advance().skip_whitespace()
        } else {
            self
        }
    }

    /// The cursor moved over the characters of an identifier.
    pub open spec fn ident_end(self) -> LexerView
        decreases self.input.len() - self.position,
    {
        if self.position < self.input.len() && is_ident_char(self.current()) {
            self.advance().ident_end()
        } else {
            self
        }
    }

    /// The cursor moved over digits and dots, and whether a dot was met,
    /// here or before (`dot`).
    pub open spec fn number_end(self, dot: bool) -> (bool, LexerView)
        decreases self.input.len() - self.position,
    {
        if self.position < self.input.len() && (is_digit(self.current()) || self.current() == '.') {
            self.advance().number_end(dot || self.current() == '.')
        } else {
            (dot, self)
        }
    }

    /// Reads the body of a string with the cursor after the opening quote
    /// and `read` already collected. A backslash is dropped and the
    /// character after it taken as it is. The string ends at a quote, which
    /// is skipped, or, unterminated, once the cursor stands on the last
    /// character of the text.
    pub open spec fn string_body(self, read: Seq<char>) -> (Seq<char>, bool, LexerView)
        decreases self.input.len() - self.position,
    {
        if self.current() == '"' {
            (read, true, self.advance())
        } else {
            let escaped = if self.current() == '\\' {
                self.advance()
            } else {
                self
            };
            let taken = escaped.advance();
            if taken.reached_end_of_input() {
                (read.push(escaped.current()), false, taken)
            } else {
                taken.string_body(read.push(escaped.current()))
            }
        }
    }

    /// Reads a string literal with the cursor on its opening quote.
    pub open spec fn read_str(self) -> (TokenKindView, LexerView) {
        let (val, terminated, rest) = self.advance().string_body(Seq::empty());
        (TokenKindView::Literal { kind: LiteralKind::Str { terminated }, val }, rest)
    }

    /// Reads a character literal with the cursor on its opening quote: the
    /// next character is its value, and a quote after it closes it.
    pub open spec fn read_char(self) -> (TokenKindView, LexerView) {
        let value = self.advance();
        let close = value.advance();
        let terminated = close.current() == '\'';
        (
            TokenKindView::Literal {
                kind: LiteralKind::Char { terminated },
                val: seq![value.current()],
            },
            if terminated {
                close.advance()
            } else {
                close
            },
        )
    }

    /// Reads a number with the cursor on its first digit. A number with a
    /// dot in it is a float.
    pub open spec fn read_int(self) -> (TokenKindView, LexerView) {
        let (dot, rest) = self.number_end(false);
        (
            TokenKindView::Literal {
                kind: if dot {
                    LiteralKind::Float
                } else {
                    LiteralKind::Int
                },
                val: self.slice(self.position as int, rest.position as int),
            },
            rest,
        )
    }

    /// Reads an identifier or a keyword with the cursor on its first
    /// character.
    pub open spec fn read_word(self) -> (TokenKindView, LexerView) {
        let rest = self.ident_end();
        let label = self.slice(self.position as int, rest.position as int);
        (
            match TokenKindView::keyword(label) {
                Some(keyword) => keyword,
                None => TokenKindView::Ident { label },
            },
            rest,
        )
    }

    /// The cursor moved to the end of a line comment: a line feed, or the
    /// last character of the text.
    pub open spec fn line_comment_end(self) -> LexerView
        decreases self.input.len() - self.position,
    {
        if self.current() != '\n' && !self.reached_end_of_input() {
            self.advance().line_comment_end()
        } else {
            self
        }
    }

    /// Reads a line comment with the cursor on its first slash.
    pub open spec fn read_line_comment(self) -> (TokenKindView, LexerView) {
        let body = self.advance().advance();
        let end = body.line_comment_end();
        (
            TokenKindView::LineComment {
                content: self.slice(body.position as int, end.position as int),
            },
            end.advance(),
        )
    }

    /// The cursor moved to the character before the `*/` that closes a
    /// block comment, or, unterminated, to the last character of the text.
    pub open spec fn block_comment_end(self) -> (bool, LexerView)
        decreases self.input.len() - self.position,
    {
        if self.peek() != '*' || self.peek_peek() != '/' {
            if self.reached_end_of_input() {
                (false, self)
            } else {
                self.advance().block_comment_end()
            }
        } else {
            (true, self)
        }
    }

    /// Reads a block comment with the cursor on its slash.
    pub open spec fn read_block_comment(self) -> (TokenKindView, LexerView) {
        let body = self.advance().advance();
        let (terminated, end) = body.block_comment_end();
        (
            TokenKindView::BlockComment {
                content: self.slice(body.position as int, end.position + 1),
                terminated,
            },
            end.advance(),
        )
    }

    /// One of two kinds, by whether the next character is `second`; the
    /// two-character form takes that character too.
    pub open spec fn one_or_two(self, second: char, two: TokenKindView, one: TokenKindView) -> (
        TokenKindView,
        LexerView,
    ) {
        if self.peek() == second {
            (two, self.advance().advance())
        } else {
            (one, self.advance())
        }
    }

    /// The kind of the token that starts under the cursor, and the cursor
    /// after it.
    pub open spec fn token_kind(self) -> (TokenKindView, LexerView) {
        let c = self.current();
        let illegal = TokenKindView::Illegal { ch: c };
        if c == '{' {
            (TokenKindView::LCurly, self.advance())
        } else if c == '}' {
            (TokenKindView::RCurly, self.advance())
        } else if c == '(' {
            (TokenKindView::LParen, self.advance())
        } else if c == ')' {
            (TokenKindView::RParen, self.advance())
        } else if c == '[' {
            (TokenKindView::LBracket, self.advance())
        } else if c == ']' {
            (TokenKindView::RBracket, self.advance())
        } else if c == '.' {
            (TokenKindView::Dot, self.advance())
        } else if c == ',' {
            (TokenKindView::Comma, self.advance())
        } else if c == ':' {
            (TokenKindView::Colon, self.advance())
        } else if c == ';' {
            (TokenKindView::Semicolon, self.advance())
        } else if c == '+' {
            (TokenKindView::Plus, self.advance())
        } else if c == '-' {
            (TokenKindView::Minus, self.advance())
        } else if c == '*' {
            (TokenKindView::Asterisk, self.advance())
        } else if c == '%' {
            (TokenKindView::Modulo, self.advance())
        } else if c == '!' {
            self.one_or_two('=', TokenKindView::NotEqual, TokenKindView::Bang)
        } else if c == '<' {
            self.one_or_two('=', TokenKindView::LessThanEqual, TokenKindView::LessThan)
        } else if c == '>' {
            self.one_or_two('=', TokenKindView::GreaterThanEqual, TokenKindView::GreaterThan)
        } else if c == '=' {
            self.one_or_two('=', TokenKindView::Equal, TokenKindView::Assign)
        } else if c == '|' {
            self.one_or_two('|', TokenKindView::Or, illegal)
        } else if c == '&' {
            self.one_or_two('&', TokenKindView::And, illegal)
        } else if c == '/' {
            if self.peek() == '/' {
                let (comment, rest) = self.read_line_comment();
                (comment, rest.advance())
            } else if self.peek() == '*' {
                let (comment, rest) = self.read_block_comment();
                (comment, rest.advance())
            } else {
                (TokenKindView::ForwardSlash, self.advance())
            }
        } else if is_ident_start(c) {
            self.read_word()
        } else if is_digit(c) {
            self.read_int()
        } else if c == '\'' {
            self.read_char()
        } else if c == '"' {
            self.read_str()
        } else if c == EOF_CHAR {
            (TokenKindView::Eof, self.advance())
        } else {
            (illegal, self.advance())
        }
    }

    /// Where a token ends that starts at `start` and leaves the cursor at
    /// `cursor`: at the cursor, or, for the end of input, which takes no
    /// character, one place after its start.
    pub open spec fn token_end(start: int, cursor: int) -> int {
        if cursor > start {
            cursor
        } else if start < usize::MAX {
            start + 1
        } else {
            start
        }
    }

    /// The next token, after any whitespace, and the cursor after it. The
    /// token covers the characters that it takes; the end of input covers
    /// one place past the text.
    pub open spec fn next_token(self) -> (TokenView, LexerView) {
        let start = self.skip_whitespace();
        let (kind, rest) = start.token_kind();
        (
            TokenView {
                kind,
                span: span_between(
                    self.input,
                    start.position as int,
                    Self::token_end(start.position, rest.position),
                ),
            },
            rest,
        )
    }

    /// The text of the line with the number `line`, counted from 1,
    /// without its line feed; nothing for a line that the text lacks.
    pub open spec fn line_text(self, line: int) -> Seq<char> {
        let starts = line_starts(self.input);
        if 1 <= line <= starts.len() {
            self.slice(
                starts[line - 1] as int,
                if line < starts.len() {
                    starts[line] - 1
                } else {
                    self.input.len() as int
                },
            )
        } else {
            Seq::empty()
        }
    }

    /// The place of the end of input: one place past the text.
    pub open spec fn end_span(self) -> Span {
        span_between(
            self.input,
            self.input.len() as int,
            Self::token_end(self.input.len() as int, self.input.len() as int),
        )
    }

    /// The tokens that are still to be read, up to the end of the text. The
    /// last of them is the first end-of-input token, unless the text ends in
    /// the middle of a token.
    pub open spec fn remaining(self) -> Seq<TokenView>
        decreases self.input.len() - self.position,
    {
        let (token, rest) = self.next_token();
        if rest.input == self.input && self.position < rest.position <= self.input.len() {
            seq![token] + rest.remaining()
        } else {
            Seq::empty()
        }
    }
}

/// Whether a character may start an identifier.
fn ident_start(c: char) -> (b: bool)
    ensures
        b == is_ident_start(c),
{
    (c >= 'a' && c <= 'z') || (c >= 'A' && c <= 'Z') || c == '_'
}

/// Whether a character is an ASCII decimal digit.
fn digit(c: char) -> (b: bool)
    ensures
        b == is_digit(c),
{
    c >= '0' && c <= '9'
}

/// Whether a character is ASCII whitespace.
fn blank(c: char) -> (b: bool)
    ensures
        b == is_blank(c),
{
    c == ' ' || c == '\t' || c == '\n' || c == '\x0C' || c == '\r'
}

/// A cursor over the source text. Tokens are read one at a time; once the
/// text is used up, every further token is an end-of-input token.
pub struct Lexer {
    /// The source text.
    input: Vec<char>,
    /// The position of the character under the cursor.
    position: usize,
    /// The positions at which the lines start.
    line_breaks: Vec<usize>,
}

impl View for Lexer {
    type V = LexerView;

    closed spec fn view(&self) -> LexerView {
        LexerView { input: self.input@, position: self.position as int }
    }
}

impl Lexer {
    #[verifier::type_invariant]
    spec fn well_formed(&self) -> bool {
        &&& self.position <= self.input@.len()
        &&& self.line_breaks@ == line_starts(self.input@)
        &&& self.line_breaks@.len() >= 1
        &&& self.line_breaks@[0] == 0
    }

    /// A lexer at the start of `input`.
    pub fn new(input: String) -> (lexer: Lexer)
        ensures
            lexer@ == (LexerView { input: input@, position: 0 }),
    {
        let chars = chars_of(input.as_str());
        let mut line_breaks: Vec<usize> = Vec::new();
        line_breaks.push(0);
        let mut i: usize = 0;
        assert(chars@.subrange(0, 0) =~= Seq::<char>::empty());
        while i < chars.len()
            invariant
                i <= chars.len(),
                line_breaks@ == line_starts(chars@.subrange(0, i as int)),
                line_breaks@.len() >= 1,
                line_breaks@[0] == 0,
            decreases chars.len() - i,
        {
            assert(chars@.subrange(0, i + 1).drop_last() =~= chars@.subrange(0, i as int));
            if chars[i] == '\n' {
                line_breaks.push(i + 1);
            }
            i = i + 1;
        }
        assert(chars@.subrange(0, i as int) =~= chars@);
        Lexer { input: chars, position: 0, line_breaks }
    }

    /// The number of lines of the text.
    pub fn line_count(&self) -> (n: usize)
        ensures
            n == line_starts(self@.input).len(),
    {
        proof {
            use_type_invariant(self);
        }
        self.line_breaks.len()
    }

    /// The text of the line with the number `line`, counted from 1.
    pub fn line_text(&self, line: usize) -> (text: String)
        ensures
            text@ == self@.line_text(line as int),
    {
        proof {
            use_type_invariant(self);
        }
        if 1 <= line && line <= self.line_breaks.len() {
            let from = self.line_breaks[line - 1];
            let to = if line < self.line_breaks.len() {
                let next = self.line_breaks[line];
                if next > 0 {
                    next - 1
                } else {
                    return String::new();
                }
            } else {
                self.input.len()
            };
            self.slice(from, to)
        } else {
            String::new()
        }
    }

    /// The span from `start_pos` to the cursor.
    pub fn make_span(&self, start_pos: usize) -> (span: Span)
        ensures
            span == span_between(self@.input, start_pos as int, self@.position),
    {
        self.span_of(start_pos, self.position)
    }

    /// The span from `start_pos` to `end_pos`.
    fn span_of(&self, start_pos: usize, end_pos: usize) -> (span: Span)
        ensures
            span == span_between(self@.input, start_pos as int, end_pos as int),
    {
        proof {
            use_type_invariant(self);
        }
        let start_line = self.line_beyond(start_pos);
        let end_line = if end_pos == 0 {
            0
        } else {
            self.line_beyond(end_pos - 1)
        };
        Span {
            start_line,
            end_line,
            start_col: start_pos - self.line_breaks[start_line - 1],
            end_col: if end_line == 0 {
                end_pos
            } else {
                end_pos - self.line_breaks[end_line - 1]
            },
        }
    }

    /// The index of the first line that starts beyond `bound`, which is the
    /// number of the line that `bound` lies on.
    fn line_beyond(&self, bound: usize) -> (line: usize)
        ensures
            line == first_start_beyond(self.line_breaks@, bound as int, 0),
            1 <= line <= self.line_breaks@.len(),
            self.line_breaks@[line - 1] <= bound,
    {
        proof {
            use_type_invariant(self);
        }
        let mut i: usize = 0;
        while i < self.line_breaks.len() && self.line_breaks[i] <= bound
            invariant
                i <= self.line_breaks@.len(),
                self.line_breaks@.len() >= 1,
                self.line_breaks@[0] == 0,
                forall|j: int| 0 <= j < i ==> self.line_breaks@[j] <= bound,
                first_start_beyond(self.line_breaks@, bound as int, i as int) == first_start_beyond(
                    self.line_breaks@,
                    bound as int,
                    0,
                ),
            decreases self.line_breaks@.len() - i,
        {
            i = i + 1;
        }
        i
    }

    /// The character under the cursor.
    fn current(&self) -> (c: char)
        ensures
            c == self@.current(),
    {
        proof {
            use_type_invariant(self);
        }
        if self.position < self.input.len() {
            self.input[self.position]
        } else {
            EOF_CHAR
        }
    }

    /// The character after the one under the cursor.
    fn peek(&self) -> (c: char)
        ensures
            c == self@.peek(),
    {
        proof {
            use_type_invariant(self);
        }
        if self.position < self.input.len() && self.position + 1 < self.input.len() {
            self.input[self.position + 1]
        } else {
            EOF_CHAR
        }
    }

    /// The character two places after the one under the cursor.
    fn peek_peek(&self) -> (c: char)
        ensures
            c == self@.peek_peek(),
    {
        proof {
            use_type_invariant(self);
        }
        if self.position < self.input.len() && self.input.len() - self.position > 2 {
            self.input[self.position + 2]
        } else {
            EOF_CHAR
        }
    }

    /// Whether no character follows the one under the cursor.
    fn reached_end_of_input(&self) -> (r: bool)
        ensures
            r == self@.reached_end_of_input(),
    {
        proof {
            use_type_invariant(self);
        }
        self.input.len() - self.position <= 1
    }

    /// Moves the cursor one character on; at the end of the text it stays.
    fn advance_byte(&mut self)
        ensures
            final(self)@ == old(self)@.advance(),
    {
        proof {
            use_type_invariant(&*self);
        }
        if self.position < self.input.len() {
            self.position = self.position + 1;
        }
    }

    /// The text from `from` up to `to`, cut off at the end of the input.
    fn slice(&self, from: usize, to: usize) -> (text: String)
        ensures
            text@ == self@.slice(from as int, to as int),
    {
        let end = if to < self.input.len() {
            to
        } else {
            self.input.len()
        };
        if from <= end {
            string_of(&self.input, from, end)
        } else {
            String::new()
        }
    }

    fn skip_whitespace(&mut self)
        ensures
            final(self)@ == old(self)@.skip_whitespace(),
            final(self)@.input == old(self)@.input,
            old(self)@.position <= final(self)@.position <= old(self)@.input.len(),
    {
        proof {
            use_type_invariant(&*self);
        }
        while self.position < self.input.len() && blank(self.input[self.position])
            invariant
                self.position <= self.input@.len(),
                self@.input == old(self)@.input,
                old(self)@.position <= self@.position,
                self@.skip_whitespace() == old(self)@.skip_whitespace(),
            decreases self.input@.len() - self.position,
        {
            self.advance_byte();
            proof {
                use_type_invariant(&*self);
            }
        }
    }

    fn read_ident(&mut self) -> (label: String)
        requires
            old(self)@.position < old(self)@.input.len(),
            is_ident_start(old(self)@.current()),
        ensures
            final(self)@ == old(self)@.ident_end(),
            label@ == old(self)@.slice(old(self)@.position, final(self)@.position),
            final(self)@.input == old(self)@.input,
            old(self)@.position < final(self)@.position <= old(self)@.input.len(),
    {
        proof {
            use_type_invariant(&*self);
        }
        let pos = self.position;
        self.advance_byte();
        proof {
            use_type_invariant(&*self);
        }
        while self.position < self.input.len() && (ident_start(self.input[self.position]) || digit(
            self.input[self.position],
        ))
            invariant
                self.position <= self.input@.len(),
                self@.input == old(self)@.input,
                old(self)@.position < self@.position,
                pos == old(self)@.position,
                self@.ident_end() == old(self)@.ident_end(),
            decreases self.input@.len() - self.position,
        {
            self.advance_byte();
            proof {
                use_type_invariant(&*self);
            }
        }
        self.slice(pos, self.position)
    }

    fn read_int(&mut self) -> (kind: TokenKind)
        requires
            old(self)@.position < old(self)@.input.len(),
            is_digit(old(self)@.current()),
        ensures
            (kind@, final(self)@) == old(self)@.read_int(),
            final(self)@.input == old(self)@.input,
            old(self)@.position < final(self)@.position <= old(self)@.input.len(),
    {
        proof {
            use_type_invariant(&*self);
        }
        let pos = self.position;
        let mut dot = false;
        self.advance_byte();
        proof {
            use_type_invariant(&*self);
        }
        while self.position < self.input.len() && (digit(self.input[self.position])
            || self.input[self.position] == '.')
            invariant
                self.position <= self.input@.len(),
                self@.input == old(self)@.input,
                old(self)@.position < self@.position,
                pos == old(self)@.position,
                self@.number_end(dot) == old(self)@.number_end(false),
            decreases self.input@.len() - self.position,
        {
            if self.input[self.position] == '.' {
                dot = true;
            }
            self.advance_byte();
            proof {
                use_type_invariant(&*self);
            }
        }
        let kind = if dot {
            LiteralKind::Float
        } else {
            LiteralKind::Int
        };
        TokenKind::Literal { kind, val: self.slice(pos, self.position) }
    }

    fn read_str(&mut self) -> (kind: TokenKind)
        requires
            old(self)@.position < old(self)@.input.len(),
        ensures
            (kind@, final(self)@) == old(self)@.read_str(),
            final(self)@.input == old(self)@.input,
            old(self)@.position < final(self)@.position <= old(self)@.input.len(),
    {
        self.advance_byte();
        proof {
            use_type_invariant(&*self);
        }
        let mut estr = String::new();
        let mut terminated = true;
        loop
            invariant_except_break
                self.position <= self.input@.len(),
                self@.input == old(self)@.input,
                old(self)@.position < self@.position,
                self@.string_body(estr@) == old(self)@.advance().string_body(Seq::empty()),
            ensures
                self.position <= self.input@.len(),
                self@.input == old(self)@.input,
                old(self)@.position < self@.position,
                (estr@, terminated, self@) == old(self)@.advance().string_body(Seq::empty()),
            decreases self.input@.len() - self.position,
        {
            if self.current() == '"' {
                self.advance_byte();
                terminated = true;
                break ;
            }
            if self.current() == '\\' {
                self.advance_byte();
            }
            estr.push(self.current());
            self.advance_byte();
            proof {
                use_type_invariant(&*self);
            }
            if self.reached_end_of_input() {
                terminated = false;
                break ;
            }
        }
        TokenKind::Literal { kind: LiteralKind::Str { terminated }, val: estr }
    }

    fn read_char(&mut self) -> (kind: TokenKind)
        requires
            old(self)@.position < old(self)@.input.len(),
        ensures
            (kind@, final(self)@) == old(self)@.read_char(),
            final(self)@.input == old(self)@.input,
            old(self)@.position < final(self)@.position <= old(self)@.input.len(),
    {
        self.advance_byte();
        let mut val = String::new();
        val.push(self.current());
        self.advance_byte();
        let terminated = self.current() == '\'';
        if terminated {
            self.advance_byte();
        }
        proof {
            use_type_invariant(&*self);
            assert(val@ =~= seq![old(self)@.advance().current()]);
        }
        TokenKind::Literal { kind: LiteralKind::Char { terminated }, val }
    }

    fn read_line_comment(&mut self) -> (kind: TokenKind)
        requires
            old(self)@.position < old(self)@.input.len(),
        ensures
            (kind@, final(self)@) == old(self)@.read_line_comment(),
            final(self)@.input == old(self)@.input,
            old(self)@.position < final(self)@.position <= old(self)@.input.len(),
    {
        self.advance_byte();
        self.advance_byte();
        proof {
            use_type_invariant(&*self);
        }
        let pos = self.position;
        while self.current() != '\n' && !self.reached_end_of_input()
            invariant
                self.position <= self.input@.len(),
                self@.input == old(self)@.input,
                old(self)@.position < self@.position,
                self@.line_comment_end() == old(self)@.advance().advance().line_comment_end(),
            decreases self.input@.len() - self.position,
        {
            self.advance_byte();
            proof {
                use_type_invariant(&*self);
            }
        }
        let content = self.slice(pos, self.position);
        self.advance_byte();
        proof {
            use_type_invariant(&*self);
        }
        TokenKind::LineComment { content }
    }

    fn read_block_comment(&mut self) -> (kind: TokenKind)
        requires
            old(self)@.position < old(self)@.input.len(),
        ensures
            (kind@, final(self)@) == old(self)@.read_block_comment(),
            final(self)@.input == old(self)@.input,
            old(self)@.position < final(self)@.position <= old(self)@.input.len(),
    {
        self.advance_byte();
        self.advance_byte();
        proof {
            use_type_invariant(&*self);
        }
        let pos = self.position;
        let mut terminated = true;
        loop
            invariant_except_break
                self.position <= self.input@.len(),
                self@.input == old(self)@.input,
                old(self)@.position < self@.position,
                self@.block_comment_end() == old(self)@.advance().advance().block_comment_end(),
            ensures
                self.position <= self.input@.len(),
                self@.input == old(self)@.input,
                old(self)@.position < self@.position,
                (terminated, self@) == old(self)@.advance().advance().block_comment_end(),
            decreases self.input@.len() - self.position,
        {
            if self.peek() == '*' && self.peek_peek() == '/' {
                terminated = true;
                break ;
            }
            if self.reached_end_of_input() {
                terminated = false;
                break ;
            }
            self.advance_byte();
            proof {
                use_type_invariant(&*self);
            }
        }
        let upto = if self.position < self.input.len() {
            self.position + 1
        } else {
            self.position
        };
        let content = self.slice(pos, upto);
        self.advance_byte();
        proof {
            use_type_invariant(&*self);
        }
        TokenKind::BlockComment { content, terminated }
    }

    /// One of two kinds, by whether the next character is `second`.
    fn one_or_two(&mut self, second: char, two: TokenKind, one: TokenKind) -> (kind: TokenKind)
        ensures
            (kind@, final(self)@) == old(self)@.one_or_two(second, two@, one@),
    {
        if self.peek() == second {
            self.advance_byte();
            self.advance_byte();
            two
        } else {
            self.advance_byte();
            one
        }
    }

    /// The kind of the token that starts under the cursor. The cursor moves
    /// past the token.
    pub fn token_kind(&mut self) -> (kind: TokenKind)
        ensures
            (kind@, final(self)@) == old(self)@.token_kind(),
            final(self)@.input == old(self)@.input,
            old(self)@.position <= final(self)@.position <= old(self)@.input.len(),
            old(self)@.position < old(self)@.input.len() ==> old(self)@.position < final(self)@.position,
    {
        proof {
            use_type_invariant(&*self);
        }
        let c = self.current();
        let kind = if c == '{' {
            TokenKind::LCurly
        } else if c == '}' {
            TokenKind::RCurly
        } else if c == '(' {
            TokenKind::LParen
        } else if c == ')' {
            TokenKind::RParen
        } else if c == '[' {
            TokenKind::LBracket
        } else if c == ']' {
            TokenKind::RBracket
        } else if c == '.' {
            TokenKind::Dot
        } else if c == ',' {
            TokenKind::Comma
        } else if c == ':' {
            TokenKind::Colon
        } else if c == ';' {
            TokenKind::Semicolon
        } else if c == '+' {
            TokenKind::Plus
        } else if c == '-' {
            TokenKind::Minus
        } else if c == '*' {
            TokenKind::Asterisk
        } else if c == '%' {
            TokenKind::Modulo
        } else if c == '!' {
            let kind = self.one_or_two('=', TokenKind::NotEqual, TokenKind::Bang);
            proof {
                use_type_invariant(&*self);
            }
            return kind;
        } else if c == '<' {
            let kind = self.one_or_two('=', TokenKind::LessThanEqual, TokenKind::LessThan);
            proof {
                use_type_invariant(&*self);
            }
            return kind;
        } else if c == '>' {
            let kind = self.one_or_two('=', TokenKind::GreaterThanEqual, TokenKind::GreaterThan);
            proof {
                use_type_invariant(&*self);
            }
            return kind;
        } else if c == '=' {
            let kind = self.one_or_two('=', TokenKind::Equal, TokenKind::Assign);
            proof {
                use_type_invariant(&*self);
            }
            return kind;
        } else if c == '|' {
            let kind = self.one_or_two('|', TokenKind::Or, TokenKind::Illegal { ch: c });
            proof {
                use_type_invariant(&*self);
            }
            return kind;
        } else if c == '&' {
            let kind = self.one_or_two('&', TokenKind::And, TokenKind::Illegal { ch: c });
            proof {
                use_type_invariant(&*self);
            }
            return kind;
        } else if c == '/' {
            if self.peek() == '/' {
                self.read_line_comment()
            } else if self.peek() == '*' {
                self.read_block_comment()
            } else {
                TokenKind::ForwardSlash
            }
        } else if ident_start(c) {
            let label = self.read_ident();
            return match TokenKind::try_keyword(label.as_str()) {
                Some(keyword) => keyword,
                None => TokenKind::Ident { label },
            };
        } else if digit(c) {
            return self.read_int();
        } else if c == '\'' {
            return self.read_char();
        } else if c == '"' {
            return self.read_str();
        } else if c == EOF_CHAR {
            TokenKind::Eof
        } else {
            TokenKind::Illegal { ch: c }
        };
        self.advance_byte();
        proof {
            use_type_invariant(&*self);
        }
        kind
    }

    /// The next token of the text, after any whitespace.
    pub fn next_token(&mut self) -> (token: Token)
        ensures
            (token@, final(self)@) == old(self)@.next_token(),
            final(self)@.input == old(self)@.input,
            old(self)@.position <= final(self)@.position <= old(self)@.input.len(),
            old(self)@.position < old(self)@.input.len() ==> old(self)@.position < final(self)@.position,
    {
        self.skip_whitespace();
        let start = self.position;
        let kind = self.token_kind();
        let end = if self.position > start {
            self.position
        } else if start < usize::MAX {
            start + 1
        } else {
            start
        };
        Token { kind, span: self.span_of(start, end) }
    }
}

} // verus!
