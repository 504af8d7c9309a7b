//! The kinds of token that the lexer produces.
use crate::text::{chars_of, join, spells};
use vstd::prelude::*;

verus! {

/// The kind of a literal.
#[derive(Debug, PartialEq, Eq, Clone, Copy, Structural)]
pub enum LiteralKind {
    /// A 64-bit signed integer.
    Int,
    /// A floating-point number.
    Float,
    /// A character, and whether its closing quote was found.
    Char { terminated: bool },
    /// A string, and whether its closing quote was found.
    Str { terminated: bool },
}

impl LiteralKind {
    /// The name of the kind in diagnostics.
    pub open spec fn text(self) -> Seq<char> {
        match self {
            LiteralKind::Int => "Int"@,
            LiteralKind::Float => "Float"@,
            LiteralKind::Char { terminated } => if terminated {
                "Char"@
            } else {
                "Unterm Char"@
            },
            LiteralKind::Str { terminated } => if terminated {
                "Str"@
            } else {
                "Unterm Str"@
            },
        }
    }

    /// Renders the kind for a diagnostic.
    pub fn to_string(&self) -> (s: String)
        ensures
            s@ == self.text(),
    {
        match self {
            LiteralKind::Int => String::from_str("Int"),
            LiteralKind::Float => String::from_str("Float"),
            LiteralKind::Char { terminated } => if *terminated {
                String::from_str("Char")
            } else {
                String::from_str("Unterm Char")
            },
            LiteralKind::Str { terminated } => if *terminated {
                String::from_str("Str")
            } else {
                String::from_str("Unterm Str")
            },
        }
    }
}

/// What a token is. Identifiers, literals and comments carry their text.
#[derive(Debug, PartialEq)]
pub enum TokenKind {
    /// An identifier.
    Ident { label: String },
    /// A literal value, kept as the text that was read.
    Literal { kind: LiteralKind, val: String },
    /// `=`
    Assign,
    /// `+`
    Plus,
    /// `-`
    Minus,
    /// `/`
    ForwardSlash,
    /// `%`
    Modulo,
    /// `*`
    Asterisk,
    /// `!`
    Bang,
    /// `&&`
    And,
    /// `||`
    Or,
    /// `==`
    Equal,
    /// `!=`
    NotEqual,
    /// `<`
    LessThan,
    /// `>`
    GreaterThan,
    /// `<=`
    LessThanEqual,
    /// `>=`
    GreaterThanEqual,
    /// `.`
    Dot,
    /// `,`
    Comma,
    /// `;`
    Semicolon,
    /// `:`
    Colon,
    /// `(`
    LParen,
    /// `)`
    RParen,
    /// `{`
    LCurly,
    /// `}`
    RCurly,
    /// `[`
    LBracket,
    /// `]`
    RBracket,
    /// `let`
    Let,
    /// `fn`
    Function,
    /// `return`
    Return,
    /// `if`
    If,
    /// `else`
    Else,
    /// `true`
    True,
    /// `false`
    False,
    /// `source`
    Source,
    /// A comment that runs to the end of its line.
    LineComment { content: String },
    /// A comment between `/*` and `*/`.
    BlockComment { content: String, terminated: bool },
    /// A character that starts no token.
    Illegal { ch: char },
    /// End of input.
    Eof,
}

/// The mathematical value of a [`TokenKind`]: the same variants, with texts
/// as sequences of characters.
pub enum TokenKindView {
    /// An identifier.
    Ident { label: Seq<char> },
    /// A literal value, kept as the text that was read.
    Literal { kind: LiteralKind, val: Seq<char> },
    /// `=`
    Assign,
    /// `+`
    Plus,
    /// `-`
    Minus,
    /// `/`
    ForwardSlash,
    /// `%`
    Modulo,
    /// `*`
    Asterisk,
    /// `!`
    Bang,
    /// `&&`
    And,
    /// `||`
    Or,
    /// `==`
    Equal,
    /// `!=`
    NotEqual,
    /// `<`
    LessThan,
    /// `>`
    GreaterThan,
    /// `<=`
    LessThanEqual,
    /// `>=`
    GreaterThanEqual,
    /// `.`
    Dot,
    /// `,`
    Comma,
    /// `;`
    Semicolon,
    /// `:`
    Colon,
    /// `(`
    LParen,
    /// `)`
    RParen,
    /// `{`
    LCurly,
    /// `}`
    RCurly,
    /// `[`
    LBracket,
    /// `]`
    RBracket,
    /// `let`
    Let,
    /// `fn`
    Function,
    /// `return`
    Return,
    /// `if`
    If,
    /// `else`
    Else,
    /// `true`
    True,
    /// `false`
    False,
    /// `source`
    Source,
    /// A comment that runs to the end of its line.
    LineComment { content: Seq<char> },
    /// A comment between `/*` and `*/`.
    BlockComment { content: Seq<char>, terminated: bool },
    /// A character that starts no token.
    Illegal { ch: char },
    /// End of input.
    Eof,
}

impl View for TokenKind {
    type V = TokenKindView;

    open spec fn view(&self) -> TokenKindView {
        match self {
            TokenKind::Ident { label } => TokenKindView::Ident { label: label@ },
            TokenKind::Literal { kind, val } => TokenKindView::Literal { kind: *kind, val: val@ },
            TokenKind::Assign => TokenKindView::Assign,
            TokenKind::Plus => TokenKindView::Plus,
            TokenKind::Minus => TokenKindView::Minus,
            TokenKind::ForwardSlash => TokenKindView::ForwardSlash,
            TokenKind::Modulo => TokenKindView::Modulo,
            TokenKind::Asterisk => TokenKindView::Asterisk,
            TokenKind::Bang => TokenKindView::Bang,
            TokenKind::And => TokenKindView::And,
            TokenKind::Or => TokenKindView::Or,
            TokenKind::Equal => TokenKindView::Equal,
            TokenKind::NotEqual => TokenKindView::NotEqual,
            TokenKind::LessThan => TokenKindView::LessThan,
            TokenKind::GreaterThan => TokenKindView::GreaterThan,
            TokenKind::LessThanEqual => TokenKindView::LessThanEqual,
            TokenKind::GreaterThanEqual => TokenKindView::GreaterThanEqual,
            TokenKind::Dot => TokenKindView::Dot,
            TokenKind::Comma => TokenKindView::Comma,
            TokenKind::Semicolon => TokenKindView::Semicolon,
            TokenKind::Colon => TokenKindView::Colon,
            TokenKind::LParen => TokenKindView::LParen,
            TokenKind::RParen => TokenKindView::RParen,
            TokenKind::LCurly => TokenKindView::LCurly,
            TokenKind::RCurly => TokenKindView::RCurly,
            TokenKind::LBracket => TokenKindView::LBracket,
            TokenKind::RBracket => TokenKindView::RBracket,
            TokenKind::Let => TokenKindView::Let,
            TokenKind::Function => TokenKindView::Function,
            TokenKind::Return => TokenKindView::Return,
            TokenKind::If => TokenKindView::If,
            TokenKind::Else => TokenKindView::Else,
            TokenKind::True => TokenKindView::True,
            TokenKind::False => TokenKindView::False,
            TokenKind::Source => TokenKindView::Source,
            TokenKind::LineComment { content } => TokenKindView::LineComment { content: content@ },
            TokenKind::BlockComment { content, terminated } => TokenKindView::BlockComment {
                content: content@,
                terminated: *terminated,
            },
            TokenKind::Illegal { ch } => TokenKindView::Illegal { ch: *ch },
            TokenKind::Eof => TokenKindView::Eof,
        }
    }
}

impl TokenKindView {
    /// How the kind reads in a diagnostic.
    pub open spec fn text(self) -> Seq<char> {
        match self {
            TokenKindView::Ident { label } => "Ident("@ + label + ")"@,
            TokenKindView::Literal { kind, val } => kind.text() + " Literal("@ + val + ")"@,
            TokenKindView::Assign => "Assign"@,
            TokenKindView::Plus => "Plus"@,
            TokenKindView::Minus => "Minus"@,
            TokenKindView::ForwardSlash => "ForwardSlash"@,
            TokenKindView::Modulo => "Modulo"@,
            TokenKindView::Asterisk => "Asterisk"@,
            TokenKindView::Bang => "Bang"@,
            TokenKindView::And => "And"@,
            TokenKindView::Or => "Or"@,
            TokenKindView::Equal => "Equal"@,
            TokenKindView::NotEqual => "NotEqual"@,
            TokenKindView::LessThan => "LessThan"@,
            TokenKindView::GreaterThan => "GreaterThan"@,
            TokenKindView::LessThanEqual => "LessThanEqual"@,
            TokenKindView::GreaterThanEqual => "GreaterThanEqual"@,
            TokenKindView::Dot => "Dot"@,
            TokenKindView::Comma => "Comma"@,
            TokenKindView::Semicolon => "Semicolon"@,
            TokenKindView::Colon => "Colon"@,
            TokenKindView::LParen => "Lparen"@,
            TokenKindView::RParen => "Rparen"@,
            TokenKindView::LCurly => "LSquirly"@,
            TokenKindView::RCurly => "RSquirly"@,
            TokenKindView::LBracket => "LBracket"@,
            TokenKindView::RBracket => "RBracket"@,
            TokenKindView::Let => "Let"@,
            TokenKindView::Function => "Function"@,
            TokenKindView::Return => "Return"@,
            TokenKindView::If => "If"@,
            TokenKindView::Else => "Else"@,
            TokenKindView::True => "True"@,
            TokenKindView::False => "False"@,
            TokenKindView::Source => "Source"@,
            TokenKindView::LineComment { content } => "LineComment "@ + content,
            TokenKindView::BlockComment { content, terminated } => "BlockComment "@ + content,
            TokenKindView::Illegal { ch } => "Illegal("@ + seq![ch] + ")"@,
            TokenKindView::Eof => "Eof"@,
        }
    }

    /// The keyword that a word spells, if it spells one.
    pub open spec fn keyword(word: Seq<char>) -> Option<TokenKindView> {
        if word == "fn"@ {
            Some(TokenKindView::Function)
        } else if word == "let"@ {
            Some(TokenKindView::Let)
        } else if word == "if"@ {
            Some(TokenKindView::If)
        } else if word == "else"@ {
            Some(TokenKindView::Else)
        } else if word == "true"@ {
            Some(TokenKindView::True)
        } else if word == "false"@ {
            Some(TokenKindView::False)
        } else if word == "return"@ {
            Some(TokenKindView::Return)
        } else if word == "source"@ {
            Some(TokenKindView::Source)
        } else {
            None
        }
    }
}

impl Clone for TokenKind {
    fn clone(&self) -> (copy: Self)
        ensures
            copy@ == self@,
    {
        match self {
            TokenKind::Ident { label } => TokenKind::Ident { label: label.clone() },
            TokenKind::Literal { kind, val } => TokenKind::Literal { kind: *kind, val: val.clone() },
            TokenKind::Assign => TokenKind::Assign,
            TokenKind::Plus => TokenKind::Plus,
            TokenKind::Minus => TokenKind::Minus,
            TokenKind::ForwardSlash => TokenKind::ForwardSlash,
            TokenKind::Modulo => TokenKind::Modulo,
            TokenKind::Asterisk => TokenKind::Asterisk,
            TokenKind::Bang => TokenKind::Bang,
            TokenKind::And => TokenKind::And,
            TokenKind::Or => TokenKind::Or,
            TokenKind::Equal => TokenKind::Equal,
            TokenKind::NotEqual => TokenKind::NotEqual,
            TokenKind::LessThan => TokenKind::LessThan,
            TokenKind::GreaterThan => TokenKind::GreaterThan,
            TokenKind::LessThanEqual => TokenKind::LessThanEqual,
            TokenKind::GreaterThanEqual => TokenKind::GreaterThanEqual,
            TokenKind::Dot => TokenKind::Dot,
            TokenKind::Comma => TokenKind::Comma,
            TokenKind::Semicolon => TokenKind::Semicolon,
            TokenKind::Colon => TokenKind::Colon,
            TokenKind::LParen => TokenKind::LParen,
            TokenKind::RParen => TokenKind::RParen,
            TokenKind::LCurly => TokenKind::LCurly,
            TokenKind::RCurly => TokenKind::RCurly,
            TokenKind::LBracket => TokenKind::LBracket,
            TokenKind::RBracket => TokenKind::RBracket,
            TokenKind::Let => TokenKind::Let,
            TokenKind::Function => TokenKind::Function,
            TokenKind::Return => TokenKind::Return,
            TokenKind::If => TokenKind::If,
            TokenKind::Else => TokenKind::Else,
            TokenKind::True => TokenKind::True,
            TokenKind::False => TokenKind::False,
            TokenKind::Source => TokenKind::Source,
            TokenKind::LineComment { content } => TokenKind::LineComment { content: content.clone() },
            TokenKind::BlockComment { content, terminated } => TokenKind::BlockComment {
                content: content.clone(),
                terminated: *terminated,
            },
            TokenKind::Illegal { ch } => TokenKind::Illegal { ch: *ch },
            TokenKind::Eof => TokenKind::Eof,
        }
    }
}

impl TokenKind {
    /// The keyword that `label` spells, if it spells one.
    pub fn try_keyword(label: &str) -> (keyword: Option<TokenKind>)
        ensures
            keyword matches Some(k) ==> TokenKindView::keyword(label@) == Some(k@),
            keyword is None ==> TokenKindView::keyword(label@) is None,
    {
        let word = chars_of(label);
        if spells(&word, "fn") {
            Some(TokenKind::Function)
        } else if spells(&word, "let") {
            Some(TokenKind::Let)
        } else if spells(&word, "if") {
            Some(TokenKind::If)
        } else if spells(&word, "else") {
            Some(TokenKind::Else)
        } else if spells(&word, "true") {
            Some(TokenKind::True)
        } else if spells(&word, "false") {
            Some(TokenKind::False)
        } else if spells(&word, "return") {
            Some(TokenKind::Return)
        } else if spells(&word, "source") {
            Some(TokenKind::Source)
        } else {
            None
        }
    }

    /// Whether two kinds are the same, texts included.
    pub fn same_as(&self, other: &TokenKind) -> (same: bool)
        ensures
            same == (self@ == other@),
    {
        match (self, other) {
            (TokenKind::Ident { label: a }, TokenKind::Ident { label: b }) => *a == *b,
            (TokenKind::Literal { kind: k, val: a }, TokenKind::Literal { kind: l, val: b }) => *k
                == *l && *a == *b,
            (TokenKind::Assign, TokenKind::Assign) => true,
            (TokenKind::Plus, TokenKind::Plus) => true,
            (TokenKind::Minus, TokenKind::Minus) => true,
            (TokenKind::ForwardSlash, TokenKind::ForwardSlash) => true,
            (TokenKind::Modulo, TokenKind::Modulo) => true,
            (TokenKind::Asterisk, TokenKind::Asterisk) => true,
            (TokenKind::Bang, TokenKind::Bang) => true,
            (TokenKind::And, TokenKind::And) => true,
            (TokenKind::Or, TokenKind::Or) => true,
            (TokenKind::Equal, TokenKind::Equal) => true,
            (TokenKind::NotEqual, TokenKind::NotEqual) => true,
            (TokenKind::LessThan, TokenKind::LessThan) => true,
            (TokenKind::GreaterThan, TokenKind::GreaterThan) => true,
            (TokenKind::LessThanEqual, TokenKind::LessThanEqual) => true,
            (TokenKind::GreaterThanEqual, TokenKind::GreaterThanEqual) => true,
            (TokenKind::Dot, TokenKind::Dot) => true,
            (TokenKind::Comma, TokenKind::Comma) => true,
            (TokenKind::Semicolon, TokenKind::Semicolon) => true,
            (TokenKind::Colon, TokenKind::Colon) => true,
            (TokenKind::LParen, TokenKind::LParen) => true,
            (TokenKind::RParen, TokenKind::RParen) => true,
            (TokenKind::LCurly, TokenKind::LCurly) => true,
            (TokenKind::RCurly, TokenKind::RCurly) => true,
            (TokenKind::LBracket, TokenKind::LBracket) => true,
            (TokenKind::RBracket, TokenKind::RBracket) => true,
            (TokenKind::Let, TokenKind::Let) => true,
            (TokenKind::Function, TokenKind::Function) => true,
            (TokenKind::Return, TokenKind::Return) => true,
            (TokenKind::If, TokenKind::If) => true,
            (TokenKind::Else, TokenKind::Else) => true,
            (TokenKind::True, TokenKind::True) => true,
            (TokenKind::False, TokenKind::False) => true,
            (TokenKind::Source, TokenKind::Source) => true,
            (TokenKind::LineComment { content: a }, TokenKind::LineComment { content: b }) => *a
                == *b,
            (
                TokenKind::BlockComment { content: a, terminated: s },
                TokenKind::BlockComment { content: b, terminated: t },
            ) => *a == *b && *s == *t,
            (TokenKind::Illegal { ch: a }, TokenKind::Illegal { ch: b }) => *a == *b,
            (TokenKind::Eof, TokenKind::Eof) => true,
            _ => false,
        }
    }

    /// Renders the kind for a diagnostic.
    pub fn to_string(&self) -> (s: String)
        ensures
            s@ == self@.text(),
    {
        match self {
            TokenKind::Ident { label } => {
                let head = join("Ident(", label.as_str());
                join(head.as_str(), ")")
            },
            TokenKind::Literal { kind, val } => {
                let head = join(kind.to_string().as_str(), " Literal(");
                let body = join(head.as_str(), val.as_str());
                join(body.as_str(), ")")
            },
            TokenKind::Assign => String::from_str("Assign"),
            TokenKind::Plus => String::from_str("Plus"),
            TokenKind::Minus => String::from_str("Minus"),
            TokenKind::ForwardSlash => String::from_str("ForwardSlash"),
            TokenKind::Modulo => String::from_str("Modulo"),
            TokenKind::Asterisk => String::from_str("Asterisk"),
            TokenKind::Bang => String::from_str("Bang"),
            TokenKind::And => String::from_str("And"),
            TokenKind::Or => String::from_str("Or"),
            TokenKind::Equal => String::from_str("Equal"),
            TokenKind::NotEqual => String::from_str("NotEqual"),
            TokenKind::LessThan => String::from_str("LessThan"),
            TokenKind::GreaterThan => String::from_str("GreaterThan"),
            TokenKind::LessThanEqual => String::from_str("LessThanEqual"),
            TokenKind::GreaterThanEqual => String::from_str("GreaterThanEqual"),
            TokenKind::Dot => String::from_str("Dot"),
            TokenKind::Comma => String::from_str("Comma"),
            TokenKind::Semicolon => String::from_str("Semicolon"),
            TokenKind::Colon => String::from_str("Colon"),
            TokenKind::LParen => String::from_str("Lparen"),
            TokenKind::RParen => String::from_str("Rparen"),
            TokenKind::LCurly => String::from_str("LSquirly"),
            TokenKind::RCurly => String::from_str("RSquirly"),
            TokenKind::LBracket => String::from_str("LBracket"),
            TokenKind::RBracket => String::from_str("RBracket"),
            TokenKind::Let => String::from_str("Let"),
            TokenKind::Function => String::from_str("Function"),
            TokenKind::Return => String::from_str("Return"),
            TokenKind::If => String::from_str("If"),
            TokenKind::Else => String::from_str("Else"),
            TokenKind::True => String::from_str("True"),
            TokenKind::False => String::from_str("False"),
            TokenKind::Source => String::from_str("Source"),
            TokenKind::LineComment { content } => join("LineComment ", content.as_str()),
            TokenKind::BlockComment { content, terminated: _ } => join(
                "BlockComment ",
                content.as_str(),
            ),
            TokenKind::Illegal { ch } => {
                let mut s = String::from_str("Illegal(");
                s.push(*ch);
                join(s.as_str(), ")")
            },
            TokenKind::Eof => String::from_str("Eof"),
        }
    }
}

} // verus!
