//! Text helpers shared by the lexer, the parser and the evaluator.
//!
//! Strings are modelled by their sequence of characters. The few operations
//! of the standard library that carry no specification of their own are
//! given one here.
use vstd::prelude::*;

verus! {

/// `String::push`: appends one character to the string.
pub assume_specification[ String::push ](s: &mut String, ch: char)
    ensures
        final(s)@ == old(s)@.push(ch),
;

/// The decimal digit that stands for `d`, for `0 <= d <= 9`.
pub open spec fn digit_char(d: int) -> char {
    if d == 0 {
        '0'
    } else if d == 1 {
        '1'
    } else if d == 2 {
        '2'
    } else if d == 3 {
        '3'
    } else if d == 4 {
        '4'
    } else if d == 5 {
        '5'
    } else if d == 6 {
        '6'
    } else if d == 7 {
        '7'
    } else if d == 8 {
        '8'
    } else {
        '9'
    }
}

/// The value of a decimal digit character, or `None` for any other character.
pub open spec fn digit_value(c: char) -> Option<int> {
    if c == '0' {
        Some(0)
    } else if c == '1' {
        Some(1)
    } else if c == '2' {
        Some(2)
    } else if c == '3' {
        Some(3)
    } else if c == '4' {
        Some(4)
    } else if c == '5' {
        Some(5)
    } else if c == '6' {
        Some(6)
    } else if c == '7' {
        Some(7)
    } else if c == '8' {
        Some(8)
    } else if c == '9' {
        Some(9)
    } else {
        None
    }
}

/// The decimal digits of a natural number, most significant first, without
/// leading zeros (`0` itself is written `"0"`).
pub open spec fn nat_digits(n: nat) -> Seq<char>
    decreases n,
{
    if n < 10 {
        seq![digit_char(n as int)]
    } else {
        nat_digits(n / 10).push(digit_char((n % 10) as int))
    }
}

/// The decimal text of an integer: a minus sign for negative numbers, then
/// the digits of the magnitude.
pub open spec fn int_text(i: int) -> Seq<char> {
    if i < 0 {
        seq!['-'] + nat_digits((-i) as nat)
    } else {
        nat_digits(i as nat)
    }
}

/// Whether every character of `s` is a decimal digit.
pub open spec fn all_digits(s: Seq<char>) -> bool {
    forall|i: int| 0 <= i < s.len() ==> (#[trigger] digit_value(s[i])) is Some
}

/// The number that a sequence of decimal digits denotes.
pub open spec fn digits_number(s: Seq<char>) -> int
    decreases s.len(),
{
    if s.len() == 0 {
        0
    } else {
        10 * digits_number(s.drop_last()) + match digit_value(s.last()) {
            Some(d) => d,
            None => 0,
        }
    }
}

/// What a text denotes as a signed 64-bit integer: an optional `+` or `-`
/// sign followed by one or more decimal digits, whose value fits. Anything
/// else denotes no integer.
pub open spec fn parsed_integer(s: Seq<char>) -> Option<i64> {
    let negative = s.len() > 0 && s[0] == '-';
    let signed = s.len() > 0 && (s[0] == '-' || s[0] == '+');
    let digits = if signed {
        s.subrange(1, s.len() as int)
    } else {
        s
    };
    let magnitude = digits_number(digits);
    let value = if negative {
        -magnitude
    } else {
        magnitude
    };
    if digits.len() > 0 && all_digits(digits) && i64::MIN <= value <= i64::MAX {
        Some(value as i64)
    } else {
        None
    }
}

/// `i64::to_string`: the decimal rendering of a signed integer.
#[verifier::external_body]
pub(crate) fn integer_to_string(i: i64) -> (s: String)
    ensures
        s@ == int_text(i as int),
{
    i.to_string()
}

/// `u128::to_string`: the decimal rendering of an unsigned integer.
#[verifier::external_body]
pub(crate) fn number_to_string(n: u128) -> (s: String)
    ensures
        s@ == nat_digits(n as nat),
{
    n.to_string()
}

/// `str::parse::<i64>`: reads a decimal integer, with an optional sign, and
/// fails on any other text or when the value does not fit.
#[verifier::external_body]
pub(crate) fn parse_integer(s: &str) -> (r: Option<i64>)
    ensures
        r == parsed_integer(s@),
{
    s.parse::<i64>().ok()
}

/// The character at position `i`.
pub fn char_at(chars: &Vec<char>, i: usize) -> (c: char)
    requires
        i < chars.len(),
    ensures
        c == chars@[i as int],
{
    chars[i]
}

/// The characters of a string, in order.
pub fn chars_of(s: &str) -> (v: Vec<char>)
    ensures
        v@ == s@,
{
    let mut v: Vec<char> = Vec::new();
    for c in it: s.chars()
        invariant
            v@ == it.seq().take(it.index() as int),
            it.seq() == s@,
    {
        v.push(c);
    }
    v
}

/// The string made of the characters `chars[from..to]`.
pub fn string_of(chars: &Vec<char>, from: usize, to: usize) -> (s: String)
    requires
        from <= to <= chars.len(),
    ensures
        s@ == chars@.subrange(from as int, to as int),
{
    let mut s = String::new();
    let mut i: usize = from;
    while i < to
        invariant
            from <= i <= to <= chars.len(),
            s@ == chars@.subrange(from as int, i as int),
        decreases to - i,
    {
        s.push(chars[i]);
        i = i + 1;
        assert(s@ =~= chars@.subrange(from as int, i as int));
    }
    s
}

/// Whether two character sequences are equal.
pub fn same_chars(a: &Vec<char>, b: &Vec<char>) -> (r: bool)
    ensures
        r == (a@ == b@),
{
    if a.len() != b.len() {
        return false;
    }
    let mut i: usize = 0;
    while i < a.len()
        invariant
            i <= a.len(),
            a.len() == b.len(),
            a@.subrange(0, i as int) == b@.subrange(0, i as int),
        decreases a.len() - i,
    {
        if a[i] != b[i] {
            return false;
        }
        i = i + 1;
        assert(a@.subrange(0, i as int) =~= a@.subrange(0, i - 1).push(a@[i - 1]));
        assert(b@.subrange(0, i as int) =~= b@.subrange(0, i - 1).push(b@[i - 1]));
    }
    assert(a@ =~= a@.subrange(0, a.len() as int));
    assert(b@ =~= b@.subrange(0, b.len() as int));
    true
}

/// Whether two strings hold the same characters.
pub(crate) fn same_text(a: &str, b: &str) -> (r: bool)
    ensures
        r == (a@ == b@),
{
    if a.as_bytes().len() != b.as_bytes().len() {
        assert(vstd::utf8::encode_utf8(a@) != vstd::utf8::encode_utf8(b@));
        return false;
    }
    let left = chars_of(a);
    let right = chars_of(b);
    same_chars(&left, &right)
}

/// Whether the characters are exactly those of `word`.
pub fn spells(chars: &Vec<char>, word: &str) -> (r: bool)
    ensures
        r == (chars@ == word@),
{
    let w = chars_of(word);
    same_chars(chars, &w)
}

/// Whether `text` ends with `suffix`.
pub fn has_suffix(text: &Vec<char>, suffix: &Vec<char>) -> (r: bool)
    ensures
        r == (suffix@.len() <= text@.len() && text@.subrange(
            text@.len() - suffix@.len(),
            text@.len() as int,
        ) == suffix@),
{
    if suffix.len() > text.len() {
        return false;
    }
    has_infix(text, text.len() - suffix.len(), suffix)
}

/// Whether `text` starts with `prefix`.
pub fn has_prefix(text: &Vec<char>, prefix: &Vec<char>) -> (r: bool)
    ensures
        r == (prefix@.len() <= text@.len() && text@.subrange(0, prefix@.len() as int) == prefix@),
{
    if prefix.len() > text.len() {
        return false;
    }
    has_infix(text, 0, prefix)
}

/// Whether `part` stands in `text` at the position `at`.
pub fn has_infix(text: &Vec<char>, at: usize, part: &Vec<char>) -> (r: bool)
    requires
        at + part@.len() <= text@.len(),
    ensures
        r == (text@.subrange(at as int, at + part@.len()) == part@),
{
    let mut i: usize = 0;
    let size = text.len();
    while i < part.len()
        invariant
            i <= part.len(),
            at + part@.len() <= text@.len(),
            size == text@.len(),
            forall|j: int| 0 <= j < i ==> text@[at + j] == part@[j],
        decreases part.len() - i,
    {
        if text[at + i] != part[i] {
            assert(text@.subrange(at as int, at + part@.len())[i as int] != part@[i as int]);
            return false;
        }
        i = i + 1;
    }
    assert(text@.subrange(at as int, at + part@.len()) =~= part@);
    true
}

/// The two parts of a text before and after the byte at `at` of its UTF-8
/// form, where a character starts there or the text ends there.
pub open spec fn byte_parts(text: Seq<char>, at: int) -> Option<(Seq<char>, Seq<char>)> {
    let bytes = vstd::utf8::encode_utf8(text);
    if 0 <= at <= bytes.len() && vstd::utf8::is_char_boundary(bytes, at) {
        Some(
            (
                vstd::utf8::decode_utf8(bytes.subrange(0, at)),
                vstd::utf8::decode_utf8(bytes.subrange(at, bytes.len() as int)),
            ),
        )
    } else {
        None
    }
}

/// Splits a text before the byte at `at` of its UTF-8 form, if a character
/// starts there or the text ends there.
pub fn split_bytes(text: &str, at: usize) -> (parts: Option<(String, String)>)
    ensures
        match parts {
            Some((before, after)) => byte_parts(text@, at as int) == Some((before@, after@)),
            None => byte_parts(text@, at as int) is None,
        },
{
    let size = text.as_bytes().len();
    if at <= size && text.is_char_boundary(at) {
        let (before, after) = text.split_at(at);
        proof {
            vstd::utf8::encode_utf8_decode_utf8(before@);
            vstd::utf8::encode_utf8_decode_utf8(after@);
        }
        Some((String::from_str(before), String::from_str(after)))
    } else {
        None
    }
}

/// The concatenation of two strings.
pub fn join(a: &str, b: &str) -> (s: String)
    ensures
        s@ == a@ + b@,
{
    let mut s = String::from_str(a);
    s.append(b);
    s
}

} // verus!
