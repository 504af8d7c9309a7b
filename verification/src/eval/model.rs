//! Evaluation as a mathematical function.
//!
//! A state holds every scope that was ever created, the handle of the
//! scope in use, what was written out, the lines that can still be read,
//! and the sources that can be included. Evaluation takes a tree and a
//! state and gives a value and the state after it. Calls and inclusions
//! may nest only as deep as a given limit allows, which makes every
//! evaluation end.
use super::object::builtin::BuiltinFunction;
use super::object::ObjectView;
use crate::lexer::token::kind::TokenKindView;
use crate::lexer::token::TokenView;
use crate::lexer::LexerView;
use crate::parser::ast::{ExpressionView, IdentView, PrimitiveView, StatementView};
use crate::parser::errors::ParseErrorView;
use crate::parser::model::{dummy, is_float_text, ParserView};
use crate::text::{byte_parts, int_text, nat_digits, parsed_integer};
use vstd::prelude::*;
use vstd::utf8::encode_utf8;

verus! {

/// The bindings of a scope: names and their values. The first binding of a
/// name is the one that counts.
pub type Bindings = Seq<(Seq<char>, ObjectView)>;

/// A scope: its bindings, and the handle of the scope around it.
pub struct ScopeView {
    pub store: Bindings,
    pub outer: Option<nat>,
}

/// The state of an evaluator.
pub struct StateView {
    /// Every scope that was created, by handle.
    pub scopes: Seq<ScopeView>,
    /// The handle of the scope in use.
    pub current: nat,
    /// What was written out, line by line.
    pub output: Seq<Seq<char>>,
    /// The lines that can still be read.
    pub input: Seq<Seq<char>>,
    /// The sources that can be included: paths and texts.
    pub sources: Seq<(Seq<char>, Seq<char>)>,
}

/// The first position at or after `from` at which `part` stands in `text`.
pub open spec fn first_match(text: Seq<char>, part: Seq<char>, from: int) -> Option<int>
    decreases text.len() + 1 - from,
{
    if from < 0 || from + part.len() > text.len() {
        None
    } else if text.subrange(from, from + part.len()) == part {
        Some(from)
    } else {
        first_match(text, part, from + 1)
    }
}

/// Each character of a text as a text of its own.
pub open spec fn letters(text: Seq<char>) -> Seq<Seq<char>> {
    Seq::new(text.len(), |i: int| text.subrange(i, i + 1))
}

/// The pieces of `text` between the occurrences of `delimiter`, which are
/// found from left to right and do not overlap. A text without an
/// occurrence is its own single piece. An empty delimiter occurs before
/// and after every character.
pub open spec fn split_text(text: Seq<char>, delimiter: Seq<char>) -> Seq<Seq<char>>
    decreases text.len(),
{
    if delimiter.len() == 0 {
        seq![Seq::<char>::empty()] + letters(text) + seq![Seq::<char>::empty()]
    } else {
        match first_match(text, delimiter, 0) {
            None => seq![text],
            Some(at) => if 0 <= at && at + delimiter.len() <= text.len() {
                seq![text.subrange(0, at)] + split_text(
                    text.subrange(at + delimiter.len(), text.len() as int),
                    delimiter,
                )
            } else {
                seq![text]
            },
        }
    }
}

/// The index of the first binding of `name` at or after index `i`.
pub open spec fn position(store: Bindings, name: Seq<char>, i: int) -> Option<int>
    decreases store.len() - i,
{
    if i < 0 || i >= store.len() {
        None
    } else if store[i].0 == name {
        Some(i)
    } else {
        position(store, name, i + 1)
    }
}

/// The value that `name` is bound to in a scope.
pub open spec fn local(store: Bindings, name: Seq<char>) -> Option<ObjectView> {
    match position(store, name, 0) {
        Some(i) => Some(store[i].1),
        None => None,
    }
}

/// The bindings with `name` bound to `value`: in place of its binding, or
/// as a new one.
pub open spec fn bind(store: Bindings, name: Seq<char>, value: ObjectView) -> Bindings {
    match position(store, name, 0) {
        Some(i) => store.update(i, (name, value)),
        None => store.push((name, value)),
    }
}

/// The value that `name` is bound to in the scope `at` or, failing that,
/// in the scopes around it, nearest first.
pub open spec fn resolve(scopes: Seq<ScopeView>, at: nat, name: Seq<char>) -> Option<ObjectView>
    decreases at,
{
    if at >= scopes.len() {
        None
    } else {
        match local(scopes[at as int].store, name) {
            Some(value) => Some(value),
            None => match scopes[at as int].outer {
                Some(outer) => if outer < at {
                    resolve(scopes, outer, name)
                } else {
                    None
                },
                None => None,
            },
        }
    }
}

/// The value that `name` is bound to in `scope` or, failing that, in the
/// scopes around it, nearest first.
pub open spec fn reach(scope: ScopeView, scopes: Seq<ScopeView>, name: Seq<char>) -> Option<
    ObjectView,
> {
    match local(scope.store, name) {
        Some(value) => Some(value),
        None => match scope.outer {
            Some(outer) => resolve(scopes, outer, name),
            None => None,
        },
    }
}

/// The bindings of the parameters to the arguments, position by position,
/// from position `i` on. Parameters without an argument stay unbound, and
/// arguments without a parameter are dropped.
pub open spec fn bind_params(store: Bindings, params: Seq<IdentView>, args: Seq<ObjectView>, i: int)
    -> Bindings
    decreases params.len() - i,
{
    if 0 <= i < params.len() && i < args.len() {
        bind_params(bind(store, params[i].label, args[i]), params, args, i + 1)
    } else {
        store
    }
}

/// The index of the first pair with the key `key` at or after index `i`.
pub open spec fn key_position(entries: Seq<(ObjectView, ObjectView)>, key: ObjectView, i: int)
    -> Option<int>
    decreases entries.len() - i,
{
    if i < 0 || i >= entries.len() {
        None
    } else if entries[i].0.hashable() && entries[i].0 == key {
        Some(i)
    } else {
        key_position(entries, key, i + 1)
    }
}

/// Whether the pairs are those of a hash map: every key is an integer, a
/// character, a string or a boolean, and no key occurs twice.
pub open spec fn well_keyed(entries: Seq<(ObjectView, ObjectView)>) -> bool {
    &&& forall|i: int| 0 <= i < entries.len() ==> (#[trigger] entries[i]).0.hashable()
    &&& forall|i: int, j: int|
        0 <= i < j < entries.len() ==> (#[trigger] entries[i]).0 != (#[trigger] entries[j]).0
}

/// The pairs of a hash map with `key` set to `value`: in place of the pair
/// of that key, or as a new pair.
pub open spec fn set_key(
    entries: Seq<(ObjectView, ObjectView)>,
    key: ObjectView,
    value: ObjectView,
) -> Seq<(ObjectView, ObjectView)> {
    match key_position(entries, key, 0) {
        Some(i) => entries.update(i, (key, value)),
        None => entries.push((key, value)),
    }
}

/// The index of the first source with the path `path` at or after index
/// `i`.
pub open spec fn source_position(sources: Seq<(Seq<char>, Seq<char>)>, path: Seq<char>, i: int)
    -> Option<int>
    decreases sources.len() - i,
{
    if i < 0 || i >= sources.len() {
        None
    } else if sources[i].0 == path {
        Some(i)
    } else {
        source_position(sources, path, i + 1)
    }
}

/// The text of a source by its path.
pub open spec fn source_text(sources: Seq<(Seq<char>, Seq<char>)>, path: Seq<char>) -> Option<
    Seq<char>,
> {
    match source_position(sources, path, 0) {
        Some(i) => Some(sources[i].1),
        None => None,
    }
}

/// The sources with `code` as the text of the source with the path
/// `path`: in place of the text it had, or as a new source.
pub open spec fn with_source(
    sources: Seq<(Seq<char>, Seq<char>)>,
    path: Seq<char>,
    code: Seq<char>,
) -> Seq<(Seq<char>, Seq<char>)> {
    match source_position(sources, path, 0) {
        Some(i) => sources.update(i, (path, code)),
        None => sources.push((path, code)),
    }
}

/// An error value with the given message.
pub open spec fn error(message: Seq<char>) -> ObjectView {
    ObjectView::Error(message)
}

/// The value of an integer operation: its result, or an error where the
/// result does not fit in 64 bits.
pub open spec fn checked(result: Option<i64>) -> ObjectView {
    match result {
        Some(value) => ObjectView::Integer(value),
        None => error("Integer overflow"@),
    }
}

/// The error of an operation on floats, which this evaluator does not
/// compute.
pub open spec fn no_floats() -> ObjectView {
    error("Floating point arithmetic is not supported"@)
}

/// `!right`: the negation of whether `right` counts as true. An error is
/// handed on as it is.
pub open spec fn bang(right: ObjectView) -> ObjectView {
    if right is Error {
        right
    } else {
        ObjectView::Boolean(!right.truthy())
    }
}

/// `-right`: the negation of an integer. An error is handed on as it is.
pub open spec fn minus(right: ObjectView) -> ObjectView {
    match right {
        ObjectView::Error(_) => right,
        ObjectView::Integer(i) => checked(0i64.checked_sub(i)),
        ObjectView::Float(_) => no_floats(),
        _ => error("Invalid datatype"@),
    }
}

/// A prefix operator applied to a value. An error is handed on as it is,
/// whatever the operator.
pub open spec fn prefix(operator: TokenView, right: ObjectView) -> ObjectView {
    if right is Error {
        right
    } else {
        match operator.kind {
            TokenKindView::Bang => bang(right),
            TokenKindView::Minus => minus(right),
            _ => error("Invalid operator: "@ + operator.text()),
        }
    }
}

/// An infix operator between two integers. Division and remainder
/// truncate towards zero.
pub open spec fn integer_infix(operator: TokenView, x: i64, y: i64) -> ObjectView {
    match operator.kind {
        TokenKindView::Plus => checked(x.checked_add(y)),
        TokenKindView::Minus => checked(x.checked_sub(y)),
        TokenKindView::Asterisk => checked(x.checked_mul(y)),
        TokenKindView::ForwardSlash => if y == 0 {
            error("Division by zero"@)
        } else {
            checked(x.checked_div(y))
        },
        TokenKindView::Modulo => if y == 0 {
            error("Division by zero"@)
        } else {
            checked(x.checked_rem(y))
        },
        TokenKindView::Equal => ObjectView::Boolean(x == y),
        TokenKindView::NotEqual => ObjectView::Boolean(x != y),
        TokenKindView::LessThan => ObjectView::Boolean(x < y),
        TokenKindView::GreaterThan => ObjectView::Boolean(x > y),
        TokenKindView::LessThanEqual => ObjectView::Boolean(x <= y),
        TokenKindView::GreaterThanEqual => ObjectView::Boolean(x >= y),
        _ => error("No infix for "@ + operator.text()),
    }
}

/// An infix operator between two booleans.
pub open spec fn bool_infix(operator: TokenView, left: bool, right: bool) -> ObjectView {
    match operator.kind {
        TokenKindView::Equal => ObjectView::Boolean(left == right),
        TokenKindView::NotEqual => ObjectView::Boolean(left != right),
        TokenKindView::And => ObjectView::Boolean(left && right),
        TokenKindView::Or => ObjectView::Boolean(left || right),
        _ => error("No infix for bool"@),
    }
}

/// Whether `text` ends with `suffix`.
pub open spec fn ends_with(text: Seq<char>, suffix: Seq<char>) -> bool {
    suffix.len() <= text.len() && text.subrange(text.len() - suffix.len(), text.len() as int)
        == suffix
}

/// Whether `text` starts with `prefix`.
pub open spec fn starts_with(text: Seq<char>, prefix: Seq<char>) -> bool {
    prefix.len() <= text.len() && text.subrange(0, prefix.len() as int) == prefix
}

/// An infix operator between two strings: `==` compares, `+` joins, and
/// `-` takes `right` off the end of `left`.
pub open spec fn str_infix(operator: TokenView, left: Seq<char>, right: Seq<char>) -> ObjectView {
    match operator.kind {
        TokenKindView::Equal => ObjectView::Boolean(left == right),
        TokenKindView::Plus => ObjectView::Str(left + right),
        TokenKindView::Minus => if ends_with(left, right) {
            ObjectView::Str(left.subrange(0, left.len() - right.len()))
        } else {
            error("Cannot subtract "@ + right + " from "@ + left)
        },
        _ => error(operator.text() + " operation cannot be performed on strings"@),
    }
}

/// An infix operator between two values, by their kinds. An integer to
/// the right of a string counts as its decimal text. An error on either
/// side is handed on as it is, the left one first.
pub open spec fn infix(operator: TokenView, left: ObjectView, right: ObjectView) -> ObjectView {
    if left is Error {
        left
    } else if right is Error {
        right
    } else {
        match (left, right) {
            (ObjectView::Integer(x), ObjectView::Integer(y)) => integer_infix(operator, x, y),
            (ObjectView::Float(_), ObjectView::Float(_)) => no_floats(),
            (ObjectView::Boolean(x), ObjectView::Boolean(y)) => bool_infix(operator, x, y),
            (ObjectView::Str(x), ObjectView::Str(y)) => str_infix(operator, x, y),
            (ObjectView::Str(x), ObjectView::Integer(y)) => str_infix(
                operator,
                x,
                int_text(y as int),
            ),
            _ => error("Cannot perform "@ + operator.text() + " operation on this datatype"@),
        }
    }
}

/// The value of a literal.
pub open spec fn primitive(literal: PrimitiveView) -> ObjectView {
    match literal {
        PrimitiveView::Integer(i) => ObjectView::Integer(i),
        PrimitiveView::Float(text) => ObjectView::Float(text),
        PrimitiveView::Char(c) => ObjectView::Char(c),
        PrimitiveView::Str(text) => ObjectView::Str(text),
        PrimitiveView::Boolean(b) => ObjectView::Boolean(b),
    }
}

/// The element of a collection at an index. An array takes an integer
/// within its bounds; a hash map takes any value and gives `Null` for a
/// key that it does not hold. An error in place of the collection or of
/// the index is handed on as it is, that of the collection first.
pub open spec fn index_into(collection: ObjectView, index: ObjectView) -> ObjectView {
    if collection is Error {
        collection
    } else if index is Error {
        index
    } else {
        match (collection, index) {
            (ObjectView::Array(items), ObjectView::Integer(i)) => if i < 0 {
                error("Negative indexing isn't valid"@)
            } else if i >= items.len() {
                error(
                    "Index "@ + int_text(i as int) + " out of bounds for an array of length "@
                        + nat_digits(items.len()),
                )
            } else {
                items[i as int]
            },
            (ObjectView::HashLiteral(entries), _) => match key_position(entries, index, 0) {
                Some(i) => entries[i].1,
                None => ObjectView::Null,
            },
            _ => error("Did not find value "@ + collection.kind() + " for "@ + index.kind()),
        }
    }
}

/// The value of an identifier: what it is bound to in the scope in use or
/// around it, else the library function of that name.
pub open spec fn identifier(name: Seq<char>, state: StateView) -> ObjectView {
    match resolve(state.scopes, state.current, name) {
        Some(value) => value,
        None => match BuiltinFunction::named(name) {
            Some(function) => ObjectView::Builtin(function),
            None => error("Identifier not found"@),
        },
    }
}

/// The state with `name` bound to `value` in the scope in use.
pub open spec fn define(state: StateView, name: Seq<char>, value: ObjectView) -> StateView {
    if state.current < state.scopes.len() {
        StateView {
            scopes: state.scopes.update(
                state.current as int,
                ScopeView {
                    store: bind(state.scopes[state.current as int].store, name, value),
                    outer: state.scopes[state.current as int].outer,
                },
            ),
            ..state
        }
    } else {
        state
    }
}

/// The error of a call with a wrong number of arguments.
pub open spec fn arity_error(expected: u32, received: nat) -> ObjectView {
    error(
        "Incorrect number of arguments provided. Expected "@ + nat_digits(expected as nat)
            + ", Received "@ + nat_digits(received) + "."@,
    )
}

/// The error of a library function that the kind of a value lacks.
pub open spec fn no_function(value: ObjectView, function: Seq<char>) -> ObjectView {
    error(value.kind() + " does not have any associated function "@ + function)
}

/// A character as a value.
pub closed spec fn letter(c: char) -> ObjectView {
    ObjectView::Char(c)
}

/// A character as a value is that character.
pub proof fn letter_is_a_character(c: char)
    ensures
        letter(c) == ObjectView::Char(c),
{
}

/// The characters of a text as values.
pub open spec fn char_objects(text: Seq<char>) -> Seq<ObjectView> {
    Seq::new(text.len(), |i: int| letter(text[i]))
}

/// The texts of a list as values.
pub open spec fn str_objects(texts: Seq<Seq<char>>) -> Seq<ObjectView> {
    Seq::new(texts.len(), |i: int| ObjectView::Str(texts[i]))
}

/// `kind(value)`: the name of the kind of a value.
pub open spec fn lib_kind(value: ObjectView) -> ObjectView {
    ObjectView::Str(value.kind())
}

/// The length of a collection as a value, where it fits.
pub open spec fn length(n: nat) -> ObjectView {
    if n <= i64::MAX {
        ObjectView::Integer(n as i64)
    } else {
        error("Length exceeds the integer range"@)
    }
}

/// `len(value)`: the number of bytes of a string in UTF-8, or the number
/// of elements of an array.
pub open spec fn lib_len(value: ObjectView) -> ObjectView {
    match value {
        ObjectView::Str(text) => length(encode_utf8(text).len()),
        ObjectView::Array(items) => length(items.len()),
        _ => no_function(value, "len()"@),
    }
}

/// `first(value)`: the first character of a string, or `Null` for an empty
/// one; the first element of an array.
pub open spec fn lib_first(value: ObjectView) -> ObjectView {
    match value {
        ObjectView::Str(text) => if text.len() > 0 {
            ObjectView::Char(text[0])
        } else {
            ObjectView::Null
        },
        ObjectView::Array(items) => if items.len() > 0 {
            items[0]
        } else {
            error("Array is empty"@)
        },
        _ => no_function(value, "first()"@),
    }
}

/// `last(value)`: the last character of a string, or `Null` for an empty
/// one; the last element of an array.
pub open spec fn lib_last(value: ObjectView) -> ObjectView {
    match value {
        ObjectView::Str(text) => if text.len() > 0 {
            ObjectView::Char(text.last())
        } else {
            ObjectView::Null
        },
        ObjectView::Array(items) => if items.len() > 0 {
            items.last()
        } else {
            error("Array is empty"@)
        },
        _ => no_function(value, "last()"@),
    }
}

/// `chars(value)`: the characters of a string.
pub open spec fn lib_chars(value: ObjectView) -> ObjectView {
    match value {
        ObjectView::Str(text) => ObjectView::Array(char_objects(text)),
        _ => no_function(value, "chars()"@),
    }
}

/// `split(value, delimiter)`: the pieces of a string between the
/// occurrences of a string or a character.
pub open spec fn lib_split(value: ObjectView, delimiter: ObjectView) -> ObjectView {
    match value {
        ObjectView::Str(text) => match delimiter {
            ObjectView::Str(d) => ObjectView::Array(str_objects(split_text(text, d))),
            ObjectView::Char(c) => ObjectView::Array(str_objects(split_text(text, seq![c]))),
            _ => error("Expected String or character, got "@ + delimiter.kind()),
        },
        _ => no_function(value, "first()"@),
    }
}

/// `append(array, value)`: the array with a value added at its end, or,
/// where the value is an array, with the elements of that array added.
pub open spec fn lib_append(value: ObjectView, appendable: ObjectView) -> ObjectView {
    match value {
        ObjectView::Array(items) => match appendable {
            ObjectView::Array(more) => ObjectView::Array(items + more),
            _ => ObjectView::Array(items.push(appendable)),
        },
        _ => error("Expected an array, Got "@ + value.kind()),
    }
}

/// Whether two lists of values are alike, element by element.
pub open spec fn all_alike(a: Seq<ObjectView>, b: Seq<ObjectView>) -> bool {
    ObjectView::Array(a).alike(ObjectView::Array(b))
}

/// The error of a count that does not lie within a collection.
pub open spec fn out_of_range() -> ObjectView {
    error("Index out of range"@)
}

/// `strip_start(value, strip)`: a string without the prefix `strip`, if it
/// starts with it, or without the first `strip` bytes of its UTF-8 form,
/// where a character starts after them; an array without the prefix
/// `strip`, or without its first `strip` elements.
pub open spec fn lib_strip_start(value: ObjectView, strip: ObjectView) -> ObjectView {
    match value {
        ObjectView::Str(text) => match strip {
            ObjectView::Str(prefix) => if starts_with(text, prefix) {
                ObjectView::Str(text.subrange(prefix.len() as int, text.len() as int))
            } else {
                value
            },
            ObjectView::Integer(n) => match byte_parts(text, n as int) {
                Some((before, after)) => ObjectView::Str(after),
                None => out_of_range(),
            },
            _ => error(value.kind() + " cannot be stripped from a String"@),
        },
        ObjectView::Array(items) => match strip {
            ObjectView::Array(prefix) => if prefix.len() <= items.len() && all_alike(
                items.subrange(0, prefix.len() as int),
                prefix,
            ) {
                ObjectView::Array(items.subrange(prefix.len() as int, items.len() as int))
            } else {
                value
            },
            ObjectView::Integer(n) => if 0 <= n <= items.len() {
                ObjectView::Array(items.subrange(n as int, items.len() as int))
            } else {
                out_of_range()
            },
            _ => error(value.kind() + " cannot be stripped from an Array"@),
        },
        _ => error("No associated function strip_start() for "@ + value.kind()),
    }
}

/// `strip_end(value, strip)`: a string without the suffix `strip`, if it
/// ends with it, or without the last `strip` bytes of its UTF-8 form,
/// where a character starts at them; an array without the suffix `strip`,
/// or cut down to its first `strip` elements.
pub open spec fn lib_strip_end(value: ObjectView, strip: ObjectView) -> ObjectView {
    match value {
        ObjectView::Str(text) => match strip {
            ObjectView::Str(suffix) => if ends_with(text, suffix) {
                ObjectView::Str(text.subrange(0, text.len() - suffix.len()))
            } else {
                value
            },
            ObjectView::Integer(n) => match byte_parts(text, encode_utf8(text).len() - n) {
                Some((before, after)) => ObjectView::Str(before),
                None => out_of_range(),
            },
            _ => error(value.kind() + " cannot be stripped from a "@),
        },
        ObjectView::Array(items) => match strip {
            ObjectView::Array(suffix) => if suffix.len() <= items.len() && all_alike(
                items.subrange(items.len() - suffix.len(), items.len() as int),
                suffix,
            ) {
                ObjectView::Array(items.subrange(0, items.len() - suffix.len()))
            } else {
                value
            },
            ObjectView::Integer(n) => if 0 <= n <= items.len() {
                ObjectView::Array(items.subrange(0, n as int))
            } else {
                out_of_range()
            },
            _ => error(value.kind() + " cannot be stripped from an Array"@),
        },
        _ => error("No associated function strip_start() for "@ + value.kind()),
    }
}

/// What a line that was read is, by the kind of `value`: an integer, a
/// float, a character, where the line is one byte long, or a string.
pub open spec fn lib_read(value: ObjectView, line: Seq<char>) -> ObjectView {
    match value {
        ObjectView::Integer(_) => match parsed_integer(line) {
            Some(i) => ObjectView::Integer(i),
            None => error("Expected an integer"@),
        },
        ObjectView::Float(_) => if is_float_text(line) {
            ObjectView::Float(line)
        } else {
            error("Expected a floating point number"@)
        },
        ObjectView::Char(_) => if encode_utf8(line).len() == 1 && line.len() > 0 {
            ObjectView::Char(line[0])
        } else {
            error("More than one characters received"@)
        },
        ObjectView::Str(_) => ObjectView::Str(line),
        _ => error("No associated function read() for "@ + value.kind()),
    }
}

/// The call of a library function. The number of arguments is checked
/// first. `write` adds a line to what was written out. `read` takes the
/// next line that can be read and binds it to the variable that its
/// argument, a string, names.
pub open spec fn apply_builtin(function: BuiltinFunction, args: Seq<ObjectView>, state: StateView)
    -> (ObjectView, StateView) {
    if args.len() != function.arity() {
        (arity_error(function.arity(), args.len()), state)
    } else {
        match function {
            BuiltinFunction::Kind => (lib_kind(args[0]), state),
            BuiltinFunction::Write => (
                ObjectView::Null,
                StateView { output: state.output.push(args[0].text()), ..state },
            ),
            BuiltinFunction::Read => if state.input.len() == 0 {
                (error("Failed to read from stdin"@), state)
            } else {
                let read = lib_read(args[0], state.input[0]);
                let rest = StateView { input: state.input.drop_first(), ..state };
                if read is Error {
                    (read, rest)
                } else {
                    match args[0] {
                        ObjectView::Str(name) => (ObjectView::Null, define(rest, name, read)),
                        _ => (error("Couldn't find variable"@), rest),
                    }
                }
            },
            BuiltinFunction::Len => (lib_len(args[0]), state),
            BuiltinFunction::First => (lib_first(args[0]), state),
            BuiltinFunction::Last => (lib_last(args[0]), state),
            BuiltinFunction::Chars => (lib_chars(args[0]), state),
            BuiltinFunction::Split => (lib_split(args[0], args[1]), state),
            BuiltinFunction::Append => (lib_append(args[0], args[1]), state),
            BuiltinFunction::StripStart => (lib_strip_start(args[0], args[1]), state),
            BuiltinFunction::StripEnd => (lib_strip_end(args[0], args[1]), state),
        }
    }
}

/// The error of a call or an inclusion that nests deeper than allowed.
pub open spec fn too_deep() -> ObjectView {
    error("Maximum call depth exceeded"@)
}

/// The statements of a source text, and the state of the parser after
/// them, which holds the errors.
pub open spec fn parsed(code: Seq<char>) -> (Seq<StatementView>, ParserView) {
    let lexer = LexerView { input: code, position: 0 };
    (ParserView {
        curr: dummy(TokenKindView::Eof),
        peek: dummy(TokenKindView::Eof),
        rest: lexer.remaining(),
        end: lexer.end_span(),
        errors: Seq::empty(),
    }).advance().advance().program(Seq::empty())
}

/// What was written out, with the messages of the errors from index `i`
/// on added.
pub open spec fn report(output: Seq<Seq<char>>, errors: Seq<ParseErrorView>, i: int) -> Seq<
    Seq<char>,
>
    decreases errors.len() - i,
{
    if 0 <= i < errors.len() {
        report(output.push(errors[i].message()), errors, i + 1)
    } else {
        output
    }
}

/// The value that a call gives: what a `return` in the body returned, or
/// the value of the body.
pub open spec fn returned(value: ObjectView) -> ObjectView {
    match value {
        ObjectView::Return(inner) => *inner,
        _ => value,
    }
}

impl StateView {
    /// The value of an expression. `depth` is how deep calls and
    /// inclusions may still nest.
    ///
    /// An error in a part of an expression is the value of the whole
    /// expression, and no part after it is evaluated.
    pub open spec fn eval_expression(self, expr: ExpressionView, depth: nat) -> (
        ObjectView,
        StateView,
    )
        decreases 2 * depth, expr, 0nat,
    {
        match expr {
            ExpressionView::Identifier(ident) => (identifier(ident.label, self), self),
            ExpressionView::Primitive(literal) => (primitive(literal), self),
            ExpressionView::Unary { operator, right } => {
                let (right, after) = self.eval_expression(*right, depth);
                if right is Error {
                    (right, after)
                } else {
                    (prefix(operator, right), after)
                }
            },
            ExpressionView::Binary { operator, left, right } => {
                let (left, after_left) = self.eval_expression(*left, depth);
                let (right, after_right) = after_left.eval_expression(*right, depth);
                if left is Error {
                    (left, after_left)
                } else if right is Error {
                    (right, after_right)
                } else {
                    (infix(operator, left, right), after_right)
                }
            },
            ExpressionView::Conditional { cond, consequence, alternative } => {
                let (cond, after) = self.eval_expression(*cond, depth);
                if cond is Error {
                    (cond, after)
                } else if cond == ObjectView::Boolean(true) {
                    after.eval_block(consequence, 0, ObjectView::Null, depth)
                } else {
                    match alternative {
                        Some(alternative) => after.eval_block(
                            alternative,
                            0,
                            ObjectView::Null,
                            depth,
                        ),
                        None => (ObjectView::Null, after),
                    }
                }
            },
            ExpressionView::FunctionDef { name, params, body } => (
                ObjectView::Function { params, body, env: self.current },
                self,
            ),
            ExpressionView::FunctionCall { function, args } => {
                let (function, after) = self.eval_expression(*function, depth);
                let (args, ready) = after.eval_expressions(args, 0, Seq::empty(), depth);
                if function is Error {
                    (function, after)
                } else {
                    match args {
                        Err(error) => (error, ready),
                        Ok(args) => match function {
                            ObjectView::Function { params, body, env } => if depth == 0 {
                                (too_deep(), ready)
                            } else {
                                ready.call(params, body, env, args, (depth - 1) as nat)
                            },
                            _ => ready.apply_other(function, args),
                        },
                    }
                }
            },
            ExpressionView::Array { elements } => {
                let (elements, after) = self.eval_expressions(elements, 0, Seq::empty(), depth);
                match elements {
                    Ok(elements) => (ObjectView::Array(elements), after),
                    Err(error) => (error, after),
                }
            },
            ExpressionView::ArrIndex { arr, index } => {
                let (collection, after_arr) = self.eval_expression(*arr, depth);
                let (index, after_index) = after_arr.eval_expression(*index, depth);
                if collection is Error {
                    (collection, after_arr)
                } else if index is Error {
                    (index, after_index)
                } else {
                    (index_into(collection, index), after_index)
                }
            },
            ExpressionView::HashMapLiteral { pairs } => self.eval_pairs(
                pairs,
                0,
                Seq::empty(),
                depth,
            ),
        }
    }

    /// The values of the expressions from index `i` on, after `values`,
    /// from left to right; or the first error among them.
    pub open spec fn eval_expressions(
        self,
        exprs: Seq<ExpressionView>,
        i: int,
        values: Seq<ObjectView>,
        depth: nat,
    ) -> (Result<Seq<ObjectView>, ObjectView>, StateView)
        decreases 2 * depth, exprs, exprs.len() - i,
    {
        if 0 <= i < exprs.len() {
            let (value, after) = self.eval_expression(exprs[i], depth);
            if value is Error {
                (Err(value), after)
            } else {
                after.eval_expressions(exprs, i + 1, values.push(value), depth)
            }
        } else {
            (Ok(values), self)
        }
    }

    /// The hash map of the pairs from index `i` on, added to `entries`:
    /// each key is evaluated and must be an integer, a character, a string
    /// or a boolean, then its value is evaluated.
    pub open spec fn eval_pairs(
        self,
        pairs: Seq<(ExpressionView, ExpressionView)>,
        i: int,
        entries: Seq<(ObjectView, ObjectView)>,
        depth: nat,
    ) -> (ObjectView, StateView)
        decreases 2 * depth, pairs, pairs.len() - i,
    {
        if 0 <= i < pairs.len() {
            let (key, after_key) = self.eval_expression(pairs[i].0, depth);
            let (value, after_value) = after_key.eval_expression(pairs[i].1, depth);
            if key is Error {
                (key, after_key)
            } else if !key.hashable() {
                (error("Cannot hash a "@ + key.kind()), after_key)
            } else if value is Error {
                (value, after_value)
            } else {
                after_value.eval_pairs(pairs, i + 1, set_key(entries, key, value), depth)
            }
        } else {
            (ObjectView::HashLiteral(entries), self)
        }
    }

    /// The value of a statement. A binding gives `Null` and binds its
    /// name in the scope in use; a return wraps its value; an inclusion
    /// evaluates the statements of the source in the scope in use.
    pub open spec fn eval_statement(self, stmt: StatementView, depth: nat) -> (ObjectView, StateView)
        decreases 2 * depth, stmt, 0nat,
    {
        match stmt {
            StatementView::Assignment { name, val } => {
                let (value, after) = self.eval_expression(val, depth);
                if value is Error {
                    (value, after)
                } else {
                    (ObjectView::Null, define(after, name.label, value))
                }
            },
            StatementView::Return(returnable) => {
                let (value, after) = self.eval_expression(returnable, depth);
                if value is Error {
                    (value, after)
                } else {
                    (ObjectView::Return(Box::new(value)), after)
                }
            },
            StatementView::Expression(expr) => self.eval_expression(expr, depth),
            StatementView::Source(path) => match source_text(self.sources, path) {
                None => (error("Couldn't find "@ + path), self),
                Some(code) => if depth == 0 {
                    (too_deep(), self)
                } else {
                    self.run_source(code, (depth - 1) as nat)
                },
            },
        }
    }

    /// The value of a block from statement `i` on: the value of its last
    /// statement, or the first `Error` or `Return` among them, at which
    /// the block stops. `last` is the value so far.
    pub open spec fn eval_block(
        self,
        stmts: Seq<StatementView>,
        i: int,
        last: ObjectView,
        depth: nat,
    ) -> (ObjectView, StateView)
        decreases 2 * depth, stmts, stmts.len() - i,
    {
        if 0 <= i < stmts.len() {
            let (value, after) = self.eval_statement(stmts[i], depth);
            if value is Error || value is Return {
                (value, after)
            } else {
                after.eval_block(stmts, i + 1, value, depth)
            }
        } else {
            (last, self)
        }
    }

    /// The value of a program from statement `i` on: the value of its
    /// last statement. Every statement is evaluated, whatever the value of
    /// the one before it.
    pub open spec fn eval_program(
        self,
        stmts: Seq<StatementView>,
        i: int,
        last: ObjectView,
        depth: nat,
    ) -> (ObjectView, StateView)
        decreases 2 * depth, stmts, stmts.len() - i,
    {
        if 0 <= i < stmts.len() {
            let (value, after) = self.eval_statement(stmts[i], depth);
            after.eval_program(stmts, i + 1, value, depth)
        } else {
            (last, self)
        }
    }

    /// The call of a function value: the body is evaluated in a new scope
    /// around which lies the scope that the function was defined in, with
    /// the parameters bound to the arguments. Afterwards the scope of the
    /// caller is in use again.
    pub open spec fn call(
        self,
        params: Seq<IdentView>,
        body: Seq<StatementView>,
        env: nat,
        args: Seq<ObjectView>,
        depth: nat,
    ) -> (ObjectView, StateView)
        decreases 2 * depth + 1,
    {
        if env >= self.scopes.len() {
            (error("Function environment is not available"@), self)
        } else {
            let scope = ScopeView {
                store: bind_params(Seq::empty(), params, args, 0),
                outer: Some(env),
            };
            let entered = StateView {
                scopes: self.scopes.push(scope),
                current: self.scopes.len(),
                ..self
            };
            let (value, after) = entered.eval_block(body, 0, ObjectView::Null, depth);
            (returned(value), StateView { current: self.current, ..after })
        }
    }

    /// The inclusion of a source text: its statements are evaluated in the
    /// scope in use, after the messages of its parse errors were written
    /// out.
    pub open spec fn run_source(self, code: Seq<char>, depth: nat) -> (ObjectView, StateView)
        decreases 2 * depth + 1,
    {
        let (stmts, parser) = parsed(code);
        (StateView { output: report(self.output, parser.errors, 0), ..self }).eval_program(
            stmts,
            0,
            ObjectView::Null,
            depth,
        )
    }

    /// The call of a value that is no function of the program: a library
    /// function is applied; any other value cannot be called.
    pub open spec fn apply_other(self, function: ObjectView, args: Seq<ObjectView>) -> (
        ObjectView,
        StateView,
    ) {
        match function {
            ObjectView::Builtin(builtin) => apply_builtin(builtin, args, self),
            _ => (error(function.text() + " not found"@), self),
        }
    }

    /// The call of a value with arguments.
    pub open spec fn apply(self, function: ObjectView, args: Seq<ObjectView>, depth: nat) -> (
        ObjectView,
        StateView,
    ) {
        match function {
            ObjectView::Function { params, body, env } => if depth == 0 {
                (too_deep(), self)
            } else {
                self.call(params, body, env, args, (depth - 1) as nat)
            },
            _ => self.apply_other(function, args),
        }
    }
}

} // verus!
