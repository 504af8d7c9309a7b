//! Library functions on values of any kind.
use super::array::{alike_at, slice_of};
use super::str::lacks;
use crate::eval::model::{
    length, lib_first, lib_kind, lib_last, lib_len, lib_read, lib_strip_end, lib_strip_start,
    out_of_range,
};
use crate::eval::object::{objects_view, Object, ObjectView};
use crate::parser::float_text;
use crate::text::{
    char_at, chars_of, has_prefix, has_suffix, join, parse_integer, split_bytes, string_of,
};
use vstd::prelude::*;

verus! {

/// `kind(obj)`: the name of the kind of a value.
pub fn kind(obj: Object) -> (r: Object)
    ensures
        r@ == lib_kind(obj@),
{
    Object::Str(String::from_str(obj.kind()))
}

/// The line that `write(obj)` writes out.
pub fn write(obj: Object) -> (line: String)
    ensures
        line@ == obj@.text(),
{
    obj.to_string()
}

/// What a line that was read is, by the kind of `obj`.
pub fn read(obj: Object, line: String) -> (r: Object)
    ensures
        r@ == lib_read(obj@, line@),
{
    match &obj {
        Object::Integer(_) => match parse_integer(line.as_str()) {
            Some(i) => Object::Integer(i),
            None => Object::Error(String::from_str("Expected an integer")),
        },
        Object::Float(_) => if float_text(line.as_str()) {
            Object::Float(line)
        } else {
            Object::Error(String::from_str("Expected a floating point number"))
        },
        Object::Char(_) => {
            let letters = chars_of(line.as_str());
            if line.as_str().as_bytes().len() == 1 && letters.len() > 0 {
                Object::Char(char_at(&letters, 0))
            } else {
                Object::Error(String::from_str("More than one characters received"))
            }
        },
        Object::Str(_) => Object::Str(line),
        _ => Object::Error(join("No associated function read() for ", obj.kind())),
    }
}

/// The length of a collection as a value.
fn length_of(n: usize) -> (r: Object)
    ensures
        r@ == length(n as nat),
{
    if n as u64 <= 0x7fff_ffff_ffff_ffffu64 {
        Object::Integer(n as i64)
    } else {
        Object::Error(String::from_str("Length exceeds the integer range"))
    }
}

/// `len(obj)`: the number of bytes of a string in UTF-8, or the number of
/// elements of an array.
pub fn len(obj: Object) -> (r: Object)
    ensures
        r@ == lib_len(obj@),
{
    match &obj {
        Object::Str(text) => {
            let bytes = text.as_str().as_bytes();
            assert(bytes@ == vstd::utf8::encode_utf8(text@));
            length_of(bytes.len())
        },
        Object::Array(items) => {
            assert(objects_view(items@).len() == items.len());
            length_of(items.len())
        },
        _ => lacks(&obj, "len()"),
    }
}

/// `first(obj)`: the first character of a string, or the first element of
/// an array.
pub fn first(obj: Object) -> (r: Object)
    ensures
        r@ == lib_first(obj@),
{
    match &obj {
        Object::Str(text) => {
            let letters = chars_of(text.as_str());
            if letters.len() > 0 {
                let head = Object::Char(char_at(&letters, 0));
                assert(head@ == lib_first(obj@));
                head
            } else {
                Object::Null
            }
        },
        Object::Array(items) => if items.len() > 0 {
            let head = items[0].clone();
            assert(obj@ == ObjectView::Array(objects_view(items@)));
            assert(objects_view(items@)[0] == items@[0]@);
            assert(lib_first(obj@) == objects_view(items@)[0]);
            assert(head@ == lib_first(obj@));
            head
        } else {
            Object::Error(String::from_str("Array is empty"))
        },
        _ => lacks(&obj, "first()"),
    }
}

/// `last(obj)`: the last character of a string, or the last element of an
/// array.
pub fn last(obj: Object) -> (r: Object)
    ensures
        r@ == lib_last(obj@),
{
    match &obj {
        Object::Str(text) => {
            let letters = chars_of(text.as_str());
            if letters.len() > 0 {
                let tail = Object::Char(char_at(&letters, letters.len() - 1));
                assert(tail@ == lib_last(obj@));
                tail
            } else {
                Object::Null
            }
        },
        Object::Array(items) => if items.len() > 0 {
            let tail = items[items.len() - 1].clone();
            assert(obj@ == ObjectView::Array(objects_view(items@)));
            assert(objects_view(items@).last() == items@[items.len() - 1]@);
            assert(lib_last(obj@) == objects_view(items@).last());
            assert(tail@ == lib_last(obj@));
            tail
        } else {
            Object::Error(String::from_str("Array is empty"))
        },
        _ => lacks(&obj, "last()"),
    }
}

/// The count `n` as an index into a collection of `len` elements, if it
/// lies within it.
fn within(n: i64, len: usize) -> (index: Option<usize>)
    ensures
        match index {
            Some(i) => 0 <= n <= len && i == n,
            None => !(0 <= n <= len),
        },
{
    if n >= 0 && n as u64 <= len as u64 {
        Some(n as usize)
    } else {
        None
    }
}

/// The error of a count that does not lie within a collection.
fn beyond() -> (e: Object)
    ensures
        e@ == out_of_range(),
{
    Object::Error(String::from_str("Index out of range"))
}

/// `strip_start(obj, strip)`: a string or an array without a prefix, or
/// without a number of its first elements.
pub fn strip_start(obj: Object, strip: Object) -> (r: Object)
    ensures
        r@ == lib_strip_start(obj@, strip@),
{
    match &obj {
        Object::Str(text) => match &strip {
            Object::Str(prefix) => {
                let letters = chars_of(text.as_str());
                let start = chars_of(prefix.as_str());
                if has_prefix(&letters, &start) {
                    Object::Str(string_of(&letters, start.len(), letters.len()))
                } else {
                    obj
                }
            },
            Object::Integer(n) => {
                let size = text.as_str().as_bytes().len();
                match within(*n, size) {
                    Some(i) => match split_bytes(text.as_str(), i) {
                        Some((_, after)) => Object::Str(after),
                        None => beyond(),
                    },
                    None => beyond(),
                }
            },
            _ => Object::Error(join(obj.kind(), " cannot be stripped from a String")),
        },
        Object::Array(items) => match &strip {
            Object::Array(prefix) => {
                if prefix.len() <= items.len() && alike_at(items, 0, prefix) {
                    Object::Array(slice_of(items, prefix.len(), items.len()))
                } else {
                    obj
                }
            },
            Object::Integer(n) => match within(*n, items.len()) {
                Some(i) => Object::Array(slice_of(items, i, items.len())),
                None => beyond(),
            },
            _ => Object::Error(join(obj.kind(), " cannot be stripped from an Array")),
        },
        _ => Object::Error(join("No associated function strip_start() for ", obj.kind())),
    }
}

/// `strip_end(obj, strip)`: a string or an array without a suffix; a
/// string without a number of its last characters; an array cut down to a
/// number of its first elements.
pub fn strip_end(obj: Object, strip: Object) -> (r: Object)
    ensures
        r@ == lib_strip_end(obj@, strip@),
{
    match &obj {
        Object::Str(text) => match &strip {
            Object::Str(suffix) => {
                let letters = chars_of(text.as_str());
                let end = chars_of(suffix.as_str());
                if has_suffix(&letters, &end) {
                    Object::Str(string_of(&letters, 0, letters.len() - end.len()))
                } else {
                    obj
                }
            },
            Object::Integer(n) => {
                let size = text.as_str().as_bytes().len();
                match within(*n, size) {
                    Some(i) => match split_bytes(text.as_str(), size - i) {
                        Some((before, _)) => Object::Str(before),
                        None => beyond(),
                    },
                    None => beyond(),
                }
            },
            _ => Object::Error(join(obj.kind(), " cannot be stripped from a ")),
        },
        Object::Array(items) => match &strip {
            Object::Array(suffix) => {
                if suffix.len() <= items.len() && alike_at(
                    items,
                    items.len() - suffix.len(),
                    suffix,
                ) {
                    Object::Array(slice_of(items, 0, items.len() - suffix.len()))
                } else {
                    obj
                }
            },
            Object::Integer(n) => match within(*n, items.len()) {
                Some(i) => Object::Array(slice_of(items, 0, i)),
                None => beyond(),
            },
            _ => Object::Error(join(obj.kind(), " cannot be stripped from an Array")),
        },
        _ => Object::Error(join("No associated function strip_start() for ", obj.kind())),
    }
}

} // verus!
