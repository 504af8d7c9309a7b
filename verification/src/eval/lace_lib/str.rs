//! Library functions on strings.
use crate::eval::model::{
    char_objects, letter, letter_is_a_character, lib_chars, lib_split, no_function, split_text,
    str_objects,
};
use crate::eval::object::{objects_view, Object, ObjectView};
use crate::text::{char_at, chars_of, join};
use vstd::prelude::*;

verus! {

/// The texts of a list of strings.
pub open spec fn texts(strings: Seq<String>) -> Seq<Seq<char>> {
    Seq::new(strings.len(), |i: int| strings[i]@)
}

/// `str::split` with a string as the pattern: the pieces of `text`
/// between the occurrences of `delimiter`, in order. The occurrences are
/// matched from left to right without overlap; an empty pattern matches
/// before and after every character.
#[verifier::external_body]
pub(crate) fn pieces(text: &str, delimiter: &str) -> (parts: Vec<String>)
    ensures
        texts(parts@) == split_text(text@, delimiter@),
{
    text.split(delimiter).map(|part| part.to_string()).collect()
}

/// The error of a library function that the kind of a value lacks.
pub(crate) fn lacks(value: &Object, function: &str) -> (e: Object)
    ensures
        e@ == no_function(value@, function@),
{
    let head = join(value.kind(), " does not have any associated function ");
    Object::Error(join(head.as_str(), function))
}

/// The pieces of `text` between the occurrences of `delimiter`, as values.
fn split_by(text: &str, delimiter: &str) -> (array: Object)
    ensures
        array@ == ObjectView::Array(str_objects(split_text(text@, delimiter@))),
{
    let mut parts = pieces(text, delimiter);
    let mut items: Vec<Object> = Vec::new();
    let mut i: usize = 0;
    while i < parts.len()
        invariant
            i <= parts.len(),
            items@.len() == i,
            forall|j: int| 0 <= j < i ==> items@[j]@ == ObjectView::Str(parts@[j]@),
        decreases parts.len() - i,
    {
        items.push(Object::Str(parts[i].clone()));
        i = i + 1;
    }
    assert(objects_view(items@) =~= str_objects(texts(parts@)));
    Object::Array(items)
}

/// `split(obj, delimeter)`: the pieces of a string between the occurrences
/// of a string or a character.
pub fn split(obj: Object, delimeter: Object) -> (r: Object)
    ensures
        r@ == lib_split(obj@, delimeter@),
{
    match &obj {
        Object::Str(text) => match &delimeter {
            Object::Str(d) => split_by(text.as_str(), d.as_str()),
            Object::Char(c) => {
                let mut d = String::new();
                d.push(*c);
                assert(d@ =~= seq![*c]);
                split_by(text.as_str(), d.as_str())
            },
            _ => Object::Error(join("Expected String or character, got ", delimeter.kind())),
        },
        _ => lacks(&obj, "first()"),
    }
}

/// `chars(obj)`: the characters of a string.
pub fn chars(obj: Object) -> (r: Object)
    ensures
        r@ == lib_chars(obj@),
{
    match &obj {
        Object::Str(text) => {
            let letters = chars_of(text.as_str());
            let mut items: Vec<Object> = Vec::new();
            let mut i: usize = 0;
            while i < letters.len()
                invariant
                    i <= letters.len(),
                    letters@ == text@,
                    items@.len() == i,
                    forall|j: int| 0 <= j < i ==> items@[j]@ == letter(letters@[j]),
                decreases letters.len() - i,
            {
                let c = char_at(&letters, i);
                proof {
                    letter_is_a_character(c);
                }
                items.push(Object::Char(c));
                i = i + 1;
            }
            assert(objects_view(items@) =~= char_objects(text@));
            Object::Array(items)
        },
        _ => lacks(&obj, "chars()"),
    }
}

} // verus!
