//! Library functions on arrays.
use crate::eval::model::lib_append;
use crate::eval::object::{objects_view, Object, ObjectView};
use crate::text::join;
use vstd::prelude::*;

verus! {

/// Copies of the elements `items[from..to]`.
pub fn slice_of(items: &Vec<Object>, from: usize, to: usize) -> (part: Vec<Object>)
    requires
        from <= to <= items.len(),
    ensures
        objects_view(part@) == objects_view(items@).subrange(from as int, to as int),
{
    let mut part: Vec<Object> = Vec::new();
    let mut i: usize = from;
    while i < to
        invariant
            from <= i <= to <= items.len(),
            part@.len() == i - from,
            forall|j: int| 0 <= j < i - from ==> part@[j]@ == items@[from + j]@,
        decreases to - i,
    {
        part.push(items[i].clone());
        i = i + 1;
    }
    assert(objects_view(part@) =~= objects_view(items@).subrange(from as int, to as int));
    part
}

/// Whether the elements of `part` are like the elements of `items` from
/// position `at` on.
pub fn alike_at(items: &Vec<Object>, at: usize, part: &Vec<Object>) -> (r: bool)
    requires
        at + part.len() <= items.len(),
    ensures
        r == ObjectView::Array(objects_view(items@).subrange(at as int, at + part.len())).alike(
            ObjectView::Array(objects_view(part@)),
        ),
{
    let ghost a = objects_view(items@).subrange(at as int, at + part.len());
    let ghost b = objects_view(part@);
    let mut i: usize = 0;
    while i < part.len()
        invariant
            i <= part.len(),
            at + part.len() <= items.len(),
            a == objects_view(items@).subrange(at as int, at + part.len()),
            b == objects_view(part@),
            forall|j: int| 0 <= j < i ==> (#[trigger] a[j]).alike(b[j]),
        decreases part.len() - i,
    {
        if !items[at + i].same_as(&part[i]) {
            assert(!a[i as int].alike(b[i as int]));
            return false;
        }
        i = i + 1;
    }
    true
}

/// `append(obj, appendable)`: the array with a value added at its end, or,
/// where the value is an array, with the elements of that array added.
pub fn append(obj: Object, appendable: Object) -> (r: Object)
    ensures
        r@ == lib_append(obj@, appendable@),
{
    match obj {
        Object::Array(mut arr) => {
            let ghost before = objects_view(arr@);
            match appendable {
                Object::Array(mut more) => {
                    let ghost added = objects_view(more@);
                    arr.append(&mut more);
                    assert(objects_view(arr@) =~= before + added);
                    Object::Array(arr)
                },
                other => {
                    arr.push(other);
                    assert(objects_view(arr@) =~= before.push(other@));
                    Object::Array(arr)
                },
            }
        },
        other => Object::Error(join("Expected an array, Got ", other.kind())),
    }
}

} // verus!
