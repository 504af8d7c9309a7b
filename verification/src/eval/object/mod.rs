//! The values of the language.
pub mod builtin;
pub mod function;

use crate::parser::ast::render::{block_text, idents_text, idents_to_string};
use crate::parser::ast::{idents_view, stmts_view, IdentView, StatementView};
use crate::text::{int_text, integer_to_string, join};
use builtin::BuiltinFunction;
use function::Function;
use vstd::prelude::*;

verus! {

/// A value. `Return` and `Error` also steer evaluation: a block stops at
/// either, and an error stands for the value of whatever contains it.
#[derive(Debug, PartialEq)]
pub enum Object {
    Integer(i64),
    /// A float, kept as the text that was read.
    Float(String),
    Char(char),
    Str(String),
    Boolean(bool),
    Function(Function),
    Builtin(BuiltinFunction),
    Array(Vec<Object>),
    /// The pairs of a hash map, in the order in which their keys were first
    /// set. In the hash map of a literal no key occurs twice.
    HashLiteral(Vec<(Object, Object)>),
    Return(Box<Object>),
    Null,
    Error(String),
}

/// The mathematical value of an [`Object`].
pub enum ObjectView {
    Integer(i64),
    Float(Seq<char>),
    Char(char),
    Str(Seq<char>),
    Boolean(bool),
    Function { params: Seq<IdentView>, body: Seq<StatementView>, env: nat },
    Builtin(BuiltinFunction),
    Array(Seq<ObjectView>),
    HashLiteral(Seq<(ObjectView, ObjectView)>),
    Return(Box<ObjectView>),
    Null,
    Error(Seq<char>),
}

/// The values of a list of objects.
pub open spec fn objects_view(objects: Seq<Object>) -> Seq<ObjectView>
    decreases objects,
{
    Seq::new(
        objects.len(),
        |i: int|
            if 0 <= i < objects.len() {
                object_view(objects[i])
            } else {
                arbitrary()
            },
    )
}

/// The values of a list of pairs of objects.
pub open spec fn entries_view(entries: Seq<(Object, Object)>) -> Seq<(ObjectView, ObjectView)>
    decreases entries,
{
    Seq::new(
        entries.len(),
        |i: int|
            if 0 <= i < entries.len() {
                (object_view(entries[i].0), object_view(entries[i].1))
            } else {
                arbitrary()
            },
    )
}

/// The value of an object.
pub open spec fn object_view(object: Object) -> ObjectView
    decreases object,
{
    match object {
        Object::Integer(i) => ObjectView::Integer(i),
        Object::Float(text) => ObjectView::Float(text@),
        Object::Char(c) => ObjectView::Char(c),
        Object::Str(text) => ObjectView::Str(text@),
        Object::Boolean(b) => ObjectView::Boolean(b),
        Object::Function(f) => ObjectView::Function {
            params: idents_view((*f.params)@),
            body: stmts_view((*f.body).statements@),
            env: f.environment as nat,
        },
        Object::Builtin(b) => ObjectView::Builtin(b),
        Object::Array(items) => ObjectView::Array(objects_view(items@)),
        Object::HashLiteral(entries) => ObjectView::HashLiteral(entries_view(entries@)),
        Object::Return(inner) => ObjectView::Return(Box::new(object_view(*inner))),
        Object::Null => ObjectView::Null,
        Object::Error(message) => ObjectView::Error(message@),
    }
}

impl View for Object {
    type V = ObjectView;

    open spec fn view(&self) -> ObjectView {
        object_view(*self)
    }
}

/// The texts of a list of values, with `", "` between them.
pub open spec fn list_text(items: Seq<ObjectView>) -> Seq<char>
    decreases items,
{
    if items.len() == 0 {
        Seq::empty()
    } else if items.len() == 1 {
        items[0].text()
    } else {
        list_text(items.drop_last()) + ", "@ + items.last().text()
    }
}

/// The texts of the pairs of a hash map, each as `key: value`, with `", "`
/// between them.
pub open spec fn entries_text(entries: Seq<(ObjectView, ObjectView)>) -> Seq<char>
    decreases entries,
{
    if entries.len() == 0 {
        Seq::empty()
    } else if entries.len() == 1 {
        entries[0].0.text() + ": "@ + entries[0].1.text()
    } else {
        entries_text(entries.drop_last()) + ", "@ + entries.last().0.text() + ": "@
            + entries.last().1.text()
    }
}

impl ObjectView {
    /// The name of the kind of the value.
    pub open spec fn kind(self) -> Seq<char> {
        match self {
            ObjectView::Integer(_) => "Integer"@,
            ObjectView::Float(_) => "Float"@,
            ObjectView::Char(_) => "Character"@,
            ObjectView::Str(_) => "String"@,
            ObjectView::Boolean(_) => "Boolean"@,
            ObjectView::Function { .. } => "Function"@,
            ObjectView::Builtin(_) => "Builtin Function"@,
            ObjectView::Array(_) => "Array"@,
            ObjectView::HashLiteral(_) => "HashMap"@,
            ObjectView::Return(_) => "RETURN"@,
            ObjectView::Null => "NULL"@,
            ObjectView::Error(_) => "ERROR"@,
        }
    }

    /// Whether the value is an error.
    pub open spec fn errored(self) -> bool {
        self is Error
    }

    /// Whether the value can be the key of a hash map: an integer, a
    /// character, a string or a boolean.
    pub open spec fn hashable(self) -> bool {
        self is Integer || self is Char || self is Str || self is Boolean
    }

    /// Whether the value counts as true: a boolean counts as itself,
    /// `Null` as false, any other value as true.
    pub open spec fn truthy(self) -> bool {
        match self {
            ObjectView::Boolean(b) => b,
            ObjectView::Null => false,
            _ => true,
        }
    }

    /// Whether two values are alike: of the same kind and with like
    /// contents. A function is like no value, not even itself.
    pub open spec fn alike(self, other: ObjectView) -> bool
        decreases self,
    {
        match (self, other) {
            (ObjectView::Integer(a), ObjectView::Integer(b)) => a == b,
            (ObjectView::Float(a), ObjectView::Float(b)) => a == b,
            (ObjectView::Char(a), ObjectView::Char(b)) => a == b,
            (ObjectView::Str(a), ObjectView::Str(b)) => a == b,
            (ObjectView::Boolean(a), ObjectView::Boolean(b)) => a == b,
            (ObjectView::Builtin(a), ObjectView::Builtin(b)) => a == b,
            (ObjectView::Array(a), ObjectView::Array(b)) => a.len() == b.len() && forall|i: int|
                0 <= i < a.len() ==> (#[trigger] a[i]).alike(b[i]),
            (ObjectView::HashLiteral(a), ObjectView::HashLiteral(b)) => a.len() == b.len()
                && forall|i: int|
                0 <= i < a.len() ==> (#[trigger] a[i]).0.alike(b[i].0) && a[i].1.alike(b[i].1),
            (ObjectView::Return(a), ObjectView::Return(b)) => a.alike(*b),
            (ObjectView::Null, ObjectView::Null) => true,
            (ObjectView::Error(a), ObjectView::Error(b)) => a == b,
            _ => false,
        }
    }

    /// How the value reads when it is written out.
    pub open spec fn text(self) -> Seq<char>
        decreases self,
    {
        match self {
            ObjectView::Integer(i) => int_text(i as int),
            ObjectView::Float(text) => text,
            ObjectView::Char(c) => seq![c],
            ObjectView::Str(text) => text,
            ObjectView::Boolean(b) => if b {
                "true"@
            } else {
                "false"@
            },
            ObjectView::Function { params, body, .. } => "fn("@ + idents_text(params) + ") {\n"@
                + block_text(body) + "\n}"@,
            ObjectView::Builtin(b) => "Builtin "@ + b.name(),
            ObjectView::Array(items) => "["@ + list_text(items) + "]"@,
            ObjectView::HashLiteral(entries) => "{ "@ + entries_text(entries) + " }"@,
            ObjectView::Return(inner) => inner.text(),
            ObjectView::Null => "NULL"@,
            ObjectView::Error(message) => "Err => "@ + message,
        }
    }
}

impl Clone for Object {
    fn clone(&self) -> (copy: Self)
        ensures
            copy@ == self@,
        decreases self,
    {
        match self {
            Object::Integer(i) => Object::Integer(*i),
            Object::Float(text) => Object::Float(text.clone()),
            Object::Char(c) => Object::Char(*c),
            Object::Str(text) => Object::Str(text.clone()),
            Object::Boolean(b) => Object::Boolean(*b),
            Object::Function(f) => Object::Function(f.clone()),
            Object::Builtin(b) => Object::Builtin(*b),
            Object::Array(items) => {
                let mut copies: Vec<Object> = Vec::new();
                let mut i: usize = 0;
                while i < items.len()
                    invariant
                        i <= items.len(),
                        *self == Object::Array(*items),
                        copies@.len() == i,
                        forall|j: int| 0 <= j < i ==> copies@[j]@ == items@[j]@,
                    decreases items.len() - i,
                {
                    proof {
                        vstd::std_specs::vec::axiom_vec_index_decreases(*items, i as int);
                        assert(decreases_to!(*self => self->Array_0));
                    }
                    copies.push(items[i].clone());
                    i = i + 1;
                }
                assert(objects_view(copies@) =~= objects_view(items@));
                Object::Array(copies)
            },
            Object::HashLiteral(entries) => {
                let mut copies: Vec<(Object, Object)> = Vec::new();
                let mut i: usize = 0;
                while i < entries.len()
                    invariant
                        i <= entries.len(),
                        *self == Object::HashLiteral(*entries),
                        copies@.len() == i,
                        forall|j: int|
                            0 <= j < i ==> copies@[j].0@ == entries@[j].0@ && copies@[j].1@
                                == entries@[j].1@,
                    decreases entries.len() - i,
                {
                    proof {
                        vstd::std_specs::vec::axiom_vec_index_decreases(*entries, i as int);
                        assert(decreases_to!(*self => self->HashLiteral_0));
                        assert(decreases_to!(entries@[i as int] => entries@[i as int].0));
                        assert(decreases_to!(entries@[i as int] => entries@[i as int].1));
                    }
                    let key = entries[i].0.clone();
                    let val = entries[i].1.clone();
                    copies.push((key, val));
                    i = i + 1;
                }
                assert(entries_view(copies@) =~= entries_view(entries@));
                Object::HashLiteral(copies)
            },
            Object::Return(inner) => Object::Return(Box::new((**inner).clone())),
            Object::Null => Object::Null,
            Object::Error(message) => Object::Error(message.clone()),
        }
    }
}

impl Object {
    /// The name of the kind of the value.
    pub fn kind(&self) -> (name: &'static str)
        ensures
            name@ == self@.kind(),
    {
        match self {
            Object::Integer(_) => "Integer",
            Object::Float(_) => "Float",
            Object::Char(_) => "Character",
            Object::Str(_) => "String",
            Object::Boolean(_) => "Boolean",
            Object::Function(_) => "Function",
            Object::Builtin(_) => "Builtin Function",
            Object::Array(_) => "Array",
            Object::HashLiteral(_) => "HashMap",
            Object::Return(_) => "RETURN",
            Object::Null => "NULL",
            Object::Error(_) => "ERROR",
        }
    }

    /// Whether the value is an error.
    pub fn errored(&self) -> (r: bool)
        ensures
            r == self@.errored(),
    {
        match self {
            Object::Error(_) => true,
            _ => false,
        }
    }

    /// Whether the value can be the key of a hash map.
    pub fn hashable(&self) -> (r: bool)
        ensures
            r == self@.hashable(),
    {
        match self {
            Object::Integer(_) | Object::Char(_) | Object::Str(_) | Object::Boolean(_) => true,
            _ => false,
        }
    }

    /// Whether two values are the same key: both can be keys, and they are
    /// equal.
    pub fn same_key(&self, other: &Object) -> (r: bool)
        ensures
            r == (self@.hashable() && self@ == other@),
    {
        match (self, other) {
            (Object::Integer(a), Object::Integer(b)) => *a == *b,
            (Object::Char(a), Object::Char(b)) => *a == *b,
            (Object::Str(a), Object::Str(b)) => *a == *b,
            (Object::Boolean(a), Object::Boolean(b)) => *a == *b,
            _ => false,
        }
    }

    /// Whether two values are alike.
    pub fn same_as(&self, other: &Object) -> (r: bool)
        ensures
            r == self@.alike(other@),
        decreases self,
    {
        match (self, other) {
            (Object::Integer(a), Object::Integer(b)) => *a == *b,
            (Object::Float(a), Object::Float(b)) => *a == *b,
            (Object::Char(a), Object::Char(b)) => *a == *b,
            (Object::Str(a), Object::Str(b)) => *a == *b,
            (Object::Boolean(a), Object::Boolean(b)) => *a == *b,
            (Object::Builtin(a), Object::Builtin(b)) => *a == *b,
            (Object::Array(a), Object::Array(b)) => {
                assert(self@ == ObjectView::Array(objects_view(a@)));
                assert(other@ == ObjectView::Array(objects_view(b@)));
                if a.len() != b.len() {
                    return false;
                }
                let mut i: usize = 0;
                while i < a.len()
                    invariant
                        i <= a.len(),
                        a.len() == b.len(),
                        *self == Object::Array(*a),
                        self@ == ObjectView::Array(objects_view(a@)),
                        other@ == ObjectView::Array(objects_view(b@)),
                        forall|j: int| 0 <= j < i ==> (#[trigger] a@[j])@.alike(b@[j]@),
                    decreases a.len() - i,
                {
                    proof {
                        vstd::std_specs::vec::axiom_vec_index_decreases(*a, i as int);
                        assert(decreases_to!(*self => self->Array_0));
                    }
                    if !a[i].same_as(&b[i]) {
                        assert(!(objects_view(a@)[i as int]).alike(objects_view(b@)[i as int]));
                        return false;
                    }
                    i = i + 1;
                }
                assert forall|j: int| 0 <= j < a.len() implies (#[trigger] objects_view(
                    a@,
                )[j]).alike(objects_view(b@)[j]) by {
                    assert(a@[j]@.alike(b@[j]@));
                }
                true
            },
            (Object::HashLiteral(a), Object::HashLiteral(b)) => {
                assert(self@ == ObjectView::HashLiteral(entries_view(a@)));
                assert(other@ == ObjectView::HashLiteral(entries_view(b@)));
                if a.len() != b.len() {
                    return false;
                }
                let mut i: usize = 0;
                while i < a.len()
                    invariant
                        i <= a.len(),
                        a.len() == b.len(),
                        *self == Object::HashLiteral(*a),
                        self@ == ObjectView::HashLiteral(entries_view(a@)),
                        other@ == ObjectView::HashLiteral(entries_view(b@)),
                        forall|j: int|
                            0 <= j < i ==> (#[trigger] a@[j]).0@.alike(b@[j].0@) && a@[j].1@.alike(
                                b@[j].1@,
                            ),
                    decreases a.len() - i,
                {
                    proof {
                        vstd::std_specs::vec::axiom_vec_index_decreases(*a, i as int);
                        assert(decreases_to!(*self => self->HashLiteral_0));
                        assert(decreases_to!(a@[i as int] => a@[i as int].0));
                        assert(decreases_to!(a@[i as int] => a@[i as int].1));
                    }
                    if !a[i].0.same_as(&b[i].0) || !a[i].1.same_as(&b[i].1) {
                        assert(!((entries_view(a@)[i as int]).0.alike(entries_view(b@)[i as int].0)
                            && entries_view(a@)[i as int].1.alike(entries_view(b@)[i as int].1)));
                        return false;
                    }
                    i = i + 1;
                }
                assert forall|j: int| 0 <= j < a.len() implies (#[trigger] entries_view(
                    a@,
                )[j]).0.alike(entries_view(b@)[j].0) && entries_view(a@)[j].1.alike(
                    entries_view(b@)[j].1,
                ) by {
                    assert(a@[j].0@.alike(b@[j].0@));
                }
                true
            },
            (Object::Return(a), Object::Return(b)) => (**a).same_as(&**b),
            (Object::Null, Object::Null) => true,
            (Object::Error(a), Object::Error(b)) => *a == *b,
            _ => false,
        }
    }

    /// Renders the value as it is written out.
    pub fn to_string(&self) -> (s: String)
        ensures
            s@ == self@.text(),
        decreases self,
    {
        match self {
            Object::Integer(i) => integer_to_string(*i),
            Object::Float(text) => text.clone(),
            Object::Char(c) => {
                let mut s = String::new();
                s.push(*c);
                assert(s@ =~= seq![*c]);
                s
            },
            Object::Str(text) => text.clone(),
            Object::Boolean(b) => if *b {
                String::from_str("true")
            } else {
                String::from_str("false")
            },
            Object::Function(f) => {
                let head = join("fn(", idents_to_string(&f.params).as_str());
                let body = join(head.as_str(), ") {\n");
                let whole = join(body.as_str(), f.body.to_string().as_str());
                join(whole.as_str(), "\n}")
            },
            Object::Builtin(b) => join("Builtin ", b.label()),
            Object::Array(items) => {
                let mut inner = String::new();
                let mut i: usize = 0;
                while i < items.len()
                    invariant
                        i <= items.len(),
                        *self == Object::Array(*items),
                        inner@ == list_text(objects_view(items@).take(i as int)),
                    decreases items.len() - i,
                {
                    proof {
                        vstd::std_specs::vec::axiom_vec_index_decreases(*items, i as int);
                        assert(decreases_to!(*self => self->Array_0));
                        assert(objects_view(items@).take(i + 1).drop_last() =~= objects_view(
                            items@,
                        ).take(i as int));
                    }
                    if i > 0 {
                        inner = join(inner.as_str(), ", ");
                    }
                    inner = join(inner.as_str(), items[i].to_string().as_str());
                    i = i + 1;
                }
                assert(objects_view(items@).take(i as int) =~= objects_view(items@));
                let head = join("[", inner.as_str());
                join(head.as_str(), "]")
            },
            Object::HashLiteral(entries) => {
                let mut inner = String::new();
                let mut i: usize = 0;
                while i < entries.len()
                    invariant
                        i <= entries.len(),
                        *self == Object::HashLiteral(*entries),
                        inner@ == entries_text(entries_view(entries@).take(i as int)),
                    decreases entries.len() - i,
                {
                    proof {
                        vstd::std_specs::vec::axiom_vec_index_decreases(*entries, i as int);
                        assert(decreases_to!(*self => self->HashLiteral_0));
                        assert(decreases_to!(entries@[i as int] => entries@[i as int].0));
                        assert(decreases_to!(entries@[i as int] => entries@[i as int].1));
                        assert(entries_view(entries@).take(i + 1).drop_last() =~= entries_view(
                            entries@,
                        ).take(i as int));
                    }
                    if i > 0 {
                        inner = join(inner.as_str(), ", ");
                    }
                    inner = join(inner.as_str(), entries[i].0.to_string().as_str());
                    inner = join(inner.as_str(), ": ");
                    inner = join(inner.as_str(), entries[i].1.to_string().as_str());
                    i = i + 1;
                }
                assert(entries_view(entries@).take(i as int) =~= entries_view(entries@));
                let head = join("{ ", inner.as_str());
                join(head.as_str(), " }")
            },
            Object::Return(inner) => (**inner).to_string(),
            Object::Null => String::from_str("NULL"),
            Object::Error(message) => join("Err => ", message.as_str()),
        }
    }
}

} // verus!
