//! Scopes: the bindings of names to values.
//!
//! A scope names the scope around it by a handle, so that any number of
//! function values can refer to the scope that they were defined in.
use super::model::{bind, local, position, reach, resolve, Bindings, ScopeView};
use super::object::Object;
use crate::text::same_text;
use vstd::prelude::*;

verus! {

/// A scope: its bindings, and the handle of the scope around it.
#[derive(Debug)]
pub struct Environment {
    pub store: Vec<(String, Object)>,
    pub outer_env: Option<usize>,
}

/// The values of a list of bindings.
pub open spec fn bindings_view(store: Seq<(String, Object)>) -> Bindings {
    Seq::new(store.len(), |i: int| (store[i].0@, store[i].1@))
}

impl View for Environment {
    type V = ScopeView;

    open spec fn view(&self) -> ScopeView {
        ScopeView {
            store: bindings_view(self.store@),
            outer: match self.outer_env {
                Some(outer) => Some(outer as nat),
                None => None,
            },
        }
    }
}

/// The values of a list of scopes.
pub open spec fn scopes_view(scopes: Seq<Environment>) -> Seq<ScopeView> {
    Seq::new(scopes.len(), |i: int| scopes[i]@)
}

impl Environment {
    /// A scope without bindings and with no scope around it.
    pub fn new() -> (env: Environment)
        ensures
            env@ == (ScopeView { store: Seq::empty(), outer: None }),
    {
        let env = Environment { store: Vec::new(), outer_env: None };
        assert(bindings_view(env.store@) =~= Seq::empty());
        env
    }

    /// A scope without bindings inside the scope with the handle
    /// `outer_env`.
    pub fn new_enclosed_env(outer_env: usize) -> (env: Environment)
        ensures
            env@ == (ScopeView { store: Seq::empty(), outer: Some(outer_env as nat) }),
    {
        let env = Environment { store: Vec::new(), outer_env: Some(outer_env) };
        assert(bindings_view(env.store@) =~= Seq::empty());
        env
    }

    /// The index of the binding of `name`, if the scope has one.
    fn find(&self, name: &str) -> (found: Option<usize>)
        ensures
            match found {
                Some(i) => position(self@.store, name@, 0) == Some(i as int) && i < self.store.len(),
                None => position(self@.store, name@, 0) is None,
            },
    {
        let mut i: usize = 0;
        while i < self.store.len()
            invariant
                i <= self.store.len(),
                position(self@.store, name@, i as int) == position(self@.store, name@, 0),
            decreases self.store.len() - i,
        {
            if same_text(self.store[i].0.as_str(), name) {
                return Some(i);
            }
            i = i + 1;
        }
        None
    }

    /// Binds `name` to `value` in this scope, in place of what it was
    /// bound to.
    pub fn upsert(&mut self, name: String, value: Object)
        ensures
            final(self)@.store == bind(old(self)@.store, name@, value@),
            final(self)@.outer == old(self)@.outer,
    {
        match self.find(name.as_str()) {
            Some(i) => {
                self.store[i] = (name, value);
                assert(bindings_view(self.store@) =~= bindings_view(old(self).store@).update(
                    i as int,
                    (name@, value@),
                ));
            },
            None => {
                self.store.push((name, value));
                assert(bindings_view(self.store@) =~= bindings_view(old(self).store@).push(
                    (name@, value@),
                ));
            },
        }
    }

    /// The value that `name` is bound to in this scope itself.
    pub fn get_here(&self, name: &str) -> (value: Option<Object>)
        ensures
            match value {
                Some(v) => local(self@.store, name@) == Some(v@),
                None => local(self@.store, name@) is None,
            },
    {
        match self.find(name) {
            Some(i) => Some(self.store[i].1.clone()),
            None => None,
        }
    }

    /// The value that `name` is bound to in the scope with the handle `at`
    /// or, failing that, in the scopes around it, nearest first. `scopes`
    /// holds every scope under its handle.
    pub fn lookup(scopes: &Vec<Environment>, at: usize, name: &str) -> (value: Option<Object>)
        ensures
            match value {
                Some(v) => resolve(scopes_view(scopes@), at as nat, name@) == Some(v@),
                None => resolve(scopes_view(scopes@), at as nat, name@) is None,
            },
    {
        let mut from = at;
        loop
            invariant
                resolve(scopes_view(scopes@), from as nat, name@) == resolve(
                    scopes_view(scopes@),
                    at as nat,
                    name@,
                ),
            decreases from,
        {
            if from >= scopes.len() {
                return None;
            }
            assert(scopes_view(scopes@)[from as int] == scopes@[from as int]@);
            match scopes[from].get_here(name) {
                Some(value) => {
                    return Some(value);
                },
                None => match scopes[from].outer_env {
                    Some(outer) => {
                        if outer < from {
                            from = outer;
                        } else {
                            return None;
                        }
                    },
                    None => {
                        return None;
                    },
                },
            }
        }
    }

    /// The value that `name` is bound to in this scope or, failing that,
    /// in the scopes around it, nearest first. `scopes` holds the scopes
    /// around this one under their handles. No scope is changed.
    pub fn get(&self, name: &str, scopes: &Vec<Environment>) -> (value: Option<Object>)
        ensures
            match value {
                Some(v) => reach(self@, scopes_view(scopes@), name@) == Some(v@),
                None => reach(self@, scopes_view(scopes@), name@) is None,
            },
    {
        match self.get_here(name) {
            Some(value) => Some(value),
            None => match self.outer_env {
                Some(outer) => Self::lookup(scopes, outer, name),
                None => None,
            },
        }
    }
}

} // verus!
