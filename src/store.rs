use vstd::prelude::*;

use crate::value::{deref_opt, Hocon};

verus! {

/// How the next child node is located: by key, by position, or not at all (the root).
#[derive(Debug)]
pub enum Index {
    String(String),
    Number(usize),
    /// No index: the scope itself, as at the root.
    Root,
}

/// A scope of the document from which child nodes are fetched.
pub trait Read {
    /// The node that `index` locates in this scope, if any.
    spec fn fetch(&self, index: Index) -> Option<Hocon>;

    fn get_attribute_value(&self, index: &Index) -> (r: Option<&Hocon>)
        ensures
            deref_opt(r) == self.fetch(*index),
    ;
}

/// A scope over an object (or the root): children are located by key.
pub struct HoconRead<'a> {
    pub hocon: &'a Hocon,
}

impl<'a> HoconRead<'a> {
    pub fn new(hocon: &'a Hocon) -> (r: HoconRead<'a>)
        ensures
            *r.hocon == *hocon,
    {
        HoconRead { hocon }
    }
}

impl<'a> Read for HoconRead<'a> {
    /// A key locates the value under it, unless that is the failed-lookup marker;
    /// a position or no index locates nothing.
    open spec fn fetch(&self, index: Index) -> Option<Hocon> {
        match index {
            Index::String(key) => match self.hocon.spec_get(key@) {
                Some(Hocon::BadValue) => None,
                found => found,
            },
            _ => None,
        }
    }

    fn get_attribute_value(&self, index: &Index) -> (r: Option<&Hocon>) {
        match index {
            Index::String(key) => match self.hocon.get(key) {
                Some(Hocon::BadValue) => None,
                found => found,
            },
            _ => None,
        }
    }
}

/// A scope over an array: children are located by position.
pub struct VecRead<'a> {
    pub vec: &'a Vec<Hocon>,
}

impl<'a> Read for VecRead<'a> {
    /// A position inside the array locates the element there; anything else, nothing.
    open spec fn fetch(&self, index: Index) -> Option<Hocon> {
        match index {
            Index::Number(i) => if i < self.vec.len() {
                Some(self.vec@[i as int])
            } else {
                None
            },
            _ => None,
        }
    }

    fn get_attribute_value(&self, index: &Index) -> (r: Option<&Hocon>) {
        match index {
            Index::Number(i) => if *i < self.vec.len() {
                Some(&self.vec[*i])
            } else {
                None
            },
            _ => None,
        }
    }
}

} // verus!
