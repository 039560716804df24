use vstd::prelude::*;

use crate::decoder::Deserializer;
use crate::store::{Index, Read};

verus! {

/// Walks the elements of an array scope by ascending position, from 0.
pub struct SeqAccess {
    pub current: usize,
}

impl SeqAccess {
    pub fn new() -> (r: SeqAccess)
        ensures
            r.current == 0,
    {
        SeqAccess { current: 0 }
    }

    /// Addresses the next position; `true` when an element is there (it is then
    /// decoded at that index), `false` at the first position without one.
    pub fn next_element<R: Read>(&mut self, de: &mut Deserializer<R>) -> (r: bool)
        requires
            old(self).current < usize::MAX,
        ensures
            final(self).current == old(self).current + 1,
            final(de).current_field == Index::Number(old(self).current),
            final(de).read == old(de).read,
            final(de).as_key == old(de).as_key,
            r == final(de).node() is Some,
    {
        de.current_field = Index::Number(self.current);
        self.current = self.current + 1;
        de.read.get_attribute_value(&de.current_field).is_some()
    }
}

/// Walks a fixed list of field names in order, addressing each by key.
pub struct MapAccess {
    pub keys: Vec<String>,
    pub current: usize,
}

impl MapAccess {
    pub fn new(keys: Vec<String>) -> (r: MapAccess)
        ensures
            r.keys@ == keys@,
            r.current == 0,
    {
        MapAccess { keys, current: 0 }
    }

    /// Addresses the next field name as a key, in key phase; `false` once the
    /// list is exhausted, whatever keys the document holds.
    pub fn next_key<R: Read>(&mut self, de: &mut Deserializer<R>) -> (r: bool)
        ensures
            final(self).keys@ == old(self).keys@,
            final(de).read == old(de).read,
            r == (old(self).current < old(self).keys.len()),
            r ==> final(self).current == old(self).current + 1,
            r ==> (final(de).current_field matches Index::String(k)
                && k@ == old(self).keys@[old(self).current as int]@),
            r ==> final(de).as_key,
            !r ==> *final(self) == *old(self) && *final(de) == *old(de),
    {
        if self.current >= self.keys.len() {
            false
        } else {
            de.current_field = Index::String(self.keys[self.current].clone());
            de.as_key = true;
            self.current = self.current + 1;
            true
        }
    }

    /// Leaves key phase, so that the field's value is decoded at the same key.
    pub fn next_value<R: Read>(&mut self, de: &mut Deserializer<R>)
        ensures
            *final(self) == *old(self),
            final(de).read == old(de).read,
            final(de).current_field == old(de).current_field,
            !final(de).as_key,
    {
        de.as_key = false;
    }
}

} // verus!
