use vstd::prelude::*;

verus! {

/// A parsed configuration document: a tree of scalars, arrays and objects.
#[derive(Debug)]
pub enum Hocon {
    /// A real number, held as the bit pattern of an IEEE 754 binary64 value.
    Real(u64),
    Integer(i64),
    String(String),
    Boolean(bool),
    Array(Vec<Hocon>),
    /// An object: its entries as (key, value) pairs; a key is looked up at its first entry.
    Hash(Vec<(String, Hocon)>),
    Null,
    /// What a failed lookup yields in the document model.
    BadValue,
}

/// A numeric node read as a number: an integer, or the bits of a binary64 real.
#[derive(Debug, PartialEq, Eq, Structural)]
pub enum Number {
    Integer(i64),
    Real(u64),
}

/// The value at the first entry of `entries`, from position `i` on, whose key is `key`.
pub open spec fn lookup_from(entries: Seq<(String, Hocon)>, key: Seq<char>, i: int) -> Option<Hocon>
    decreases entries.len() - i,
{
    if i < 0 || i >= entries.len() {
        None
    } else if entries[i].0@ == key {
        Some(entries[i].1)
    } else {
        lookup_from(entries, key, i + 1)
    }
}

/// The value of the first entry of `entries` whose key is `key`.
pub open spec fn lookup(entries: Seq<(String, Hocon)>, key: Seq<char>) -> Option<Hocon> {
    lookup_from(entries, key, 0)
}

impl Hocon {
    /// The node read as a 64-bit integer.
    pub open spec fn spec_as_i64(self) -> Option<i64> {
        match self {
            Hocon::Integer(i) => Some(i),
            _ => None,
        }
    }

    /// The node read as a number.
    pub open spec fn spec_as_number(self) -> Option<Number> {
        match self {
            Hocon::Integer(i) => Some(Number::Integer(i)),
            Hocon::Real(bits) => Some(Number::Real(bits)),
            _ => None,
        }
    }

    /// The node read as a boolean.
    pub open spec fn spec_as_bool(self) -> Option<bool> {
        match self {
            Hocon::Boolean(b) => Some(b),
            _ => None,
        }
    }

    /// The node read as a string.
    pub open spec fn spec_as_string(self) -> Option<Seq<char>> {
        match self {
            Hocon::String(s) => Some(s@),
            _ => None,
        }
    }

    /// Indexing the node by a key: the value under that key in an object; `None` on a
    /// missing key and on a node that is no object.
    pub open spec fn spec_get(self, key: Seq<char>) -> Option<Hocon> {
        match self {
            Hocon::Hash(entries) => lookup(entries@, key),
            _ => None,
        }
    }

    /// Indexing the node by a key, as `spec_get` says.
    pub fn get<'a>(&'a self, key: &String) -> (r: Option<&'a Hocon>)
        ensures
            deref_opt(r) == self.spec_get(key@),
    {
        match self {
            Hocon::Hash(entries) => {
                let mut i: usize = 0;
                while i < entries.len()
                    invariant
                        i <= entries.len(),
                        self.spec_get(key@) == lookup_from(entries@, key@, i as int),
                    decreases entries.len() - i,
                {
                    let entry = &entries[i];
                    if entry.0 == *key {
                        return Some(&entry.1);
                    }
                    i = i + 1;
                }
                None
            },
            _ => None,
        }
    }
}

/// What a borrowed optional node holds.
pub open spec fn deref_opt(r: Option<&Hocon>) -> Option<Hocon> {
    match r {
        Some(v) => Some(*v),
        None => None,
    }
}

} // verus!
