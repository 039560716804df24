use vstd::prelude::*;

use crate::error::Error;
use crate::store::{HoconRead, Index, Read, VecRead};
use crate::value::{Hocon, Number};

verus! {

/// The decoding state of one scope: where nodes come from, which child is addressed
/// next, and whether a field's key (rather than its value) is being produced.
pub struct Deserializer<R> {
    pub read: R,
    pub current_field: Index,
    pub as_key: bool,
}

/// Whether `s` is the text of exactly one character.
pub open spec fn is_one_char(s: Seq<char>) -> bool {
    s.len() == 1
}

impl<R: Read> Deserializer<R> {
    /// A decoder at the root of `read`, producing values.
    pub fn new(read: R) -> (r: Self)
        ensures
            r.read == read,
            r.current_field == Index::Root,
            !r.as_key,
    {
        Deserializer { read, current_field: Index::Root, as_key: false }
    }

    /// The node that the current index locates.
    pub open spec fn node(&self) -> Option<Hocon> {
        self.read.fetch(self.current_field)
    }

    /// The current node read as a 64-bit integer.
    pub open spec fn integer(&self) -> Option<i64> {
        match self.node() {
            Some(n) => n.spec_as_i64(),
            None => None,
        }
    }

    /// A required boolean: absent or not a boolean is an error.
    pub fn deserialize_bool(&self) -> (r: Result<bool, Error>)
        ensures
            match self.node() {
                Some(Hocon::Boolean(b)) => r == Ok::<bool, Error>(b),
                _ => r is Err,
            },
    {
        match self.read.get_attribute_value(&self.current_field) {
            None => Err(Error::new("Missing field")),
            Some(Hocon::Boolean(b)) => Ok(*b),
            Some(_) => Err(Error::new("Invalid type")),
        }
    }

    /// A required 64-bit integer: absent or not an integer is an error.
    pub fn deserialize_i64(&self) -> (r: Result<i64, Error>)
        ensures
            match self.integer() {
                Some(n) => r == Ok::<i64, Error>(n),
                None => r is Err,
            },
    {
        match self.read.get_attribute_value(&self.current_field) {
            Some(Hocon::Integer(n)) => Ok(*n),
            _ => Err(Error::new("missing integer for field")),
        }
    }

    /// The integer narrowed to 8 bits by truncation: no range check.
    pub fn deserialize_i8(&self) -> (r: Result<i8, Error>)
        ensures
            match self.integer() {
                Some(n) => r == Ok::<i8, Error>(n as i8),
                None => r is Err,
            },
    {
        match self.deserialize_i64() {
            Ok(n) => Ok(#[verifier::truncate] (n as i8)),
            Err(e) => Err(e),
        }
    }

    /// The integer narrowed to 16 bits by truncation: no range check.
    pub fn deserialize_i16(&self) -> (r: Result<i16, Error>)
        ensures
            match self.integer() {
                Some(n) => r == Ok::<i16, Error>(n as i16),
                None => r is Err,
            },
    {
        match self.deserialize_i64() {
            Ok(n) => Ok(#[verifier::truncate] (n as i16)),
            Err(e) => Err(e),
        }
    }

    /// The integer narrowed to 32 bits by truncation: no range check.
    pub fn deserialize_i32(&self) -> (r: Result<i32, Error>)
        ensures
            match self.integer() {
                Some(n) => r == Ok::<i32, Error>(n as i32),
                None => r is Err,
            },
    {
        match self.deserialize_i64() {
            Ok(n) => Ok(#[verifier::truncate] (n as i32)),
            Err(e) => Err(e),
        }
    }

    /// The integer cast to 8 unsigned bits by truncation: no range check.
    pub fn deserialize_u8(&self) -> (r: Result<u8, Error>)
        ensures
            match self.integer() {
                Some(n) => r == Ok::<u8, Error>(n as u8),
                None => r is Err,
            },
    {
        match self.deserialize_i64() {
            Ok(n) => Ok(#[verifier::truncate] (n as u8)),
            Err(e) => Err(e),
        }
    }

    /// The integer cast to 16 unsigned bits by truncation: no range check.
    pub fn deserialize_u16(&self) -> (r: Result<u16, Error>)
        ensures
            match self.integer() {
                Some(n) => r == Ok::<u16, Error>(n as u16),
                None => r is Err,
            },
    {
        match self.deserialize_i64() {
            Ok(n) => Ok(#[verifier::truncate] (n as u16)),
            Err(e) => Err(e),
        }
    }

    /// The integer cast to 32 unsigned bits by truncation: no range check.
    pub fn deserialize_u32(&self) -> (r: Result<u32, Error>)
        ensures
            match self.integer() {
                Some(n) => r == Ok::<u32, Error>(n as u32),
                None => r is Err,
            },
    {
        match self.deserialize_i64() {
            Ok(n) => Ok(#[verifier::truncate] (n as u32)),
            Err(e) => Err(e),
        }
    }

    /// The integer cast to 64 unsigned bits (two's complement reinterpretation).
    pub fn deserialize_u64(&self) -> (r: Result<u64, Error>)
        ensures
            match self.integer() {
                Some(n) => r == Ok::<u64, Error>(n as u64),
                None => r is Err,
            },
    {
        match self.deserialize_i64() {
            Ok(n) => Ok(#[verifier::truncate] (n as u64)),
            Err(e) => Err(e),
        }
    }
    /// A required number, integer or real, for decoding as a floating-point value.
    pub fn deserialize_f64(&self) -> (r: Result<Number, Error>)
        ensures
            match self.node() {
                Some(n) => match n.spec_as_number() {
                    Some(x) => r == Ok::<Number, Error>(x),
                    None => r is Err,
                },
                None => r is Err,
            },
    {
        match self.read.get_attribute_value(&self.current_field) {
            Some(Hocon::Integer(n)) => Ok(Number::Integer(*n)),
            Some(Hocon::Real(bits)) => Ok(Number::Real(*bits)),
            _ => Err(Error::new("missing float for field")),
        }
    }

    /// A required character: a string node of exactly one character.
    pub fn deserialize_char(&self) -> (r: Result<char, Error>)
        ensures
            match self.node() {
                Some(Hocon::String(s)) => if is_one_char(s@) {
                    r == Ok::<char, Error>(s@[0])
                } else {
                    r is Err
                },
                _ => r is Err,
            },
    {
        match self.read.get_attribute_value(&self.current_field) {
            None => Err(Error::new("missing char for field")),
            Some(Hocon::String(s)) => {
                let text = s.as_str();
                if text.unicode_len() == 1 {
                    Ok(text.get_char(0))
                } else {
                    Err(Error::new("Invalid type"))
                }
            },
            Some(_) => Err(Error::new("missing char for field")),
        }
    }

    /// A string. While a key is produced: the current key, or the empty string when
    /// the index is no key. Otherwise: the string node, the empty string when no node
    /// is there, and an error for a node of another type.
    pub fn deserialize_str(&self) -> (r: Result<String, Error>)
        ensures
            self.as_key ==> match self.current_field {
                Index::String(k) => r matches Ok(s) && s@ == k@,
                _ => r matches Ok(s) && s@.len() == 0,
            },
            !self.as_key ==> match self.node() {
                Some(Hocon::String(t)) => r matches Ok(s) && s@ == t@,
                Some(_) => r is Err,
                None => r matches Ok(s) && s@.len() == 0,
            },
    {
        if self.as_key {
            match &self.current_field {
                Index::String(key) => Ok(key.clone()),
                _ => Ok(String::new()),
            }
        } else {
            match self.read.get_attribute_value(&self.current_field) {
                Some(Hocon::String(s)) => Ok(s.clone()),
                Some(_) => Err(Error::new("missing string for field")),
                None => Ok(String::new()),
            }
        }
    }

    /// Whether an optional value is there: `false` for an absent node and for an
    /// explicit null, `true` otherwise (the value is then decoded at the same index).
    pub fn deserialize_option(&self) -> (r: bool)
        ensures
            r == (self.node() is Some && self.node()->0 != Hocon::Null),
    {
        match self.read.get_attribute_value(&self.current_field) {
            None => false,
            Some(Hocon::Null) => false,
            Some(_) => true,
        }
    }

    /// A sequence: the array node, as the scope of a new decoder over its elements.
    pub fn deserialize_seq<'a>(&'a self) -> (r: Result<Deserializer<VecRead<'a>>, Error>)
        ensures
            match self.node() {
                Some(Hocon::Array(items)) => r matches Ok(d) && d.read.vec@ == items@
                    && d.current_field == Index::Root && !d.as_key,
                _ => r is Err,
            },
    {
        match self.read.get_attribute_value(&self.current_field) {
            None => Err(Error::new("missing sequence for field")),
            Some(Hocon::Array(items)) => Ok(Deserializer::new(VecRead { vec: items })),
            Some(_) => Err(Error::new("No sequence input found")),
        }
    }

    /// A struct. At the root the fields are read from this same decoder (`None`);
    /// below it, the addressed node becomes the scope of a new decoder.
    pub fn deserialize_struct<'a>(&'a self) -> (r: Result<Option<Deserializer<HoconRead<'a>>>, Error>)
        ensures
            self.current_field is Root ==> r matches Ok(None),
            !(self.current_field is Root) ==> match self.node() {
                Some(n) => r matches Ok(Some(d)) && *d.read.hocon == n
                    && d.current_field == Index::Root && !d.as_key,
                None => r is Err,
            },
    {
        match self.current_field {
            Index::Root => Ok(None),
            _ => match self.read.get_attribute_value(&self.current_field) {
                Some(node) => Ok(Some(Deserializer::new(HoconRead::new(node)))),
                None => Err(Error::new("missing struct for field")),
            },
        }
    }

    /// The name of the current field: only a key names one.
    pub fn deserialize_identifier(&self) -> (r: Result<String, Error>)
        ensures
            match self.current_field {
                Index::String(k) => r matches Ok(s) && s@ == k@,
                _ => r is Err,
            },
    {
        match &self.current_field {
            Index::String(key) => Ok(key.clone()),
            _ => Err(Error::new("identifier should be a string")),
        }
    }
}

} // verus!
