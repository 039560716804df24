//! Decoding of parsed HOCON documents into typed values.
//!
//! `value` models the document tree, `store` the scopes from which child nodes are
//! fetched, `decoder` the coercion of a node into each requested shape, `cursor` the
//! walks over array elements and declared struct fields, and `laws` the properties
//! that hold across them.
use vstd::prelude::*;

pub mod cursor;
pub mod decoder;
pub mod error;
pub mod laws;
pub mod store;
pub mod value;

verus! {

} // verus!
