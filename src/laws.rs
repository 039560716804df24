use vstd::prelude::*;

use crate::decoder::Deserializer;
use crate::store::{HoconRead, Index, Read, VecRead};
use crate::value::{lookup, lookup_from, Hocon};

verus! {

proof fn lemma_lookup_from_append(entries: Seq<(String, Hocon)>, extra: Seq<(String, Hocon)>, key: Seq<char>, i: int)
    requires
        0 <= i <= entries.len(),
        forall|j: int| 0 <= j < extra.len() ==> extra[j].0@ != key,
    ensures
        lookup_from(entries + extra, key, i) == lookup_from(entries, key, i),
    decreases entries.len() + extra.len() - i,
{
    let all = entries + extra;
    if i < entries.len() {
        assert(all[i] == entries[i]);
        if entries[i].0@ != key {
            lemma_lookup_from_append(entries, extra, key, i + 1);
        }
    } else {
        lemma_lookup_from_absent(all, key, i);
    }
}

proof fn lemma_lookup_from_absent(all: Seq<(String, Hocon)>, key: Seq<char>, i: int)
    requires
        0 <= i,
        forall|j: int| i <= j < all.len() ==> all[j].0@ != key,
    ensures
        lookup_from(all, key, i) is None,
    decreases all.len() - i,
{
    if i < all.len() {
        lemma_lookup_from_absent(all, key, i + 1);
    }
}

/// Struct decoding reads each declared field by its key alone: keys of the document
/// that are not declared fields change no field's value.
pub proof fn lemma_undeclared_keys_ignored(
    entries: Seq<(String, Hocon)>,
    extra: Seq<(String, Hocon)>,
    fields: Seq<Seq<char>>,
)
    requires
        forall|j: int, f: int| 0 <= j < extra.len() && 0 <= f < fields.len() ==> extra[j].0@ != fields[f],
    ensures
        forall|f: int| 0 <= f < fields.len() ==> lookup(#[trigger] (entries + extra), fields[f]) == lookup(entries, fields[f]),
{
    assert forall|f: int| 0 <= f < fields.len() implies lookup(#[trigger] (entries + extra), fields[f]) == lookup(entries, fields[f]) by {
        lemma_lookup_from_append(entries, extra, fields[f], 0);
    }
}

/// In an object scope, the node that a declared field's key addresses is the
/// document's value under that key, taken from the declared entries alone: entries
/// under other keys, wherever they stand after them, change nothing.
pub proof fn lemma_field_node_ignores_other_keys<'a>(
    r: HoconRead<'a>,
    declared: Seq<(String, Hocon)>,
    extra: Seq<(String, Hocon)>,
    key: String,
)
    requires
        r.hocon matches Hocon::Hash(entries) && entries@ == declared + extra,
        forall|j: int| 0 <= j < extra.len() ==> extra[j].0@ != key@,
    ensures
        r.fetch(Index::String(key)) == match lookup(declared, key@) {
            Some(Hocon::BadValue) => None,
            found => found,
        },
{
    lemma_lookup_from_append(declared, extra, key@, 0);
}

/// A sequence scope holds an element at exactly the positions below the array's
/// length, each the array's element there, so that a walk from position 0 yields the
/// elements in order and ends at the first position past them.
pub proof fn lemma_sequence_ends_at_length<'a>(r: VecRead<'a>, k: usize)
    ensures
        r.fetch(Index::Number(k)) is Some <==> k < r.vec.len(),
        k < r.vec.len() ==> r.fetch(Index::Number(k)) == Some(r.vec@[k as int]),
{
}

/// Narrowing an integer to a smaller width keeps its low bits and does not fail: the
/// unsigned result is the two's complement value modulo two to the width, and the
/// signed result has the same bits as the unsigned one.
pub proof fn lemma_narrowing_truncates(n: i64)
    ensures
        (n as u8) as u64 == (n as u64) % 0x100,
        (n as u16) as u64 == (n as u64) % 0x1_0000,
        (n as u32) as u64 == (n as u64) % 0x1_0000_0000,
        (n as i8) as u8 == n as u8,
        (n as i16) as u16 == n as u16,
        (n as i32) as u32 == n as u32,
{
    assert((n as u8) as u64 == (n as u64) % 0x100) by (bit_vector);
    assert((n as u16) as u64 == (n as u64) % 0x1_0000) by (bit_vector);
    assert((n as u32) as u64 == (n as u64) % 0x1_0000_0000) by (bit_vector);
    assert((n as i8) as u8 == n as u8) by (bit_vector);
    assert((n as i16) as u16 == n as u16) by (bit_vector);
    assert((n as i32) as u32 == n as u32) by (bit_vector);
}

/// Decoding depends only on the scope and the index: two decoders that agree on both
/// find the same node and read the same values from it.
pub proof fn lemma_decoding_is_deterministic<R: Read>(a: Deserializer<R>, b: Deserializer<R>)
    requires
        a.read == b.read,
        a.current_field == b.current_field,
    ensures
        a.node() == b.node(),
        a.integer() == b.integer(),
{
}

} // verus!
