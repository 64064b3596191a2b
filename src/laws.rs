//! Laws that relate several operations of the bridge.
use vstd::prelude::*;
use crate::layout::{
    is_block_word, encode_int, decode_int, ml_int_in_range, string_wosize, lemma_int_round_trip,
};
use crate::gc::Gc;
use crate::staging::{GCResult1, allocated};
use crate::value::{MlString, Pair};

verus! {

/// A string allocation, read back through its block, gives the bytes it was
/// made from, with a recorded length equal to theirs: whatever `alloc_caml_string`
/// promises of `s` makes `as_bytes` and `caml_string_length` applicable to the
/// result and pins what they return.
pub proof fn lemma_string_round_trip(before: Gc, after: Gc, r: GCResult1<MlString>, s: Seq<u8>)
    requires
        allocated(before, after, r),
        after.is_string(r.word()),
        after.bytes_at(r.word()) == s,
    ensures
        after.is_live_block(r.word()),
        after.bytes_at(r.word()) == s,
        after.bytes_at(r.word()).len() == s.len(),
        after.wosize_at(r.word()) == string_wosize(s.len()),
{
    assert(after.blocks@[r.word() / 2].wf(after.nblocks()));
}

/// A pair allocated from two encoded integers gives them back: both fields
/// are immediates, and `as_int` on `fst` and `snd` decodes `a` and `b`.
pub proof fn lemma_pair_round_trip<A, B>(after: Gc, r: GCResult1<Pair<A, B>>, a: int, b: int)
    requires
        ml_int_in_range(a),
        ml_int_in_range(b),
        after.is_scannable(r.word(), 2),
        after.field_at(r.word(), 0) == encode_int(a),
        after.field_at(r.word(), 1) == encode_int(b),
    ensures
        !is_block_word(after.field_at(r.word(), 0)),
        !is_block_word(after.field_at(r.word(), 1)),
        decode_int(after.field_at(r.word(), 0) as int) == a,
        decode_int(after.field_at(r.word(), 1) as int) == b,
{
    lemma_int_round_trip(a);
    lemma_int_round_trip(b);
}

} // verus!
