//! Word and header conventions of the host heap.
//!
//! A word with its low bit set is an immediate whose payload sits in the
//! upper bits; a word with its low bit clear designates a block. A block's
//! header records its size in words (above bit 10) and its tag (low byte).
use vstd::prelude::*;

verus! {

/// An opaque word of the host runtime.
pub type RawValue = i64;

/// Blocks with a tag at or above this one hold no sub-values.
pub const NO_SCAN_TAG: u8 = 251;

/// Tag of string and byte-string blocks.
pub const STRING_TAG: u8 = 252;

/// Tag of blocks whose payload layout is defined by a custom operations record.
pub const CUSTOM_TAG: u8 = 255;

/// The largest size in words a header can record.
pub const MAX_WOSIZE: u64 = 0x3f_ffff_ffff_ffff;

/// Smallest integer an immediate can carry (63-bit two's complement).
pub const ML_INT_MIN: i64 = -0x4000_0000_0000_0000;

/// Largest integer an immediate can carry (63-bit two's complement).
pub const ML_INT_MAX: i64 = 0x3fff_ffff_ffff_ffff;

/// The word of the empty list, of `None` and of `()`.
pub const VAL_UNIT: i64 = 1;

/// True when the word designates a block rather than an immediate.
pub open spec fn is_block_word(x: i64) -> bool {
    x % 2 == 0
}

/// The immediate word that carries the integer `n`.
pub open spec fn encode_int(n: int) -> int {
    2 * n + 1
}

/// The integer carried by the immediate word `x`.
pub open spec fn decode_int(x: int) -> int {
    (x - 1) / 2
}

/// The low byte of an integer, as a cast to `u8` keeps it.
pub open spec fn low_byte(n: int) -> u8 {
    #[verifier::truncate]
    (n as u8)
}

/// An integer taken modulo 2^63 into the range of host integers: what is
/// left of it once its top bit is dropped.
pub open spec fn ml_wrap(n: int) -> int {
    if n > ML_INT_MAX {
        n - 0x8000_0000_0000_0000
    } else if n < ML_INT_MIN {
        n + 0x8000_0000_0000_0000
    } else {
        n
    }
}

/// An integer of the range `(-2^65, 2^65)` taken modulo 2^64 into `i64`.
pub open spec fn wrap_i64(n: int) -> int {
    if n > i64::MAX {
        n - 0x1_0000_0000_0000_0000
    } else if n < i64::MIN {
        n + 0x1_0000_0000_0000_0000
    } else {
        n
    }
}

/// Integers that fit in an immediate.
pub open spec fn ml_int_in_range(n: int) -> bool {
    ML_INT_MIN <= n <= ML_INT_MAX
}

/// Size in words recorded by a header.
pub open spec fn header_wosize(h: u64) -> u64 {
    h >> 10
}

/// Tag recorded by a header.
pub open spec fn header_tag(h: u64) -> u8 {
    (h & 0xff) as u8
}

/// Size in words of a string block holding `len` bytes: the bytes, padded
/// so that at least one padding byte follows them.
pub open spec fn string_wosize(len: nat) -> nat {
    len / 8 + 1
}

/// Decoding an encoded integer gives it back.
pub proof fn lemma_int_round_trip(n: int)
    ensures
        decode_int(encode_int(n)) == n,
        ml_int_in_range(n) ==> !is_block_word(encode_int(n) as i64),
{
    if ml_int_in_range(n) {
        assert((encode_int(n) as i64) % 2 == 1);
    }
}

/// Every byte, encoded as a character immediate, decodes to itself.
pub proof fn lemma_char_round_trip(c: u8)
    ensures
        decode_int(encode_int(c as int)) as u8 == c,
        (encode_int(c as int) as i64) % 2 == 1,
{
}

#[allow(non_snake_case)]
/// Block-ness test on a raw word.
pub fn Is_block(x: RawValue) -> (r: bool)
    ensures
        r == is_block_word(x),
{
    x % 2 == 0
}

/// Builds a header from a size in words and a tag.
pub fn make_header(wosize: u64, tag: u8) -> (h: u64)
    requires
        wosize <= MAX_WOSIZE,
    ensures
        header_wosize(h) == wosize,
        header_tag(h) == tag,
{
    let h: u64 = (wosize << 10u64) | (tag as u64);
    assert(((wosize << 10u64) | (tag as u64)) >> 10u64 == wosize) by (bit_vector)
        requires
            wosize <= 0x3f_ffff_ffff_ffffu64,
            tag as u64 <= 0xffu64,
    ;
    assert((((wosize << 10u64) | (tag as u64)) & 0xffu64) == tag as u64) by (bit_vector)
        requires
            tag as u64 <= 0xffu64,
    ;
    h
}

/// Size in words recorded by a header.
pub fn wosize_of_header(h: u64) -> (r: u64)
    ensures
        r == header_wosize(h),
{
    h >> 10u64
}

/// Tag recorded by a header.
pub fn tag_of_header(h: u64) -> (r: u8)
    ensures
        r == header_tag(h),
{
    (h & 0xffu64) as u8
}

} // verus!
