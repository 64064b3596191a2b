//! Typed views over raw words, rooted variables and staged allocation results.
//!
//! A `Val<T>` is a raw word read at a known epoch of the heap, tagged at the
//! type level with the host type `T` it is taken to have. Reading a block
//! through it requires that no allocation has happened since that epoch.
use vstd::prelude::*;
use core::marker::PhantomData;
use vstd::utf8::{valid_utf8, decode_utf8};
use crate::layout::{
    RawValue, is_block_word, low_byte, encode_int, decode_int, ml_int_in_range, ml_wrap, wrap_i64, Is_block,
    ML_INT_MIN, ML_INT_MAX,
};
use crate::gc::{Gc, INT64_OPS, BIGARRAY_OPS};

verus! {

/// Host `int`: 63-bit integers carried as immediates.
pub struct OCamlInt {
    _p: (),
}

/// Host `string`: immutable UTF-8 text in a string block.
pub struct MlString {
    _p: (),
}

/// Host `bytes`: a byte string in a string block.
pub struct MlBytes {
    _p: (),
}

/// Host byte buffer backed by memory outside the heap.
pub struct Bigstring {
    _p: (),
}

/// Host pair `A * B`.
pub struct Pair<A, B> {
    _a: PhantomData<A>,
    _b: PhantomData<B>,
}

/// Host `A list`.
pub struct List<A> {
    _a: PhantomData<A>,
}

/// Host `A option`.
pub struct MlOption<A> {
    _a: PhantomData<A>,
}

/// The host type variable `'a`.
pub struct AA {
    _p: (),
}

/// The host type variable `'b`.
pub struct BB {
    _p: (),
}

/// A raw word viewed as a value of host type `T`, read at a heap epoch.
///
/// Only the operations of this crate make one, so the epoch it carries is
/// the one at which the word was last confirmed live.
pub struct Val<T> {
    raw: RawValue,
    epoch: Ghost<nat>,
    marker: PhantomData<T>,
}

impl<T> Clone for Val<T> {
    fn clone(&self) -> (r: Self)
        ensures
            r == *self,
    {
        Val { raw: self.raw, epoch: self.epoch, marker: PhantomData }
    }
}

impl<T> Copy for Val<T> {
}

impl<T> Val<T> {
    /// The raw word.
    pub closed spec fn word(&self) -> RawValue {
        self.raw
    }

    /// The heap epoch at which the word was read.
    pub closed spec fn epoch(&self) -> nat {
        self.epoch@
    }

    /// Safe to read in `gc`: an immediate, or a block of `gc` read since
    /// the last allocation.
    pub open spec fn fresh_in(&self, gc: &Gc) -> bool {
        gc.live(self.word()) && (is_block_word(self.word()) ==> self.epoch() == gc.epoch@)
    }

    /// Views `x`, a live word that the caller holds at the current epoch of
    /// `gc` (an argument the host handed over for this call), as a value of
    /// type `T`. A word read before the last allocation must be re-read
    /// through a `Var` instead.
    pub fn new(gc: &Gc, x: RawValue) -> (r: Val<T>)
        requires
            gc.live(x),
        ensures
            r.word() == x,
            r.epoch() == gc.epoch@,
            r.fresh_in(gc),
    {
        Val { raw: x, epoch: Ghost(gc.epoch@), marker: PhantomData }
    }

    /// The raw word.
    pub fn eval(self) -> (r: RawValue)
        ensures
            r == self.word(),
    {
        self.raw
    }

    /// Protects this value in a root slot of the head table.
    pub fn var(self, gc: &mut Gc) -> (r: Var<T>)
        requires
            old(gc).wf(),
            self.fresh_in(old(gc)),
            old(gc).claim_error() is None,
        ensures
            final(gc).wf(),
            final(gc).same_heap(*old(gc)),
            final(gc).table_starts@ == old(gc).table_starts@,
            r.slot_of() == old(gc).slots@.len(),
            final(gc).slots@ == old(gc).slots@.push(self.word()),
    {
        Var::new(gc, self)
    }

    /// Word `i` of this scannable block, viewed as a value of type `F`.
    pub fn field<F>(self, gc: &Gc, i: u64) -> (r: Val<F>)
        requires
            gc.wf(),
            self.fresh_in(gc),
            gc.is_scannable(self.word(), i + 1),
        ensures
            r.word() == gc.field_at(self.word(), i as int),
            r.epoch() == gc.epoch@,
            r.fresh_in(gc),
    {
        Val { raw: gc.read_field(self.raw, i), epoch: Ghost(gc.epoch@), marker: PhantomData }
    }

    /// Block-ness test.
    pub fn is_block(self) -> (r: bool)
        ensures
            r == is_block_word(self.word()),
    {
        Is_block(self.raw)
    }
}

/// A host list, split into its two cases.
pub enum CList<A> {
    Nil,
    Cons { x: Val<A>, xs: Val<List<A>> },
}

impl<A> Val<List<A>> {
    /// The empty list is an immediate; a non-empty one a cell of head and tail.
    pub open spec fn list_shaped(&self, gc: &Gc) -> bool {
        is_block_word(self.word()) ==> gc.is_scannable(self.word(), 2)
    }

    /// Splits the list into `Nil` or `Cons` of its head and tail.
    pub fn as_list(self, gc: &Gc) -> (r: CList<A>)
        requires
            gc.wf(),
            self.fresh_in(gc),
            self.list_shaped(gc),
        ensures
            !is_block_word(self.word()) ==> r is Nil,
            is_block_word(self.word()) ==> (r matches CList::Cons { x, xs }
                && x.word() == gc.field_at(self.word(), 0) && xs.word() == gc.field_at(self.word(), 1)
                && x.fresh_in(gc) && xs.fresh_in(gc)),
    {
        if self.is_block() {
            CList::Cons { x: self.field(gc, 0), xs: self.field(gc, 1) }
        } else {
            CList::Nil
        }
    }
}

impl<A> Val<MlOption<A>> {
    /// `None` is an immediate; `Some(v)` a one-word block holding `v`.
    pub open spec fn option_shaped(&self, gc: &Gc) -> bool {
        is_block_word(self.word()) ==> gc.is_scannable(self.word(), 1)
    }

    /// The content of a `Some`, or `None`.
    pub fn as_option(self, gc: &Gc) -> (r: Option<Val<A>>)
        requires
            gc.wf(),
            self.fresh_in(gc),
            self.option_shaped(gc),
        ensures
            !is_block_word(self.word()) ==> r is None,
            is_block_word(self.word()) ==> (r matches Some(v) && v.word() == gc.field_at(self.word(), 0)
                && v.fresh_in(gc)),
    {
        if self.is_block() {
            Some(self.field(gc, 0))
        } else {
            None
        }
    }
}

impl<A, B> Val<Pair<A, B>> {
    /// Word 0 of the pair.
    pub fn fst(self, gc: &Gc) -> (r: Val<A>)
        requires
            gc.wf(),
            self.fresh_in(gc),
            gc.is_scannable(self.word(), 2),
        ensures
            r.word() == gc.field_at(self.word(), 0),
            r.fresh_in(gc),
    {
        self.field(gc, 0)
    }

    /// Word 1 of the pair.
    pub fn snd(self, gc: &Gc) -> (r: Val<B>)
        requires
            gc.wf(),
            self.fresh_in(gc),
            gc.is_scannable(self.word(), 2),
        ensures
            r.word() == gc.field_at(self.word(), 1),
            r.fresh_in(gc),
    {
        self.field(gc, 1)
    }
}

/// Decodes valid UTF-8 bytes into text; `None` for any other bytes.
pub fn utf8_text(b: &[u8]) -> (r: Option<String>)
    ensures
        r is Some <==> valid_utf8(b@),
        r matches Some(s) ==> s@ == decode_utf8(b@),
{
    decode_utf8_bytes(b)
}

/// Relies on `String::from_utf8`: it succeeds exactly on well-formed UTF-8
/// and then holds the characters those bytes encode.
#[verifier::external_body]
fn decode_utf8_bytes(b: &[u8]) -> (r: Option<String>)
    ensures
        r is Some <==> valid_utf8(b@),
        r matches Some(s) ==> s@ == decode_utf8(b@),
{
    String::from_utf8(b.to_vec()).ok()
}

impl Val<MlBytes> {
    /// The bytes of this string block, bounded by its recorded length.
    pub fn as_bytes<'a>(self, gc: &'a Gc) -> (r: &'a [u8])
        requires
            self.fresh_in(gc),
            gc.is_string(self.word()),
        ensures
            r@ == gc.bytes_at(self.word()),
    {
        gc.block_bytes(self.raw)
    }

    /// The text of this string block, which must hold valid UTF-8.
    pub fn as_str(self, gc: &Gc) -> (r: String)
        requires
            self.fresh_in(gc),
            gc.is_string(self.word()),
            valid_utf8(gc.bytes_at(self.word())),
        ensures
            r@ == decode_utf8(gc.bytes_at(self.word())),
    {
        match utf8_text(self.as_bytes(gc)) {
            Some(s) => s,
            None => {
                proof {
                    assert(false);
                }
                String::new()
            },
        }
    }
}

impl Val<MlString> {
    /// The bytes of this string block, bounded by its recorded length.
    pub fn as_bytes<'a>(self, gc: &'a Gc) -> (r: &'a [u8])
        requires
            self.fresh_in(gc),
            gc.is_string(self.word()),
        ensures
            r@ == gc.bytes_at(self.word()),
    {
        gc.block_bytes(self.raw)
    }

    /// The text of this string block, which must hold valid UTF-8.
    pub fn as_str(self, gc: &Gc) -> (r: String)
        requires
            self.fresh_in(gc),
            gc.is_string(self.word()),
            valid_utf8(gc.bytes_at(self.word())),
        ensures
            r@ == decode_utf8(gc.bytes_at(self.word())),
    {
        match utf8_text(self.as_bytes(gc)) {
            Some(s) => s,
            None => {
                proof {
                    assert(false);
                }
                String::new()
            },
        }
    }
}

impl Gc {
    /// A live externally-backed byte buffer.
    pub open spec fn is_bigstring(&self, x: i64) -> bool {
        self.is_custom(x) && self.field_at(x, 0) == BIGARRAY_OPS
    }

    /// A live boxed 64-bit integer.
    pub open spec fn is_boxed_int64(&self, x: i64) -> bool {
        self.is_custom(x) && self.field_at(x, 0) == INT64_OPS
    }
}

impl Val<Bigstring> {
    /// The bytes of this buffer, bounded by its declared length.
    pub fn as_slice<'a>(self, gc: &'a Gc) -> (r: &'a [u8])
        requires
            gc.wf(),
            self.fresh_in(gc),
            gc.is_bigstring(self.word()),
        ensures
            r@ == gc.bytes_at(self.word()),
            r@.len() == gc.field_at(self.word(), 1),
    {
        assert(gc.blocks@[self.raw / 2].wf(gc.nblocks()));
        gc.block_bytes(self.raw)
    }
}

impl Val<char> {
    /// The character carried by this immediate: the low byte of its payload.
    pub fn as_char(self) -> (r: char)
        requires
            !is_block_word(self.word()),
        ensures
            r as u32 == low_byte(decode_int(self.word() as int)) as u32,
    {
        let s: i64 = (self.raw - 1) / 2;
        (s as u8) as char
    }
}

impl Val<i64> {
    /// The payload of this boxed 64-bit integer.
    pub fn as_i64(self, gc: &Gc) -> (r: i64)
        requires
            gc.wf(),
            self.fresh_in(gc),
            gc.is_custom(self.word()),
        ensures
            r == gc.field_at(self.word(), 1),
    {
        gc.read_custom_word(self.raw, 1)
    }
}

impl Val<OCamlInt> {
    /// The integer carried by this immediate.
    pub fn as_int(self) -> (r: i64)
        requires
            !is_block_word(self.word()),
        ensures
            r == decode_int(self.word() as int),
            ml_int_in_range(r as int),
    {
        (self.raw - 1) / 2
    }
}

/// The immediate carrying `n`; a host integer has 63 bits, so `n` is first
/// wrapped into that range (its top bit is lost).
pub fn of_int(n: i64) -> (r: Val<OCamlInt>)
    ensures
        r.word() == encode_int(ml_wrap(n as int)),
        r.word() as int == wrap_i64(2 * (n as int) + 1),
        !is_block_word(r.word()),
{
    let m: i64 = if n > ML_INT_MAX {
        n - 0x4000_0000_0000_0000 - 0x4000_0000_0000_0000
    } else if n < ML_INT_MIN {
        n + 0x4000_0000_0000_0000 + 0x4000_0000_0000_0000
    } else {
        n
    };
    Val { raw: m * 2 + 1, epoch: Ghost(0), marker: PhantomData }
}

/// The immediate carrying the code point of `c`.
pub fn of_char(c: char) -> (r: Val<char>)
    ensures
        r.word() == encode_int(c as u32 as int),
        !is_block_word(r.word()),
{
    let n: i64 = (c as u32) as i64;
    Val { raw: n * 2 + 1, epoch: Ghost(0), marker: PhantomData }
}

/// A value protected in a root slot across allocations.
pub struct Var<T> {
    slot: usize,
    marker: PhantomData<T>,
}

impl<T> Var<T> {
    /// Position of this variable's slot in the root stack.
    pub closed spec fn slot_of(&self) -> int {
        self.slot as int
    }

    /// Position of this variable's slot in the root stack.
    pub fn slot(&self) -> (r: usize)
        ensures
            r == self.slot_of(),
    {
        self.slot
    }

    /// This variable's slot is still registered in `gc`.
    pub open spec fn held_in(&self, gc: &Gc) -> bool {
        0 <= self.slot_of() < gc.slots@.len()
    }

    /// Registers `x` in the next free slot of the head table.
    pub fn new(gc: &mut Gc, x: Val<T>) -> (r: Var<T>)
        requires
            old(gc).wf(),
            x.fresh_in(old(gc)),
            old(gc).claim_error() is None,
        ensures
            final(gc).wf(),
            final(gc).same_heap(*old(gc)),
            final(gc).table_starts@ == old(gc).table_starts@,
            r.slot_of() == old(gc).slots@.len(),
            final(gc).slots@ == old(gc).slots@.push(x.word()),
    {
        let slot = gc.alloc_gc_cell(x.eval());
        Var { slot, marker: PhantomData }
    }

    /// Overwrites the slot with `x`.
    pub fn set(&mut self, gc: &mut Gc, x: Val<T>)
        requires
            old(gc).wf(),
            old(self).held_in(old(gc)),
            x.fresh_in(old(gc)),
        ensures
            final(gc).wf(),
            final(gc).same_heap(*old(gc)),
            final(gc).table_starts@ == old(gc).table_starts@,
            final(gc).slots@ == old(gc).slots@.update(old(self).slot_of(), x.word()),
            *final(self) == *old(self),
    {
        gc.root_set(self.slot, x.eval());
    }

    /// Re-reads the slot: a view valid at the current epoch.
    pub fn get(&self, gc: &Gc) -> (r: Val<T>)
        requires
            gc.wf(),
            self.held_in(gc),
        ensures
            r.word() == gc.slots@[self.slot_of()],
            r.epoch() == gc.epoch@,
            r.fresh_in(gc),
    {
        Val { raw: gc.root_get(self.slot), epoch: Ghost(gc.epoch@), marker: PhantomData }
    }

    /// Frees the slot, which must be the top slot of the head table.
    pub fn release(self, gc: &mut Gc)
        requires
            old(gc).wf(),
            old(gc).is_top_slot(self.slot_of() as nat),
        ensures
            final(gc).wf(),
            final(gc).same_heap(*old(gc)),
            final(gc).table_starts@ == old(gc).table_starts@,
            final(gc).slots@ == old(gc).slots@.drop_last(),
    {
        gc.free_gc_cell(self.slot)
    }
}

} // verus!
