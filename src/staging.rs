//! Allocation tokens and staged results.
//!
//! Any operation that may allocate in the host heap consumes a `GCtoken` and
//! returns a raw `GCResult1`, which offers nothing but `mark`. Marking, with
//! no allocation in between, gives a `GCResult2`, which alone can be read as
//! a typed value.
use vstd::prelude::*;
use core::marker::PhantomData;
use crate::layout::{RawValue, VAL_UNIT, NO_SCAN_TAG};
use crate::gc::{Gc, MAX_STRING_LEN, block_word};
use crate::value::{Val, Pair, MlOption, MlString, MlBytes, Bigstring};

verus! {

/// The caller's acknowledgement that a call may allocate, and so may
/// invalidate every value that is not rooted.
pub struct GCtoken {
}

/// A freshly produced word, not yet safe to read.
pub struct GCResult1<T> {
    raw: RawValue,
    epoch: Ghost<nat>,
    marker: PhantomData<T>,
}

/// A produced word marked against the current scope.
pub struct GCResult2<T> {
    raw: RawValue,
    epoch: Ghost<nat>,
    marker: PhantomData<T>,
}

impl<T> GCResult1<T> {
    /// The word produced.
    pub closed spec fn word(&self) -> RawValue {
        self.raw
    }

    /// The heap epoch right after the word was produced.
    pub closed spec fn at_epoch(&self) -> nat {
        self.epoch@
    }

    /// Stages `raw`, a live word just produced in `gc`.
    pub fn of(raw: RawValue, gc: &Gc) -> (r: GCResult1<T>)
        requires
            gc.live(raw),
        ensures
            r.word() == raw,
            r.at_epoch() == gc.epoch@,
    {
        GCResult1 { raw, epoch: Ghost(gc.epoch@), marker: PhantomData }
    }

    /// Marks the result against the scope; nothing may have allocated since
    /// it was produced.
    pub fn mark(self, gc: &mut Gc) -> (r: GCResult2<T>)
        requires
            self.at_epoch() == old(gc).epoch@,
        ensures
            *final(gc) == *old(gc),
            r.word() == self.word(),
            r.at_epoch() == self.at_epoch(),
    {
        GCResult2 { raw: self.raw, epoch: self.epoch, marker: PhantomData }
    }
}

impl<T> GCResult2<T> {
    /// The word produced.
    pub closed spec fn word(&self) -> RawValue {
        self.raw
    }

    /// The heap epoch at which the word was marked.
    pub closed spec fn at_epoch(&self) -> nat {
        self.epoch@
    }

    /// Reads the marked result as a typed value of the current epoch.
    pub fn eval(self, gc: &Gc) -> (r: Val<T>)
        requires
            self.at_epoch() == gc.epoch@,
            gc.live(self.word()),
        ensures
            r.word() == self.word(),
            r.epoch() == gc.epoch@,
            r.fresh_in(gc),
    {
        Val::new(gc, self.raw)
    }
}

/// Common postcondition of an allocation that produced `r`.
pub open spec fn allocated<T>(old: Gc, new: Gc, r: GCResult1<T>) -> bool {
    &&& new.grown_from(old)
    &&& new.wf()
    &&& r.at_epoch() == new.epoch@
    &&& r.word() == block_word(old.nblocks() as int)
    &&& new.is_live_block(r.word())
}

/// Allocates the pair `(a, b)` as a block of `tag`.
pub fn alloc_caml_pair<A, B>(_token: GCtoken, gc: &mut Gc, tag: u8, a: Val<A>, b: Val<B>) -> (r: GCResult1<Pair<A, B>>)
    requires
        old(gc).wf(),
        old(gc).has_room(),
        tag < NO_SCAN_TAG,
        a.fresh_in(old(gc)),
        b.fresh_in(old(gc)),
    ensures
        allocated(*old(gc), *final(gc), r),
        final(gc).is_scannable(r.word(), 2),
        final(gc).tag_at(r.word()) == tag,
        final(gc).wosize_at(r.word()) == 2,
        final(gc).field_at(r.word(), 0) == a.word(),
        final(gc).field_at(r.word(), 1) == b.word(),
{
    let w = gc.caml_alloc_pair(tag, a.eval(), b.eval());
    GCResult1::of(w, gc)
}

/// The empty option; allocates nothing.
pub fn none<A>(_token: GCtoken, gc: &Gc) -> (r: GCResult1<MlOption<A>>)
    ensures
        r.word() == VAL_UNIT,
        r.at_epoch() == gc.epoch@,
{
    GCResult1::of(VAL_UNIT, gc)
}

/// Allocates `Some(a)`: a one-word block of tag 0.
pub fn alloc_caml_some<A>(_token: GCtoken, gc: &mut Gc, a: Val<A>) -> (r: GCResult1<MlOption<A>>)
    requires
        old(gc).wf(),
        old(gc).has_room(),
        a.fresh_in(old(gc)),
    ensures
        allocated(*old(gc), *final(gc), r),
        final(gc).is_scannable(r.word(), 1),
        final(gc).tag_at(r.word()) == 0,
        final(gc).wosize_at(r.word()) == 1,
        final(gc).field_at(r.word(), 0) == a.word(),
{
    let w = gc.caml_alloc_cell(0, a.eval());
    GCResult1::of(w, gc)
}

/// A vector of `len` zero bytes.
fn zeroes(len: usize) -> (r: Vec<u8>)
    ensures
        r@ == Seq::new(len as nat, |i: int| 0u8),
{
    let mut r: Vec<u8> = Vec::new();
    let mut i: usize = 0;
    while i < len
        invariant
            i <= len,
            r@ == Seq::new(i as nat, |k: int| 0u8),
        decreases len - i,
    {
        r.push(0);
        i = i + 1;
        assert(r@ =~= Seq::new(i as nat, |k: int| 0u8));
    }
    r
}

/// Allocates a string block of `len` zero bytes.
pub fn alloc_blank_caml_string(_token: GCtoken, gc: &mut Gc, len: usize) -> (r: GCResult1<MlString>)
    requires
        old(gc).wf(),
        old(gc).has_room(),
        len <= MAX_STRING_LEN,
    ensures
        allocated(*old(gc), *final(gc), r),
        final(gc).is_string(r.word()),
        final(gc).bytes_at(r.word()) == Seq::new(len as nat, |i: int| 0u8),
{
    let z = zeroes(len);
    let w = gc.caml_alloc_initialized_string(z.as_slice());
    GCResult1::of(w, gc)
}

/// Allocates a string block holding a copy of `s`.
pub fn alloc_caml_string(_token: GCtoken, gc: &mut Gc, s: &[u8]) -> (r: GCResult1<MlString>)
    requires
        old(gc).wf(),
        old(gc).has_room(),
        s@.len() <= MAX_STRING_LEN,
    ensures
        allocated(*old(gc), *final(gc), r),
        final(gc).is_string(r.word()),
        final(gc).bytes_at(r.word()) == s@,
{
    let w = gc.caml_alloc_initialized_string(s);
    GCResult1::of(w, gc)
}

/// Allocates a byte-string block of `len` zero bytes.
pub fn alloc_blank_caml_bytes(_token: GCtoken, gc: &mut Gc, len: usize) -> (r: GCResult1<MlBytes>)
    requires
        old(gc).wf(),
        old(gc).has_room(),
        len <= MAX_STRING_LEN,
    ensures
        allocated(*old(gc), *final(gc), r),
        final(gc).is_string(r.word()),
        final(gc).bytes_at(r.word()) == Seq::new(len as nat, |i: int| 0u8),
{
    let z = zeroes(len);
    let w = gc.caml_alloc_initialized_string(z.as_slice());
    GCResult1::of(w, gc)
}

/// Allocates a byte-string block holding a copy of `s`.
pub fn alloc_caml_bytes(_token: GCtoken, gc: &mut Gc, s: Vec<u8>) -> (r: GCResult1<MlBytes>)
    requires
        old(gc).wf(),
        old(gc).has_room(),
        s@.len() <= MAX_STRING_LEN,
    ensures
        allocated(*old(gc), *final(gc), r),
        final(gc).is_string(r.word()),
        final(gc).bytes_at(r.word()) == s@,
{
    let w = gc.caml_alloc_initialized_string(s.as_slice());
    GCResult1::of(w, gc)
}

/// Allocates an externally-backed byte buffer over a copy of `v`.
pub fn alloc_caml_bigstring(_token: GCtoken, gc: &mut Gc, v: &[u8]) -> (r: GCResult1<Bigstring>)
    requires
        old(gc).wf(),
        old(gc).has_room(),
        v@.len() <= MAX_STRING_LEN,
    ensures
        allocated(*old(gc), *final(gc), r),
        final(gc).is_bigstring(r.word()),
        final(gc).field_at(r.word(), 1) == v@.len(),
        final(gc).bytes_at(r.word()) == v@,
{
    let w = gc.caml_ba_alloc(v);
    GCResult1::of(w, gc)
}

/// Allocates a boxed 64-bit integer holding `v`.
pub fn alloc_caml_int64(_token: GCtoken, gc: &mut Gc, v: i64) -> (r: GCResult1<i64>)
    requires
        old(gc).wf(),
        old(gc).has_room(),
    ensures
        allocated(*old(gc), *final(gc), r),
        final(gc).is_boxed_int64(r.word()),
        final(gc).field_at(r.word(), 1) == v,
{
    let w = gc.caml_copy_int64(v);
    GCResult1::of(w, gc)
}

} // verus!
