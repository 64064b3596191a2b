//! The host heap and its root-registration stack.
//!
//! `Gc` stands for the state the host runtime shares with native code: the
//! blocks of its heap and the chain of root tables its collector walks. Every
//! allocation advances a ghost epoch; a value read before an allocation and
//! not rooted is stale once the epoch has moved on.
use vstd::prelude::*;
use crate::layout::{
    RawValue, is_block_word, header_wosize, header_tag, string_wosize, make_header,
    wosize_of_header, tag_of_header, NO_SCAN_TAG, STRING_TAG, CUSTOM_TAG, MAX_WOSIZE,
};

verus! {

/// Number of slots in a root table.
pub const LOCALS_BLOCK_SIZE: usize = 8;

/// Upper bound on the number of blocks, so that every block word fits.
pub const MAX_BLOCKS: usize = 0x4000_0000;

/// Largest byte length of a string block.
pub const MAX_STRING_LEN: usize = 0x4000_0000;

/// Identifier stored in the first word of a boxed 64-bit integer.
pub const INT64_OPS: i64 = 1;

/// Identifier stored in the first word of an externally-backed byte buffer.
pub const BIGARRAY_OPS: i64 = 2;

/// A heap block: its header, its words and, for opaque blocks, its bytes.
pub struct Block {
    pub header: u64,
    pub fields: Vec<i64>,
    pub bytes: Vec<u8>,
}

/// The block word that designates the block at `index`.
pub open spec fn block_word(index: int) -> int {
    2 * index
}

/// A word is live in a heap of `n` blocks when it is an immediate or
/// designates one of its blocks.
pub open spec fn word_live(w: i64, n: nat) -> bool {
    !is_block_word(w) || (0 <= w && w / 2 < n)
}

impl Block {
    pub open spec fn tag(&self) -> u8 {
        header_tag(self.header)
    }

    pub open spec fn wosize(&self) -> u64 {
        header_wosize(self.header)
    }

    /// Layout invariant of a block in a heap of `n` blocks.
    pub open spec fn wf(&self, n: nat) -> bool {
        self.bytes@.len() <= MAX_STRING_LEN && if self.tag() < NO_SCAN_TAG {
            &&& self.fields@.len() == self.wosize()
            &&& self.bytes@.len() == 0
            &&& forall|j: int| 0 <= j < self.fields@.len() ==> word_live(#[trigger] self.fields@[j], n)
        } else if self.tag() == STRING_TAG {
            &&& self.wosize() == string_wosize(self.bytes@.len())
            &&& self.fields@.len() == 0
        } else if self.tag() == CUSTOM_TAG {
            &&& self.fields@.len() == self.wosize()
            &&& self.fields@.len() >= 2
            &&& self.fields@[0] == BIGARRAY_OPS ==> self.fields@[1] == self.bytes@.len()
        } else {
            false
        }
    }
}

/// The bridge state: the host heap and the root-table chain.
///
/// The root slots of all tables form one stack; `table_starts[k]` is the
/// first slot of table `k`, and the last table is the chain head.
pub struct Gc {
    pub blocks: Vec<Block>,
    pub slots: Vec<i64>,
    pub table_starts: Vec<usize>,
    pub epoch: Ghost<nat>,
}

/// A handle on an open scope: the depth of its root table in the chain.
pub struct Scope {
    pub depth: usize,
}

/// Violations of the root bookkeeping discipline.
#[derive(Debug, PartialEq, Eq, Structural, Clone, Copy)]
pub enum RootError {
    /// No scope is open, so there is no table to register a root in.
    NoScope,
    /// The head table has no free slot.
    CapacityExceeded,
    /// A release that is not of the top slot of the head table.
    NotStackTop,
    /// A scope closed while it is not the chain head.
    NotChainHead,
    /// A scope closed while roots registered in it are still held.
    RootsStillHeld,
}

impl Gc {
    pub open spec fn nblocks(&self) -> nat {
        self.blocks@.len()
    }

    /// A word that is an immediate or designates a block of this heap.
    pub open spec fn live(&self, x: i64) -> bool {
        word_live(x, self.nblocks())
    }

    /// A word that designates a block of this heap.
    pub open spec fn is_live_block(&self, x: i64) -> bool {
        is_block_word(x) && 0 <= x && x / 2 < self.nblocks()
    }

    /// The block designated by `x`.
    pub open spec fn block_at(&self, x: i64) -> Block {
        self.blocks@[x / 2]
    }

    pub open spec fn tag_at(&self, x: i64) -> u8 {
        self.block_at(x).tag()
    }

    pub open spec fn wosize_at(&self, x: i64) -> u64 {
        self.block_at(x).wosize()
    }

    pub open spec fn field_at(&self, x: i64, i: int) -> i64 {
        self.block_at(x).fields@[i]
    }

    pub open spec fn bytes_at(&self, x: i64) -> Seq<u8> {
        self.block_at(x).bytes@
    }

    /// A live block of scannable layout with at least `n` fields.
    pub open spec fn is_scannable(&self, x: i64, n: int) -> bool {
        self.is_live_block(x) && self.tag_at(x) < NO_SCAN_TAG && n <= self.wosize_at(x)
    }

    /// A live string block.
    pub open spec fn is_string(&self, x: i64) -> bool {
        self.is_live_block(x) && self.tag_at(x) == STRING_TAG
    }

    /// A live custom block.
    pub open spec fn is_custom(&self, x: i64) -> bool {
        self.is_live_block(x) && self.tag_at(x) == CUSTOM_TAG
    }

    /// Number of open scopes.
    pub open spec fn depth(&self) -> nat {
        self.table_starts@.len()
    }

    /// Number of occupied slots in the chain head.
    pub open spec fn head_count(&self) -> int {
        self.slots@.len() - self.table_starts@.last()
    }

    /// One past the last slot of table `k`.
    pub open spec fn table_end(&self, k: int) -> int {
        if k + 1 < self.table_starts@.len() {
            self.table_starts@[k + 1] as int
        } else {
            self.slots@.len() as int
        }
    }

    pub open spec fn wf(&self) -> bool {
        &&& self.blocks@.len() <= MAX_BLOCKS
        &&& forall|i: int| 0 <= i < self.blocks@.len() ==> (#[trigger] self.blocks@[i]).wf(self.nblocks())
        &&& forall|k: int| 0 <= k < self.slots@.len() ==> self.live(#[trigger] self.slots@[k])
        &&& forall|k: int| 0 <= k < self.table_starts@.len() ==>
                #[trigger] self.table_starts@[k] <= self.table_end(k) <= self.table_starts@[k] + LOCALS_BLOCK_SIZE
        &&& self.table_starts@.len() > 0 ==> self.table_starts@[0] == 0
        &&& self.table_starts@.len() == 0 ==> self.slots@.len() == 0
    }

    /// `self` is `old` with one block appended by an allocation, the roots
    /// unchanged and the epoch advanced.
    pub open spec fn grown_from(&self, old: Gc) -> bool {
        &&& self.blocks@.len() == old.blocks@.len() + 1
        &&& forall|i: int| 0 <= i < old.blocks@.len() ==> self.blocks@[i] == old.blocks@[i]
        &&& self.slots@ == old.slots@
        &&& self.table_starts@ == old.table_starts@
        &&& self.epoch@ == old.epoch@ + 1
    }

    /// Room for one more block.
    pub open spec fn has_room(&self) -> bool {
        self.blocks@.len() < MAX_BLOCKS
    }

    /// A heap with no blocks and no open scope.
    pub fn new() -> (r: Gc)
        ensures
            r.wf(),
            r.nblocks() == 0,
            r.depth() == 0,
            r.slots@.len() == 0,
    {
        Gc { blocks: Vec::new(), slots: Vec::new(), table_starts: Vec::new(), epoch: Ghost(0) }
    }
}


/// A fresh vector holding `s[from..to]`.
pub fn copy_range(s: &[u8], from: usize, to: usize) -> (r: Vec<u8>)
    requires
        from <= to <= s@.len(),
    ensures
        r@ == s@.subrange(from as int, to as int),
{
    let mut r: Vec<u8> = Vec::new();
    let mut i: usize = from;
    while i < to
        invariant
            from <= i <= to,
            to <= s@.len(),
            r@ == s@.subrange(from as int, i as int),
        decreases to - i,
    {
        r.push(s[i]);
        i = i + 1;
        assert(r@ =~= s@.subrange(from as int, i as int));
    }
    r
}

/// A block that is well formed in a heap stays so when the heap grows.
proof fn lemma_block_wf_grow(b: Block, n: nat, m: nat)
    requires
        b.wf(n),
        n <= m,
    ensures
        b.wf(m),
{
    if b.tag() < NO_SCAN_TAG {
        assert forall|j: int| 0 <= j < b.fields@.len() implies word_live(#[trigger] b.fields@[j], m) by {
            assert(word_live(b.fields@[j], n));
        }
    }
}

/// Appending a well-formed block to a well-formed heap keeps it well formed.
proof fn lemma_grow_wf(old: Gc, new: Gc)
    requires
        old.wf(),
        old.has_room(),
        new.grown_from(old),
        new.blocks@[old.blocks@.len() as int].wf(new.nblocks()),
    ensures
        new.wf(),
{
    assert forall|i: int| 0 <= i < new.blocks@.len() implies (#[trigger] new.blocks@[i]).wf(new.nblocks()) by {
        if i < old.blocks@.len() {
            assert(old.blocks@[i].wf(old.nblocks()));
            lemma_block_wf_grow(old.blocks@[i], old.nblocks(), new.nblocks());
        }
    }
    assert forall|k: int| 0 <= k < new.slots@.len() implies new.live(#[trigger] new.slots@[k]) by {
        assert(old.live(old.slots@[k]));
    }
    assert forall|k: int| 0 <= k < new.table_starts@.len() implies
        #[trigger] new.table_starts@[k] <= new.table_end(k) <= new.table_starts@[k] + LOCALS_BLOCK_SIZE by {
        assert(old.table_starts@[k] <= old.table_end(k));
    }
}

#[allow(non_snake_case)]
/// The header of the block designated by `x`.
pub fn Hd_val(gc: &Gc, x: RawValue) -> (r: u64)
    requires
        gc.is_live_block(x),
    ensures
        r == gc.block_at(x).header,
{
    gc.blocks[gc.block_index(x)].header
}

#[allow(non_snake_case)]
/// The size in words of the block designated by `x`.
pub fn Wosize_val(gc: &Gc, x: RawValue) -> (r: u64)
    requires
        gc.is_live_block(x),
    ensures
        r == gc.wosize_at(x),
{
    wosize_of_header(Hd_val(gc, x))
}

#[allow(non_snake_case)]
/// The tag of the block designated by `x`.
pub fn Tag_val(gc: &Gc, x: RawValue) -> (r: u8)
    requires
        gc.is_live_block(x),
    ensures
        r == gc.tag_at(x),
{
    tag_of_header(Hd_val(gc, x))
}

impl Gc {
    /// Position in `blocks` of the block designated by `x`.
    pub fn block_index(&self, x: RawValue) -> (r: usize)
        requires
            self.is_live_block(x),
        ensures
            r as int == x / 2,
            r < self.blocks@.len(),
    {
        let n = self.blocks.len();
        assert(x / 2 < n);
        (x / 2) as usize
    }

    /// Word `i` of the scannable block designated by `x`.
    pub fn read_field(&self, x: RawValue, i: u64) -> (r: RawValue)
        requires
            self.wf(),
            self.is_scannable(x, i + 1),
        ensures
            r == self.field_at(x, i as int),
            self.live(r),
    {
        let b = &self.blocks[self.block_index(x)];
        assert(self.blocks@[x / 2].wf(self.nblocks()));
        let len = b.fields.len();
        assert(i < len);
        let r = b.fields[i as usize];
        assert(word_live(b.fields@[i as int], self.nblocks()));
        r
    }

    /// Word `i` of the custom block designated by `x`.
    pub fn read_custom_word(&self, x: RawValue, i: usize) -> (r: RawValue)
        requires
            self.wf(),
            self.is_custom(x),
            i < 2,
        ensures
            r == self.field_at(x, i as int),
    {
        assert(self.blocks@[x / 2].wf(self.nblocks()));
        self.blocks[self.block_index(x)].fields[i]
    }

    /// The bytes of the opaque block designated by `x`.
    pub fn block_bytes(&self, x: RawValue) -> (r: &[u8])
        requires
            self.is_live_block(x),
        ensures
            r@ == self.bytes_at(x),
    {
        self.blocks[self.block_index(x)].bytes.as_slice()
    }

    /// Byte length of the string block designated by `x`.
    pub fn caml_string_length(&self, x: RawValue) -> (r: usize)
        requires
            self.is_string(x),
        ensures
            r == self.bytes_at(x).len(),
    {
        self.blocks[self.block_index(x)].bytes.len()
    }

    /// Appends `b` to the heap and returns its word.
    fn push_block(&mut self, b: Block) -> (r: RawValue)
        requires
            old(self).wf(),
            old(self).has_room(),
            b.wf(old(self).nblocks() + 1),
        ensures
            final(self).grown_from(*old(self)),
            final(self).wf(),
            r == block_word(old(self).nblocks() as int),
            final(self).is_live_block(r),
            final(self).block_at(r) == b,
    {
        let n = self.blocks.len();
        self.blocks.push(b);
        self.epoch = Ghost(self.epoch@ + 1);
        proof {
            lemma_grow_wf(*old(self), *self);
        }
        (n as i64) * 2
    }

    /// Allocates a block of `tag` with the two words `a` and `b`.
    pub fn caml_alloc_pair(&mut self, tag: u8, a: RawValue, b: RawValue) -> (r: RawValue)
        requires
            old(self).wf(),
            old(self).has_room(),
            tag < NO_SCAN_TAG,
            old(self).live(a),
            old(self).live(b),
        ensures
            final(self).grown_from(*old(self)),
            final(self).wf(),
            r == block_word(old(self).nblocks() as int),
            final(self).is_scannable(r, 2),
            final(self).tag_at(r) == tag,
            final(self).wosize_at(r) == 2,
            final(self).field_at(r, 0) == a,
            final(self).field_at(r, 1) == b,
    {
        let mut fields: Vec<i64> = Vec::new();
        fields.push(a);
        fields.push(b);
        let blk = Block { header: make_header(2, tag), fields, bytes: Vec::new() };
        assert(blk.fields@[0] == a && blk.fields@[1] == b);
        self.push_block(blk)
    }

    /// Allocates a block of `tag` with the single word `a`.
    pub fn caml_alloc_cell(&mut self, tag: u8, a: RawValue) -> (r: RawValue)
        requires
            old(self).wf(),
            old(self).has_room(),
            tag < NO_SCAN_TAG,
            old(self).live(a),
        ensures
            final(self).grown_from(*old(self)),
            final(self).wf(),
            r == block_word(old(self).nblocks() as int),
            final(self).is_scannable(r, 1),
            final(self).tag_at(r) == tag,
            final(self).wosize_at(r) == 1,
            final(self).field_at(r, 0) == a,
    {
        let mut fields: Vec<i64> = Vec::new();
        fields.push(a);
        let blk = Block { header: make_header(1, tag), fields, bytes: Vec::new() };
        assert(blk.fields@[0] == a);
        self.push_block(blk)
    }

    /// Allocates a string block holding a copy of `contents`.
    pub fn caml_alloc_initialized_string(&mut self, contents: &[u8]) -> (r: RawValue)
        requires
            old(self).wf(),
            old(self).has_room(),
            contents@.len() <= MAX_STRING_LEN,
        ensures
            final(self).grown_from(*old(self)),
            final(self).wf(),
            r == block_word(old(self).nblocks() as int),
            final(self).is_string(r),
            final(self).bytes_at(r) == contents@,
    {
        let bytes = copy_range(contents, 0, contents.len());
        let w = (contents.len() / 8 + 1) as u64;
        let blk = Block { header: make_header(w, STRING_TAG), fields: Vec::new(), bytes };
        self.push_block(blk)
    }

    /// Allocates a boxed 64-bit integer holding `v`.
    pub fn caml_copy_int64(&mut self, v: i64) -> (r: RawValue)
        requires
            old(self).wf(),
            old(self).has_room(),
        ensures
            final(self).grown_from(*old(self)),
            final(self).wf(),
            r == block_word(old(self).nblocks() as int),
            final(self).is_custom(r),
            final(self).field_at(r, 0) == INT64_OPS,
            final(self).field_at(r, 1) == v,
    {
        let mut fields: Vec<i64> = Vec::new();
        fields.push(INT64_OPS);
        fields.push(v);
        let blk = Block { header: make_header(2, CUSTOM_TAG), fields, bytes: Vec::new() };
        assert(blk.fields@[0] == INT64_OPS && blk.fields@[1] == v);
        self.push_block(blk)
    }

    /// Allocates an externally-backed byte buffer over a copy of `data`.
    pub fn caml_ba_alloc(&mut self, data: &[u8]) -> (r: RawValue)
        requires
            old(self).wf(),
            old(self).has_room(),
            data@.len() <= MAX_STRING_LEN,
        ensures
            final(self).grown_from(*old(self)),
            final(self).wf(),
            r == block_word(old(self).nblocks() as int),
            final(self).is_custom(r),
            final(self).field_at(r, 0) == BIGARRAY_OPS,
            final(self).field_at(r, 1) == data@.len(),
            final(self).bytes_at(r) == data@,
    {
        let mut fields: Vec<i64> = Vec::new();
        fields.push(BIGARRAY_OPS);
        fields.push(data.len() as i64);
        let blk = Block { header: make_header(2, CUSTOM_TAG), fields, bytes: copy_range(data, 0, data.len()) };
        assert(blk.fields@[0] == BIGARRAY_OPS && blk.fields@[1] == data@.len());
        self.push_block(blk)
    }
}

} // verus!
