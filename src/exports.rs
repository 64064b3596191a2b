//! Entry points exported to the host: each opens a scope, decodes its word
//! arguments, computes, allocates through the staged protocol, and closes
//! the scope before returning one encoded word.
use vstd::prelude::*;
use crate::layout::{
    RawValue, is_block_word, low_byte, encode_int, decode_int, VAL_UNIT, ML_INT_MIN,
    ML_INT_MAX,
};
use crate::gc::{Gc, MAX_BLOCKS, copy_range};
use crate::staging::{
    GCtoken, alloc_caml_pair, none, alloc_caml_some, alloc_caml_string, alloc_caml_bytes,
    alloc_caml_bigstring, alloc_caml_int64,
};
use vstd::utf8::valid_utf8;
use crate::types::{TypeDesc, FnDecl};
use vstd::string::StringExecFns;
use crate::value::{Val, OCamlInt, MlString, MlBytes, Bigstring, Pair, AA, BB, of_int, of_char};

verus! {

impl Gc {
    /// Heap, epoch and root chain all as in `old`.
    pub open spec fn unchanged_from(&self, old: Gc) -> bool {
        &&& self.blocks@ == old.blocks@
        &&& self.epoch@ == old.epoch@
        &&& self.slots@ == old.slots@
        &&& self.table_starts@ == old.table_starts@
    }

    /// Ready for an entry point that allocates at most `n` blocks.
    pub open spec fn ready(&self, n: nat) -> bool {
        &&& self.wf()
        &&& self.depth() < usize::MAX
        &&& self.blocks@.len() + n <= MAX_BLOCKS
    }

    /// The root chain of `self` is that of `old`, and the heap of `old` is
    /// kept as a prefix.
    pub open spec fn returned_to(&self, old: Gc) -> bool {
        &&& self.wf()
        &&& self.slots@ == old.slots@
        &&& self.table_starts@ == old.table_starts@
        &&& self.blocks@.len() >= old.blocks@.len()
        &&& forall|i: int| 0 <= i < old.blocks@.len() ==> self.blocks@[i] == old.blocks@[i]
    }

    /// `r` is `Some(v)` for a string block `v` holding `s`.
    pub open spec fn holds_some_string(&self, r: i64, s: Seq<u8>) -> bool {
        &&& self.is_scannable(r, 1)
        &&& self.tag_at(r) == 0
        &&& self.wosize_at(r) == 1
        &&& self.is_string(self.field_at(r, 0))
        &&& self.bytes_at(self.field_at(r, 0)) == s
    }

    /// `r` is `Some(v)` for an externally-backed buffer `v` holding `s`.
    pub open spec fn holds_some_bigstring(&self, r: i64, s: Seq<u8>) -> bool {
        &&& self.is_scannable(r, 1)
        &&& self.tag_at(r) == 0
        &&& self.wosize_at(r) == 1
        &&& self.is_bigstring(self.field_at(r, 0))
        &&& self.bytes_at(self.field_at(r, 0)) == s
    }
}

/// Successor on host integers, which wrap around.
pub open spec fn ml_succ(n: int) -> int {
    if n == ML_INT_MAX {
        ML_INT_MIN as int
    } else {
        n + 1
    }
}

/// Adds one to a host integer.
pub fn inc(gc: &mut Gc, x: RawValue) -> (r: RawValue)
    requires
        old(gc).ready(0),
        !is_block_word(x),
    ensures
        final(gc).unchanged_from(*old(gc)),
        r == encode_int(ml_succ(decode_int(x as int))),
{
    let s = gc.open_scope();
    let xv: Val<OCamlInt> = Val::new(gc, x);
    let n = xv.as_int();
    let m: i64 = if n == ML_INT_MAX {
        ML_INT_MIN
    } else {
        n + 1
    };
    let r = of_int(m).eval();
    gc.close_scope(s);
    proof {
        assert(gc.table_starts@ =~= old(gc).table_starts@);
    }
    r
}

/// The code of a host character, as a host integer.
pub fn atoi(gc: &mut Gc, x: RawValue) -> (r: RawValue)
    requires
        old(gc).ready(0),
        !is_block_word(x),
    ensures
        final(gc).unchanged_from(*old(gc)),
        r == encode_int(low_byte(decode_int(x as int)) as int),
{
    let s = gc.open_scope();
    let xv: Val<char> = Val::new(gc, x);
    let c = xv.as_char();
    let r = of_int((c as u32) as i64).eval();
    gc.close_scope(s);
    proof {
        assert(gc.table_starts@ =~= old(gc).table_starts@);
    }
    r
}

/// The character whose code is the low byte of a host integer.
pub fn itoa(gc: &mut Gc, x: RawValue) -> (r: RawValue)
    requires
        old(gc).ready(0),
        !is_block_word(x),
    ensures
        final(gc).unchanged_from(*old(gc)),
        r == encode_int(low_byte(decode_int(x as int)) as int),
{
    let s = gc.open_scope();
    let xv: Val<OCamlInt> = Val::new(gc, x);
    let n = xv.as_int();
    let r = of_char((n as u8) as char).eval();
    gc.close_scope(s);
    proof {
        assert(gc.table_starts@ =~= old(gc).table_starts@);
    }
    r
}

/// Allocates the pair `(x, y)`.
pub fn mkpair(gc: &mut Gc, x: RawValue, y: RawValue) -> (r: RawValue)
    requires
        old(gc).ready(1),
        old(gc).live(x),
        old(gc).live(y),
    ensures
        final(gc).returned_to(*old(gc)),
        final(gc).blocks@.len() == old(gc).blocks@.len() + 1,
        final(gc).is_scannable(r, 2),
        final(gc).tag_at(r) == 0,
        final(gc).field_at(r, 0) == x,
        final(gc).field_at(r, 1) == y,
{
    let s = gc.open_scope();
    let xv: Val<AA> = Val::new(gc, x);
    let yv: Val<BB> = Val::new(gc, y);
    let p = alloc_caml_pair(GCtoken {}, gc, 0, xv, yv).mark(gc).eval(gc);
    let r = p.eval();
    gc.close_scope(s);
    proof {
        assert(gc.table_starts@ =~= old(gc).table_starts@);
    }
    r
}

/// Allocates `(x, (x, x))`, keeping `x` rooted across the first allocation.
pub fn triple(gc: &mut Gc, x: RawValue) -> (r: RawValue)
    requires
        old(gc).ready(2),
        old(gc).live(x),
    ensures
        final(gc).returned_to(*old(gc)),
        final(gc).blocks@.len() == old(gc).blocks@.len() + 2,
        final(gc).is_scannable(r, 2),
        final(gc).field_at(r, 0) == x,
        final(gc).is_scannable(final(gc).field_at(r, 1), 2),
        final(gc).field_at(final(gc).field_at(r, 1), 0) == x,
        final(gc).field_at(final(gc).field_at(r, 1), 1) == x,
{
    let s = gc.open_scope();
    let xv: Val<AA> = Val::new(gc, x);
    let ghost g0: Gc = *gc;
    let vx = xv.var(gc);
    let ghost g1: Gc = *gc;
    let snd = alloc_caml_pair(GCtoken {}, gc, 0, xv, xv).mark(gc).eval(gc);
    let ghost g2: Gc = *gc;
    let x_now = vx.get(gc);
    let p = alloc_caml_pair(GCtoken {}, gc, 0, x_now, snd).mark(gc).eval(gc);
    let r = p.eval();
    let ghost g3: Gc = *gc;
    proof {
        assert(g3.is_top_slot(vx.slot_of() as nat));
    }
    vx.release(gc);
    proof {
        assert(gc.slots@ =~= old(gc).slots@);
    }
    gc.close_scope(s);
    proof {
        assert(gc.table_starts@ =~= old(gc).table_starts@);
    }
    r
}

/// `None` for an empty string, else `Some` of the string without its first
/// byte. The text must be valid UTF-8 that starts, if at all, with a
/// one-byte character.
pub fn strtail(gc: &mut Gc, x: RawValue) -> (r: RawValue)
    requires
        old(gc).ready(2),
        old(gc).is_string(x),
        valid_utf8(old(gc).bytes_at(x)),
        old(gc).bytes_at(x).len() > 0 ==> old(gc).bytes_at(x)[0] < 0x80,
    ensures
        final(gc).returned_to(*old(gc)),
        old(gc).bytes_at(x).len() == 0 ==> r == VAL_UNIT && final(gc).unchanged_from(*old(gc)),
        old(gc).bytes_at(x).len() > 0 ==> final(gc).holds_some_string(
            r,
            old(gc).bytes_at(x).subrange(1, old(gc).bytes_at(x).len() as int),
        ),
{
    let s = gc.open_scope();
    let xv: Val<MlString> = Val::new(gc, x);
    let b = xv.as_bytes(gc);
    let r = if b.len() == 0 {
        none::<MlString>(GCtoken {}, gc).mark(gc).eval(gc).eval()
    } else {
        let rest = copy_range(b, 1, b.len());
        let t = alloc_caml_string(GCtoken {}, gc, rest.as_slice()).mark(gc).eval(gc);
        alloc_caml_some(GCtoken {}, gc, t).mark(gc).eval(gc).eval()
    };
    gc.close_scope(s);
    proof {
        assert(gc.table_starts@ =~= old(gc).table_starts@);
    }
    r
}

/// `None` for an empty byte string, else `Some` of it without its first byte.
pub fn bytestail(gc: &mut Gc, x: RawValue) -> (r: RawValue)
    requires
        old(gc).ready(2),
        old(gc).is_string(x),
    ensures
        final(gc).returned_to(*old(gc)),
        old(gc).bytes_at(x).len() == 0 ==> r == VAL_UNIT && final(gc).unchanged_from(*old(gc)),
        old(gc).bytes_at(x).len() > 0 ==> final(gc).holds_some_string(
            r,
            old(gc).bytes_at(x).subrange(1, old(gc).bytes_at(x).len() as int),
        ),
{
    let s = gc.open_scope();
    let xv: Val<MlBytes> = Val::new(gc, x);
    let b = xv.as_bytes(gc);
    let r = if b.len() == 0 {
        none::<MlBytes>(GCtoken {}, gc).mark(gc).eval(gc).eval()
    } else {
        let rest = copy_range(b, 1, b.len());
        let t = alloc_caml_bytes(GCtoken {}, gc, rest).mark(gc).eval(gc);
        alloc_caml_some(GCtoken {}, gc, t).mark(gc).eval(gc).eval()
    };
    gc.close_scope(s);
    proof {
        assert(gc.table_starts@ =~= old(gc).table_starts@);
    }
    r
}

/// `None` for an empty buffer, else `Some` of a new buffer over its bytes
/// without the first.
pub fn bigstrtail(gc: &mut Gc, x: RawValue) -> (r: RawValue)
    requires
        old(gc).ready(2),
        old(gc).is_bigstring(x),
    ensures
        final(gc).returned_to(*old(gc)),
        old(gc).bytes_at(x).len() == 0 ==> r == VAL_UNIT && final(gc).unchanged_from(*old(gc)),
        old(gc).bytes_at(x).len() > 0 ==> final(gc).holds_some_bigstring(
            r,
            old(gc).bytes_at(x).subrange(1, old(gc).bytes_at(x).len() as int),
        ),
{
    let s = gc.open_scope();
    let xv: Val<Bigstring> = Val::new(gc, x);
    let v = xv.as_slice(gc);
    let r = if v.len() == 0 {
        none::<Bigstring>(GCtoken {}, gc).mark(gc).eval(gc).eval()
    } else {
        let rest = copy_range(v, 1, v.len());
        let t = alloc_caml_bigstring(GCtoken {}, gc, rest.as_slice()).mark(gc).eval(gc);
        alloc_caml_some(GCtoken {}, gc, t).mark(gc).eval(gc).eval()
    };
    gc.close_scope(s);
    proof {
        assert(gc.table_starts@ =~= old(gc).table_starts@);
    }
    r
}

/// Adds one to a boxed 64-bit integer, in a new box.
pub fn inc64(gc: &mut Gc, x: RawValue) -> (r: RawValue)
    requires
        old(gc).ready(1),
        old(gc).is_boxed_int64(x),
        old(gc).field_at(x, 1) < i64::MAX,
    ensures
        final(gc).returned_to(*old(gc)),
        final(gc).is_boxed_int64(r),
        final(gc).field_at(r, 1) == old(gc).field_at(x, 1) + 1,
{
    let s = gc.open_scope();
    let xv: Val<i64> = Val::new(gc, x);
    let n = xv.as_i64(gc);
    let r = alloc_caml_int64(GCtoken {}, gc, n + 1).mark(gc).eval(gc).eval();
    gc.close_scope(s);
    proof {
        assert(gc.table_starts@ =~= old(gc).table_starts@);
    }
    r
}

/// A user record whose single field is a pair of host integers.
pub struct FooBar {
    _p: Pair<OCamlInt, OCamlInt>,
}

impl FooBar {
    /// The record's host type name.
    pub fn name() -> (r: String)
        ensures
            r@ == "foobar"@,
    {
        String::from_str("foobar")
    }

    /// The host module that declares the record.
    pub fn module_name() -> (r: String)
        ensures
            r@ == "Test"@,
    {
        String::from_str("Test")
    }

    /// The record's descriptor.
    pub fn desc() -> (r: TypeDesc)
        ensures
            r matches TypeDesc::Record(n) && n@ == "foobar"@,
    {
        TypeDesc::Record(FooBar::name())
    }
}

/// The first component of the pair held in a `FooBar` record.
pub fn recordfst(gc: &mut Gc, x: RawValue) -> (r: RawValue)
    requires
        old(gc).ready(0),
        old(gc).is_scannable(x, 1),
        old(gc).is_scannable(old(gc).field_at(x, 0), 2),
        !is_block_word(old(gc).field_at(old(gc).field_at(x, 0), 0)),
    ensures
        final(gc).unchanged_from(*old(gc)),
        r == old(gc).field_at(old(gc).field_at(x, 0), 0),
{
    let s = gc.open_scope();
    let xv: Val<FooBar> = Val::new(gc, x);
    let pair: Val<Pair<OCamlInt, OCamlInt>> = xv.field(gc, 0);
    let n = pair.fst(gc).as_int();
    let r = of_int(n).eval();
    gc.close_scope(s);
    proof {
        assert(gc.table_starts@ =~= old(gc).table_starts@);
    }
    r
}

/// A function descriptor with the given name and types.
fn decl(name: &str, args: Vec<TypeDesc>, ret: TypeDesc) -> (r: FnDecl)
    ensures
        r.name@ == name@,
        r.args@ == args@,
        r.ret == ret,
{
    FnDecl { name: String::from_str(name), args, ret }
}

/// A one-element argument list.
fn one(a: TypeDesc) -> (r: Vec<TypeDesc>)
    ensures
        r@ == seq![a],
{
    let mut v: Vec<TypeDesc> = Vec::new();
    v.push(a);
    v
}

/// The descriptors of the entry points of this module, in declaration order.
pub fn exported_functions() -> (r: Vec<FnDecl>)
    ensures
        r@.len() == 10,
        r@[0].name@ == "inc"@ && r@[0].args@ == seq![TypeDesc::Int] && r@[0].ret == TypeDesc::Int,
        r@[1].name@ == "atoi"@ && r@[1].args@ == seq![TypeDesc::Char] && r@[1].ret == TypeDesc::Int,
        r@[2].name@ == "itoa"@ && r@[2].args@ == seq![TypeDesc::Int] && r@[2].ret == TypeDesc::Char,
        r@[3].name@ == "mkpair"@ && r@[3].args@ == seq![TypeDesc::VarA, TypeDesc::VarB]
            && r@[3].ret == TypeDesc::Pair(Box::new(TypeDesc::VarA), Box::new(TypeDesc::VarB)),
        r@[4].name@ == "triple"@ && r@[4].args@ == seq![TypeDesc::VarA] && r@[4].ret == TypeDesc::Pair(
            Box::new(TypeDesc::VarA),
            Box::new(TypeDesc::Pair(Box::new(TypeDesc::VarA), Box::new(TypeDesc::VarA))),
        ),
        r@[5].name@ == "strtail"@ && r@[5].args@ == seq![TypeDesc::Str]
            && r@[5].ret == TypeDesc::Option(Box::new(TypeDesc::Str)),
        r@[6].name@ == "bytestail"@ && r@[6].args@ == seq![TypeDesc::Bytes]
            && r@[6].ret == TypeDesc::Option(Box::new(TypeDesc::Bytes)),
        r@[7].name@ == "bigstrtail"@ && r@[7].args@ == seq![TypeDesc::Bigstring]
            && r@[7].ret == TypeDesc::Option(Box::new(TypeDesc::Bigstring)),
        r@[8].name@ == "inc64"@ && r@[8].args@ == seq![TypeDesc::Int64] && r@[8].ret == TypeDesc::Int64,
        r@[9].name@ == "recordfst"@ && r@[9].args@.len() == 1 && r@[9].args@[0]->Record_0@ == "foobar"@
            && r@[9].ret == TypeDesc::Int,
{
    let mut v: Vec<FnDecl> = Vec::new();
    v.push(decl("inc", one(TypeDesc::Int), TypeDesc::Int));
    v.push(decl("atoi", one(TypeDesc::Char), TypeDesc::Int));
    v.push(decl("itoa", one(TypeDesc::Int), TypeDesc::Char));
    let mut ab: Vec<TypeDesc> = Vec::new();
    ab.push(TypeDesc::VarA);
    ab.push(TypeDesc::VarB);
    v.push(decl("mkpair", ab, TypeDesc::Pair(Box::new(TypeDesc::VarA), Box::new(TypeDesc::VarB))));
    let aa = TypeDesc::Pair(Box::new(TypeDesc::VarA), Box::new(TypeDesc::VarA));
    v.push(decl("triple", one(TypeDesc::VarA), TypeDesc::Pair(Box::new(TypeDesc::VarA), Box::new(aa))));
    v.push(decl("strtail", one(TypeDesc::Str), TypeDesc::Option(Box::new(TypeDesc::Str))));
    v.push(decl("bytestail", one(TypeDesc::Bytes), TypeDesc::Option(Box::new(TypeDesc::Bytes))));
    v.push(decl("bigstrtail", one(TypeDesc::Bigstring), TypeDesc::Option(Box::new(TypeDesc::Bigstring))));
    v.push(decl("inc64", one(TypeDesc::Int64), TypeDesc::Int64));
    v.push(decl("recordfst", one(FooBar::desc()), TypeDesc::Int));
    v
}

} // verus!
