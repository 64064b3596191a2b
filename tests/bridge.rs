use dmz::exports::{atoi, recordfst, FooBar, bigstrtail, bytestail, exported_functions, inc, inc64, itoa, mkpair, strtail, triple};
use dmz::gc::{Gc, RootError};
use dmz::layout::{make_header, tag_of_header, wosize_of_header, Is_block, ML_INT_MAX, ML_INT_MIN, STRING_TAG};
use dmz::staging::{
    alloc_blank_caml_string, alloc_caml_bigstring, alloc_caml_bytes, alloc_caml_int64, alloc_caml_pair,
    alloc_caml_some, alloc_caml_string, none, GCtoken,
};
use dmz::types::{declaration, ml_type_name, module_declarations, FnDecl, TypeDesc};
use dmz::value::{utf8_text, of_char, of_int, Bigstring, CList, List, MlBytes, MlOption, MlString, OCamlInt, Pair, Val};

fn string_word(gc: &mut Gc, s: &[u8]) -> i64 {
    alloc_caml_string(GCtoken {}, gc, s).mark(gc).eval(gc).eval()
}

fn bigstring_word(gc: &mut Gc, s: &[u8]) -> i64 {
    alloc_caml_bigstring(GCtoken {}, gc, s).mark(gc).eval(gc).eval()
}

fn some_string_bytes(gc: &Gc, r: i64) -> Option<Vec<u8>> {
    let o: Val<MlOption<MlString>> = Val::new(gc, r);
    o.as_option(gc).map(|v| v.as_bytes(gc).to_vec())
}

#[test]
fn immediate_round_trip_ints() {
    for n in [0i64, 1, -1, 41, 1_000_000, -123_456_789, ML_INT_MIN, ML_INT_MAX] {
        let v = of_int(n);
        assert!(!v.is_block());
        assert_eq!(v.as_int(), n);
    }
}

#[test]
fn of_int_keeps_the_low_63_bits() {
    assert_eq!(of_int(i64::MAX).eval(), -1);
    assert_eq!(of_int(i64::MAX).as_int(), -1);
    assert_eq!(of_int(ML_INT_MAX + 1).as_int(), ML_INT_MIN);
    assert_eq!(of_int(ML_INT_MIN - 1).as_int(), ML_INT_MAX);
    assert_eq!(of_int(i64::MIN).eval(), 1);
    assert_eq!(of_int(i64::MIN).as_int(), 0);
}

#[test]
fn immediate_round_trip_chars() {
    for b in 0u8..=255 {
        let v = of_char(b as char);
        assert_eq!(v.eval(), (b as i64) * 2 + 1);
        assert_eq!(v.as_char(), b as char);
    }
}

#[test]
fn string_allocation_round_trip() {
    let mut gc = Gc::new();
    for s in [&b""[..], b"a", b"hello", b"exactly8", b"a longer string with \xff bytes"] {
        let w = string_word(&mut gc, s);
        let v: Val<MlString> = Val::new(&gc, w);
        assert_eq!(v.as_bytes(&gc), s);
        assert_eq!(gc.caml_string_length(w), s.len());
        assert_eq!(dmz::gc::Tag_val(&gc, w), STRING_TAG);
        assert_eq!(dmz::gc::Wosize_val(&gc, w), (s.len() / 8 + 1) as u64);
    }
}

#[test]
fn blank_string_is_zeroed() {
    let mut gc = Gc::new();
    let w = alloc_blank_caml_string(GCtoken {}, &mut gc, 3).mark(&mut gc).eval(&gc).eval();
    let v: Val<MlString> = Val::new(&gc, w);
    assert_eq!(v.as_bytes(&gc), &[0u8, 0, 0][..]);
}

#[test]
fn as_str_decodes_text() {
    let mut gc = Gc::new();
    let w = alloc_caml_bytes(GCtoken {}, &mut gc, "héllo".as_bytes().to_vec()).mark(&mut gc).eval(&gc).eval();
    let v: Val<MlBytes> = Val::new(&gc, w);
    assert_eq!(v.as_str(&gc), "héllo");
}

#[test]
fn scope_with_unreleased_root_is_a_violation() {
    let mut gc = Gc::new();
    let s = gc.open_scope();
    let var = of_int(7).var(&mut gc);
    assert_eq!(gc.close_fault(&s), Some(RootError::RootsStillHeld));
    var.release(&mut gc);
    assert_eq!(gc.close_fault(&s), None);
    gc.close_scope(s);
    assert_eq!(gc.table_starts.len(), 0);
}

#[test]
fn out_of_order_release_is_a_violation() {
    let mut gc = Gc::new();
    let _s = gc.open_scope();
    let a = of_int(1).var(&mut gc);
    let b = of_int(2).var(&mut gc);
    assert!(!gc.is_top(a.slot()));
    assert!(gc.is_top(b.slot()));
    b.release(&mut gc);
    assert!(gc.is_top(a.slot()));
    a.release(&mut gc);
    assert_eq!(gc.slots.len(), 0);
    assert!(!gc.is_top(0));
}

#[test]
fn root_table_capacity_and_scope_violations() {
    let mut gc = Gc::new();
    assert_eq!(gc.claim_fault(), Some(RootError::NoScope));
    let outer = gc.open_scope();
    let inner = gc.open_scope();
    assert_eq!(gc.close_fault(&outer), Some(RootError::NotChainHead));
    let mut held = Vec::new();
    for i in 0..8 {
        assert_eq!(gc.claim_fault(), None);
        held.push(of_int(i).var(&mut gc));
    }
    assert_eq!(gc.claim_fault(), Some(RootError::CapacityExceeded));
    assert_eq!(gc.close_fault(&inner), Some(RootError::RootsStillHeld));
    while let Some(v) = held.pop() {
        v.release(&mut gc);
    }
    assert_eq!(gc.close_fault(&inner), None);
    gc.close_scope(inner);
    assert_eq!(gc.close_fault(&outer), None);
    gc.close_scope(outer);
}

#[test]
fn rooted_variable_get_and_set() {
    let mut gc = Gc::new();
    let _s = gc.open_scope();
    let p = string_word(&mut gc, b"kept");
    let pv: Val<MlString> = Val::new(&gc, p);
    let mut var = pv.var(&mut gc);
    let _other = string_word(&mut gc, b"other");
    let again = var.get(&gc);
    assert_eq!(again.as_bytes(&gc), b"kept");
    let q = string_word(&mut gc, b"new");
    let qv: Val<MlString> = Val::new(&gc, q);
    var.set(&mut gc, qv);
    assert_eq!(var.get(&gc).eval(), q);
}

#[test]
fn tail_family_lengths() {
    let text = b"abcdefgh";
    for n in 0..=8usize {
        let mut gc = Gc::new();
        let s = &text[..n];
        let x = string_word(&mut gc, s);
        let r = strtail(&mut gc, x);
        let y = string_word(&mut gc, s);
        let rb = bytestail(&mut gc, y);
        let z = bigstring_word(&mut gc, s);
        let rz = bigstrtail(&mut gc, z);
        if n == 0 {
            assert_eq!(r, 1);
            assert_eq!(rb, 1);
            assert_eq!(rz, 1);
        } else {
            let t = some_string_bytes(&gc, r).unwrap();
            assert_eq!(t.len(), n - 1);
            assert_eq!(&t[..], &s[1..]);
            let o: Val<MlOption<MlBytes>> = Val::new(&gc, rb);
            let tb = o.as_option(&gc).unwrap();
            assert_eq!(tb.as_bytes(&gc), &s[1..]);
            let oz: Val<MlOption<Bigstring>> = Val::new(&gc, rz);
            let tz = oz.as_option(&gc).unwrap();
            assert_eq!(tz.as_slice(&gc), &s[1..]);
        }
        assert_eq!(gc.table_starts.len(), 0);
        assert_eq!(gc.slots.len(), 0);
    }
}

#[test]
fn strtail_hello() {
    let mut gc = Gc::new();
    let x = string_word(&mut gc, b"hello");
    let r = strtail(&mut gc, x);
    assert!(Is_block(r));
    let t = some_string_bytes(&gc, r).unwrap();
    assert_eq!(t, b"ello".to_vec());
    assert_eq!(t.len(), 4);
}

#[test]
fn pair_round_trip() {
    let mut gc = Gc::new();
    for (a, b) in [(0i64, 0i64), (1, -1), (41, 42), (ML_INT_MIN, ML_INT_MAX)] {
        let r = mkpair(&mut gc, of_int(a).eval(), of_int(b).eval());
        let p: Val<Pair<OCamlInt, OCamlInt>> = Val::new(&gc, r);
        assert_eq!(p.fst(&gc).as_int(), a);
        assert_eq!(p.snd(&gc).as_int(), b);
    }
}

#[test]
fn staged_pair_and_some() {
    let mut gc = Gc::new();
    let a = of_int(3);
    let b = of_int(4);
    let p = alloc_caml_pair(GCtoken {}, &mut gc, 0, a, b).mark(&mut gc).eval(&gc);
    assert_eq!(p.fst(&gc).as_int(), 3);
    assert_eq!(p.snd(&gc).as_int(), 4);
    let s = alloc_caml_some(GCtoken {}, &mut gc, a).mark(&mut gc).eval(&gc);
    assert_eq!(s.as_option(&gc).unwrap().as_int(), 3);
    let n = none::<OCamlInt>(GCtoken {}, &gc).mark(&mut gc).eval(&gc);
    assert_eq!(n.eval(), 1);
    assert!(n.as_option(&gc).is_none());
}

#[test]
fn list_decoding() {
    let mut gc = Gc::new();
    let nil: Val<List<OCamlInt>> = Val::new(&gc, 1);
    assert!(matches!(nil.as_list(&gc), CList::Nil));
    let cell = alloc_caml_pair(GCtoken {}, &mut gc, 0, of_int(5), nil).mark(&mut gc).eval(&gc);
    let l: Val<List<OCamlInt>> = Val::new(&gc, cell.eval());
    match l.as_list(&gc) {
        CList::Cons { x, xs } => {
            assert_eq!(x.as_int(), 5);
            assert_eq!(xs.eval(), 1);
        }
        CList::Nil => panic!("expected a cons cell"),
    }
}

#[test]
fn increment_scenario() {
    let mut gc = Gc::new();
    assert_eq!(of_int(41).eval(), 83);
    assert_eq!(inc(&mut gc, 83), 85);
    assert_eq!(inc(&mut gc, of_int(ML_INT_MAX).eval()), of_int(ML_INT_MIN).eval());
    assert_eq!(inc(&mut gc, of_int(-1).eval()), of_int(0).eval());
}

#[test]
fn char_int_conversions() {
    let mut gc = Gc::new();
    assert_eq!(atoi(&mut gc, of_char('A').eval()), of_int(65).eval());
    assert_eq!(itoa(&mut gc, of_int(97).eval()), of_char('a').eval());
    assert_eq!(itoa(&mut gc, of_int(256 + 66).eval()), of_char('B').eval());
    assert_eq!(itoa(&mut gc, of_int(-1).eval()), of_char(255u8 as char).eval());
}

#[test]
fn triple_shares_its_argument() {
    let mut gc = Gc::new();
    let x = string_word(&mut gc, b"x");
    let r = triple(&mut gc, x);
    let p: Val<Pair<MlString, Pair<MlString, MlString>>> = Val::new(&gc, r);
    assert_eq!(p.fst(&gc).eval(), x);
    let inner = p.snd(&gc);
    assert_eq!(inner.fst(&gc).eval(), x);
    assert_eq!(inner.snd(&gc).eval(), x);
    assert_eq!(gc.slots.len(), 0);
    assert_eq!(gc.blocks.len(), 3);
}

#[test]
fn boxed_int64_increment() {
    let mut gc = Gc::new();
    let x = alloc_caml_int64(GCtoken {}, &mut gc, -5).mark(&mut gc).eval(&gc);
    assert_eq!(x.as_i64(&gc), -5);
    let r = inc64(&mut gc, x.eval());
    let v: Val<i64> = Val::new(&gc, r);
    assert_eq!(v.as_i64(&gc), -4);
}

#[test]
fn header_fields() {
    let h = make_header(3, 252);
    assert_eq!(h, (3 << 10) | 252);
    assert_eq!(wosize_of_header(h), 3);
    assert_eq!(tag_of_header(h), 252);
}

#[test]
fn type_names_compose() {
    let t = TypeDesc::Pair(
        Box::new(TypeDesc::Option(Box::new(TypeDesc::Str))),
        Box::new(TypeDesc::List(Box::new(TypeDesc::Int))),
    );
    assert_eq!(ml_type_name(&t), "(string option * int list)");
    assert_eq!(ml_type_name(&TypeDesc::Bigstring), "Bigstring.t");
    assert_eq!(ml_type_name(&TypeDesc::Record("foobar".to_string())), "foobar");
}

#[test]
fn declaration_lines() {
    let d = FnDecl { name: "mkpair".to_string(), args: vec![TypeDesc::VarA, TypeDesc::VarB], ret: TypeDesc::Pair(Box::new(TypeDesc::VarA), Box::new(TypeDesc::VarB)) };
    assert_eq!(declaration(&d), "external mkpair : 'a -> 'b -> ('a * 'b) = \"mkpair\"\n");
    let all = module_declarations(&exported_functions());
    let lines: Vec<&str> = all.lines().collect();
    assert_eq!(lines.len(), 10);
    assert_eq!(lines[9], "external recordfst : foobar -> int = \"recordfst\"");
    assert_eq!(lines[0], "external inc : int -> int = \"inc\"");
    assert_eq!(lines[5], "external strtail : string -> string option = \"strtail\"");
}

#[test]
fn record_first_component() {
    let mut gc = Gc::new();
    let p = mkpair(&mut gc, of_int(12).eval(), of_int(-3).eval());
    let pv: Val<Pair<OCamlInt, OCamlInt>> = Val::new(&gc, p);
    let rec = alloc_caml_some(GCtoken {}, &mut gc, pv).mark(&mut gc).eval(&gc).eval();
    assert_eq!(recordfst(&mut gc, rec), of_int(12).eval());
    assert_eq!(FooBar::name(), "foobar");
    assert_eq!(FooBar::module_name(), "Test");
}

#[test]
fn utf8_text_accepts_only_valid_utf8() {
    assert_eq!(utf8_text(b"abc"), Some("abc".to_string()));
    assert_eq!(utf8_text(&[0xc3, 0xa9]), Some("\u{e9}".to_string()));
    assert_eq!(utf8_text(&[0xff, 0x61]), None);
    assert_eq!(utf8_text(&[0xed, 0xa0, 0x80]), None);
}
