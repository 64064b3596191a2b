//! Host type descriptors and the declarations of exported functions.
//!
//! Each descriptor names a host type; composite descriptors render from
//! their parts. A list of function descriptors yields one `external`
//! declaration line per function, for host-side binding generation.
use vstd::prelude::*;
use vstd::string::StringExecFns;

verus! {

/// A host type, as it appears in an exported signature.
pub enum TypeDesc {
    /// `bytes`
    Bytes,
    /// `string`
    Str,
    /// `char`
    Char,
    /// `int64`
    Int64,
    /// `Bigstring.t`
    Bigstring,
    /// `unit`
    Unit,
    /// `int`
    Int,
    /// `'a`
    VarA,
    /// `'b`
    VarB,
    /// `'c`
    VarC,
    /// `'d`
    VarD,
    /// `'e`
    VarE,
    /// A user record, by its host name.
    Record(String),
    /// `(A * B)`
    Pair(Box<TypeDesc>, Box<TypeDesc>),
    /// `A list`
    List(Box<TypeDesc>),
    /// `A option`
    Option(Box<TypeDesc>),
}

/// The host-language name of a descriptor.
pub open spec fn name_of(t: TypeDesc) -> Seq<char>
    decreases t,
{
    match t {
        TypeDesc::Bytes => "bytes"@,
        TypeDesc::Str => "string"@,
        TypeDesc::Char => "char"@,
        TypeDesc::Int64 => "int64"@,
        TypeDesc::Bigstring => "Bigstring.t"@,
        TypeDesc::Unit => "Unit"@,
        TypeDesc::Int => "int"@,
        TypeDesc::VarA => "'a"@,
        TypeDesc::VarB => "'b"@,
        TypeDesc::VarC => "'c"@,
        TypeDesc::VarD => "'d"@,
        TypeDesc::VarE => "'e"@,
        TypeDesc::Record(n) => n@,
        TypeDesc::Pair(a, b) => "("@ + name_of(*a) + " * "@ + name_of(*b) + ")"@,
        TypeDesc::List(a) => name_of(*a) + " list"@,
        TypeDesc::Option(a) => name_of(*a) + " option"@,
    }
}

/// The host-language name of a descriptor, rendered from its parts.
pub fn ml_type_name(t: &TypeDesc) -> (r: String)
    ensures
        r@ == name_of(*t),
    decreases t,
{
    match t {
        TypeDesc::Bytes => String::from_str("bytes"),
        TypeDesc::Str => String::from_str("string"),
        TypeDesc::Char => String::from_str("char"),
        TypeDesc::Int64 => String::from_str("int64"),
        TypeDesc::Bigstring => String::from_str("Bigstring.t"),
        TypeDesc::Unit => String::from_str("Unit"),
        TypeDesc::Int => String::from_str("int"),
        TypeDesc::VarA => String::from_str("'a"),
        TypeDesc::VarB => String::from_str("'b"),
        TypeDesc::VarC => String::from_str("'c"),
        TypeDesc::VarD => String::from_str("'d"),
        TypeDesc::VarE => String::from_str("'e"),
        TypeDesc::Record(n) => String::from_str(n.as_str()),
        TypeDesc::Pair(a, b) => {
            let mut s = String::from_str("(");
            let na = ml_type_name(a);
            s.append(na.as_str());
            s.append(" * ");
            let nb = ml_type_name(b);
            s.append(nb.as_str());
            s.append(")");
            s
        },
        TypeDesc::List(a) => {
            let mut s = ml_type_name(a);
            s.append(" list");
            s
        },
        TypeDesc::Option(a) => {
            let mut s = ml_type_name(a);
            s.append(" option");
            s
        },
    }
}

/// An exported function: its host-visible name, argument types and result type.
pub struct FnDecl {
    pub name: String,
    pub args: Vec<TypeDesc>,
    pub ret: TypeDesc,
}

/// Each argument's name followed by an arrow.
pub open spec fn args_text(args: Seq<TypeDesc>) -> Seq<char>
    decreases args.len(),
{
    if args.len() == 0 {
        seq![]
    } else {
        args_text(args.drop_last()) + name_of(args.last()) + " -> "@
    }
}

/// The declaration line of one exported function; its symbol is its name.
pub open spec fn declaration_text(name: Seq<char>, args: Seq<TypeDesc>, ret: TypeDesc) -> Seq<char> {
    "external "@ + name + " : "@ + args_text(args) + name_of(ret) + " = \""@ + name + "\"\n"@
}

/// The declaration lines of a list of functions, in order.
pub open spec fn module_text(ds: Seq<FnDecl>) -> Seq<char>
    decreases ds.len(),
{
    if ds.len() == 0 {
        seq![]
    } else {
        module_text(ds.drop_last()) + declaration_text(ds.last().name@, ds.last().args@, ds.last().ret)
    }
}

/// The declaration line of `d`.
pub fn declaration(d: &FnDecl) -> (r: String)
    ensures
        r@ == declaration_text(d.name@, d.args@, d.ret),
{
    let mut s = String::from_str("external ");
    s.append(d.name.as_str());
    s.append(" : ");
    let mut i: usize = 0;
    while i < d.args.len()
        invariant
            0 <= i <= d.args@.len(),
            s@ == "external "@ + d.name@ + " : "@ + args_text(d.args@.subrange(0, i as int)),
        decreases d.args@.len() - i,
    {
        let n = ml_type_name(&d.args[i]);
        s.append(n.as_str());
        s.append(" -> ");
        proof {
            let pre = d.args@.subrange(0, i as int + 1);
            assert(pre.drop_last() =~= d.args@.subrange(0, i as int));
        }
        i = i + 1;
    }
    assert(d.args@.subrange(0, d.args@.len() as int) =~= d.args@);
    let rn = ml_type_name(&d.ret);
    s.append(rn.as_str());
    s.append(" = \"");
    s.append(d.name.as_str());
    s.append("\"\n");
    s
}

/// The declaration lines of all of `ds`, one per function, in order.
pub fn module_declarations(ds: &Vec<FnDecl>) -> (r: String)
    ensures
        r@ == module_text(ds@),
{
    let mut s = String::new();
    let mut i: usize = 0;
    while i < ds.len()
        invariant
            0 <= i <= ds@.len(),
            s@ == module_text(ds@.subrange(0, i as int)),
        decreases ds@.len() - i,
    {
        let line = declaration(&ds[i]);
        s.append(line.as_str());
        proof {
            let pre = ds@.subrange(0, i as int + 1);
            assert(pre.drop_last() =~= ds@.subrange(0, i as int));
        }
        i = i + 1;
    }
    assert(ds@.subrange(0, ds@.len() as int) =~= ds@);
    s
}

} // verus!
