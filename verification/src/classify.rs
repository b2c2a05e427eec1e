//! Resolution of an inner type name to a primitive integer and its
//! signedness class.

use vstd::prelude::*;

verus! {

/// The eight recognized primitive integer types: the canonical 8/16/32/64-bit
/// unsigned and signed widths.
#[derive(Clone, Copy, PartialEq, Eq, Structural, Debug)]
pub enum PrimInt {
    U8,
    U16,
    U32,
    U64,
    I8,
    I16,
    I32,
    I64,
}

/// The two-valued signedness classification of a primitive integer type.
#[derive(Clone, Copy, PartialEq, Eq, Structural, Debug)]
pub enum Signedness {
    Unsigned,
    Signed,
}

/// The source-level name of a recognized primitive integer type.
pub open spec fn prim_name(p: PrimInt) -> Seq<char> {
    match p {
        PrimInt::U8 => "u8"@,
        PrimInt::U16 => "u16"@,
        PrimInt::U32 => "u32"@,
        PrimInt::U64 => "u64"@,
        PrimInt::I8 => "i8"@,
        PrimInt::I16 => "i16"@,
        PrimInt::I32 => "i32"@,
        PrimInt::I64 => "i64"@,
    }
}

/// Resolves a bare type name by exact string match to one of the eight
/// recognized primitive integer types, or to nothing.
pub open spec fn spec_classify(s: Seq<char>) -> Option<PrimInt> {
    if s == "u8"@ {
        Some(PrimInt::U8)
    } else if s == "u16"@ {
        Some(PrimInt::U16)
    } else if s == "u32"@ {
        Some(PrimInt::U32)
    } else if s == "u64"@ {
        Some(PrimInt::U64)
    } else if s == "i8"@ {
        Some(PrimInt::I8)
    } else if s == "i16"@ {
        Some(PrimInt::I16)
    } else if s == "i32"@ {
        Some(PrimInt::I32)
    } else if s == "i64"@ {
        Some(PrimInt::I64)
    } else {
        None
    }
}

/// A name is recognized when it resolves to a primitive integer type.
pub open spec fn is_recognized(s: Seq<char>) -> bool {
    spec_classify(s) is Some
}

/// The signedness class of a recognized primitive integer type: the four
/// unsigned width names are unsigned, the four signed width names are signed.
pub open spec fn signedness_of(p: PrimInt) -> Signedness {
    match p {
        PrimInt::U8 | PrimInt::U16 | PrimInt::U32 | PrimInt::U64 => Signedness::Unsigned,
        PrimInt::I8 | PrimInt::I16 | PrimInt::I32 | PrimInt::I64 => Signedness::Signed,
    }
}

/// Resolves a bare type name to a primitive integer type by exact string
/// match against the eight recognized names.
pub fn classify(name: &String) -> (r: Option<PrimInt>)
    ensures
        r == spec_classify(name@),
{
    if *name == "u8".to_owned() {
        Some(PrimInt::U8)
    } else if *name == "u16".to_owned() {
        Some(PrimInt::U16)
    } else if *name == "u32".to_owned() {
        Some(PrimInt::U32)
    } else if *name == "u64".to_owned() {
        Some(PrimInt::U64)
    } else if *name == "i8".to_owned() {
        Some(PrimInt::I8)
    } else if *name == "i16".to_owned() {
        Some(PrimInt::I16)
    } else if *name == "i32".to_owned() {
        Some(PrimInt::I32)
    } else if *name == "i64".to_owned() {
        Some(PrimInt::I64)
    } else {
        None
    }
}

/// The signedness class of a primitive integer type.
pub fn signedness(p: PrimInt) -> (r: Signedness)
    ensures
        r == signedness_of(p),
{
    match p {
        PrimInt::U8 | PrimInt::U16 | PrimInt::U32 | PrimInt::U64 => Signedness::Unsigned,
        PrimInt::I8 | PrimInt::I16 | PrimInt::I32 | PrimInt::I64 => Signedness::Signed,
    }
}

/// The source-level name of a primitive integer type.
pub fn name_of(p: PrimInt) -> (r: String)
    ensures
        r@ == prim_name(p),
{
    match p {
        PrimInt::U8 => "u8".to_owned(),
        PrimInt::U16 => "u16".to_owned(),
        PrimInt::U32 => "u32".to_owned(),
        PrimInt::U64 => "u64".to_owned(),
        PrimInt::I8 => "i8".to_owned(),
        PrimInt::I16 => "i16".to_owned(),
        PrimInt::I32 => "i32".to_owned(),
        PrimInt::I64 => "i64".to_owned(),
    }
}

/// The length and leading characters of each recognized name, enough to
/// tell any two of the eight apart.
proof fn lemma_name_literal_facts()
    ensures
        "u8"@.len() == 2 && "u8"@[0] == 'u' && "u8"@[1] == '8',
        "u16"@.len() == 3 && "u16"@[0] == 'u' && "u16"@[1] == '1',
        "u32"@.len() == 3 && "u32"@[0] == 'u' && "u32"@[1] == '3',
        "u64"@.len() == 3 && "u64"@[0] == 'u' && "u64"@[1] == '6',
        "i8"@.len() == 2 && "i8"@[0] == 'i' && "i8"@[1] == '8',
        "i16"@.len() == 3 && "i16"@[0] == 'i' && "i16"@[1] == '1',
        "i32"@.len() == 3 && "i32"@[0] == 'i' && "i32"@[1] == '3',
        "i64"@.len() == 3 && "i64"@[0] == 'i' && "i64"@[1] == '6',
{
    reveal_strlit("u8");
    reveal_strlit("u16");
    reveal_strlit("u32");
    reveal_strlit("u64");
    reveal_strlit("i8");
    reveal_strlit("i16");
    reveal_strlit("i32");
    reveal_strlit("i64");
}

/// Classification is faithful to the names: each recognized primitive
/// integer type is found again, and only it, from its own name.
pub proof fn lemma_classify_names()
    ensures
        forall|p: PrimInt| #[trigger] spec_classify(prim_name(p)) == Some(p),
{
    lemma_name_literal_facts();
    assert forall|p: PrimInt| #[trigger] spec_classify(prim_name(p)) == Some(p) by {
        match p {
            PrimInt::U8 => assert(spec_classify("u8"@) == Some(PrimInt::U8)),
            PrimInt::U16 => assert(spec_classify("u16"@) == Some(PrimInt::U16)),
            PrimInt::U32 => assert(spec_classify("u32"@) == Some(PrimInt::U32)),
            PrimInt::U64 => assert(spec_classify("u64"@) == Some(PrimInt::U64)),
            PrimInt::I8 => assert(spec_classify("i8"@) == Some(PrimInt::I8)),
            PrimInt::I16 => assert(spec_classify("i16"@) == Some(PrimInt::I16)),
            PrimInt::I32 => assert(spec_classify("i32"@) == Some(PrimInt::I32)),
            PrimInt::I64 => assert(spec_classify("i64"@) == Some(PrimInt::I64)),
        }
    }
}

/// Signedness branch exhaustiveness: every recognized name deterministically
/// selects exactly one signedness class; the four unsigned width names select
/// unsigned and the four signed width names select signed.
pub proof fn lemma_signedness_exhaustive()
    ensures
        forall|p: PrimInt| (#[trigger] signedness_of(p)) is Unsigned <==> !(signedness_of(p)
            is Signed),
        forall|s: Seq<char>|
            #[trigger] spec_classify(s) matches Some(p) ==> (signedness_of(p) is Unsigned <==> (s
                == "u8"@ || s == "u16"@ || s == "u32"@ || s == "u64"@)),
        forall|s: Seq<char>|
            #[trigger] spec_classify(s) matches Some(p) ==> (signedness_of(p) is Signed <==> (s
                == "i8"@ || s == "i16"@ || s == "i32"@ || s == "i64"@)),
{
    lemma_name_literal_facts();
}

} // verus!
