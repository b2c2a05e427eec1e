//! The structural model of a parsed type declaration: what the generator
//! reads of a declaration, held as plain values.

use vstd::prelude::*;

verus! {

/// The kind of item a declaration introduces: a product type, a sum type, or
/// an overlapping-storage type.
#[derive(Clone, Copy, PartialEq, Eq, Structural, Debug)]
pub enum DeclKind {
    Struct,
    Enum,
    Union,
}

/// One attribute attached to a declaration, reduced to what the layout check
/// reads: whether it is an outer attribute, its path, and whether its
/// argument list can be interpreted as the `transparent` keyword.
pub struct Attr {
    pub is_outer: bool,
    pub path: String,
    pub arg_is_transparent: bool,
}

/// The type of one field, reduced to what the generator reads: either a bare
/// name (a plain single-segment path with no qualifying self-type and no
/// generic arguments) or anything else.
pub enum FieldType {
    Bare(String),
    Other,
}

/// The field list of a declaration: absent, named, or positional
/// (tuple-style).
pub enum Fields {
    Unit,
    Named(Vec<FieldType>),
    Positional(Vec<FieldType>),
}

/// A parsed type declaration, as handed to the generator.
pub struct Decl {
    pub kind: DeclKind,
    pub attrs: Vec<Attr>,
    pub visibility: String,
    pub name: String,
    pub fields: Fields,
}

/// An attribute requests identical layout to the sole field when it is an
/// outer `repr` attribute whose argument reads as `transparent`.
pub open spec fn is_layout_attr(a: Attr) -> bool {
    a.is_outer && a.path@ == "repr"@ && a.arg_is_transparent
}

/// Whether some attribute in the list requests the transparent layout.
pub open spec fn has_layout_attr(attrs: Seq<Attr>) -> bool {
    exists|i: int| 0 <= i < attrs.len() && is_layout_attr(#[trigger] attrs[i])
}

/// Scans the attribute list for the transparent-layout attribute.
pub fn has_layout_attribute(attrs: &Vec<Attr>) -> (r: bool)
    ensures
        r == has_layout_attr(attrs@),
{
    let repr: String = "repr".to_owned();
    let mut i: usize = 0;
    while i < attrs.len()
        invariant
            0 <= i <= attrs@.len(),
            repr@ == "repr"@,
            forall|j: int| 0 <= j < i ==> !is_layout_attr(#[trigger] attrs@[j]),
        decreases attrs@.len() - i,
    {
        let a = &attrs[i];
        if a.is_outer && a.path == repr && a.arg_is_transparent {
            assert(is_layout_attr(attrs@[i as int]));
            return true;
        }
        i = i + 1;
    }
    false
}

} // verus!
