//! Diagnostics: the structured compile-time errors the generator produces
//! instead of output, each with a message and a source-span anchor.

use vstd::prelude::*;

verus! {

/// Which span of the offending declaration a diagnostic is anchored to.
#[derive(Clone, Copy, PartialEq, Eq, Structural, Debug)]
pub enum SpanAnchor {
    /// The kind keyword (`enum` or `union`) of the declaration.
    KindKeyword,
    /// The declaration's whole outer attribute list.
    AttributeList,
    /// The declaration's field list.
    FieldList,
    /// The type expression of the sole field.
    InnerType,
}

/// The six ways a declaration can be rejected, in the order the checks run.
#[derive(Clone, Copy, PartialEq, Eq, Structural, Debug)]
pub enum DiagnosticKind {
    /// The declaration is a sum type or an overlapping-storage type.
    StructuralKind,
    /// The transparent-layout attribute is absent.
    MissingLayoutAttribute,
    /// The fields are named (or absent) rather than positional.
    FieldShape,
    /// The positional field count is not exactly one.
    FieldCount,
    /// The sole field's type is not a bare name.
    InnerTypeShape,
    /// The bare name is not a recognized primitive integer.
    InnerTypeIdentity,
}

/// A diagnostic: a rejection kind, its human-readable message, and the span
/// it is anchored to.
pub struct Diagnostic {
    pub kind: DiagnosticKind,
    pub message: String,
    pub anchor: SpanAnchor,
}

/// The message each rejection carries.
pub open spec fn spec_message(k: DiagnosticKind) -> Seq<char> {
    match k {
        DiagnosticKind::StructuralKind => "Item must be an `struct`."@,
        DiagnosticKind::MissingLayoutAttribute => "Missing `#[repr(transparent)]` attribute on `struct`."@,
        DiagnosticKind::FieldShape => "Item must be a tuple `struct` with one field."@,
        DiagnosticKind::FieldCount => "Item must have one field."@,
        DiagnosticKind::InnerTypeShape => "Inner type should be a primitive integer."@,
        DiagnosticKind::InnerTypeIdentity => "Inner type should be a primitive integer."@,
    }
}

/// The span each rejection is anchored to.
pub open spec fn spec_anchor(k: DiagnosticKind) -> SpanAnchor {
    match k {
        DiagnosticKind::StructuralKind => SpanAnchor::KindKeyword,
        DiagnosticKind::MissingLayoutAttribute => SpanAnchor::AttributeList,
        DiagnosticKind::FieldShape => SpanAnchor::FieldList,
        DiagnosticKind::FieldCount => SpanAnchor::FieldList,
        DiagnosticKind::InnerTypeShape => SpanAnchor::InnerType,
        DiagnosticKind::InnerTypeIdentity => SpanAnchor::InnerType,
    }
}

/// A well-formed diagnostic carries the message and anchor of its kind.
pub open spec fn diagnostic_well_formed(d: Diagnostic) -> bool {
    d.message@ == spec_message(d.kind) && d.anchor == spec_anchor(d.kind)
}

/// Builds the diagnostic for a rejection kind.
pub fn diagnostic_for(k: DiagnosticKind) -> (d: Diagnostic)
    ensures
        d.kind == k,
        diagnostic_well_formed(d),
{
    let message: String = match k {
        DiagnosticKind::StructuralKind => "Item must be an `struct`.".to_owned(),
        DiagnosticKind::MissingLayoutAttribute => "Missing `#[repr(transparent)]` attribute on `struct`.".to_owned(),
        DiagnosticKind::FieldShape => "Item must be a tuple `struct` with one field.".to_owned(),
        DiagnosticKind::FieldCount => "Item must have one field.".to_owned(),
        DiagnosticKind::InnerTypeShape => "Inner type should be a primitive integer.".to_owned(),
        DiagnosticKind::InnerTypeIdentity => "Inner type should be a primitive integer.".to_owned(),
    };
    let anchor = match k {
        DiagnosticKind::StructuralKind => SpanAnchor::KindKeyword,
        DiagnosticKind::MissingLayoutAttribute => SpanAnchor::AttributeList,
        DiagnosticKind::FieldShape => SpanAnchor::FieldList,
        DiagnosticKind::FieldCount => SpanAnchor::FieldList,
        DiagnosticKind::InnerTypeShape => SpanAnchor::InnerType,
        DiagnosticKind::InnerTypeIdentity => SpanAnchor::InnerType,
    };
    Diagnostic { kind: k, message, anchor }
}

} // verus!
