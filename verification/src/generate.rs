//! Validation of a declaration and synthesis of the ordered fragment
//! sequence of the generated output.

use vstd::prelude::*;

use crate::classify::{
    classify, is_recognized, signedness, signedness_of, spec_classify, PrimInt, Signedness,
};
use crate::decl::{has_layout_attr, has_layout_attribute, Decl, DeclKind, FieldType, Fields};
use crate::diagnostic::{
    diagnostic_for, diagnostic_well_formed, spec_anchor, Diagnostic, DiagnosticKind, SpanAnchor,
};

verus! {

/// One source fragment of the generated output. Each fragment stands for a
/// complete item of the emitted source, parameterized by the wrapper's
/// visibility, name, and inner primitive type.
#[derive(Clone, Copy, PartialEq, Eq, Structural, Debug)]
pub enum Fragment {
    /// The original declaration, unchanged.
    OriginalDecl,
    /// The binary addition operation.
    AddImpl,
    /// The zero identity: zero constructor and zero test.
    ZeroImpl,
    /// The binary multiplication operation.
    MulImpl,
    /// The one identity: one constructor.
    OneImpl,
    /// The binary subtraction operation.
    SubImpl,
    /// The binary division operation.
    DivImpl,
    /// The binary remainder operation.
    RemImpl,
    /// The generic numeric capability: radix-based string parsing delegated
    /// to the inner type's parser, with the inner parse-failure kind.
    NumImpl,
    /// The unsigned-numeric marker capability.
    UnsignedImpl,
    /// The unary negation operation.
    NegImpl,
    /// The signed-numeric capability: absolute value, clamped subtraction,
    /// sign value, and the two strict sign predicates.
    SignedImpl,
    /// The total conversion from the inner type to the wrapper.
    FromInnerImpl,
    /// The total conversion from the wrapper to the inner type.
    IntoInnerImpl,
    /// The three named constants `MIN`, `MAX`, `BITS` on the wrapper.
    ConstantsImpl,
}

/// The generated output for a validated declaration: the wrapper's
/// visibility and name carried over verbatim, the resolved inner primitive
/// type, and the ordered fragments of the emitted source.
pub struct Generated {
    pub visibility: String,
    pub name: String,
    pub inner: PrimInt,
    pub fragments: Vec<Fragment>,
}

/// The synthesized implementation fragments, in emission order: the five
/// arithmetic operations interleaved with the zero and one identities, the
/// numeric-parse capability, then the signedness-conditional block, then the
/// two conversions and the constants.
pub open spec fn spec_impl_fragments(s: Signedness) -> Seq<Fragment> {
    seq![
        Fragment::AddImpl,
        Fragment::ZeroImpl,
        Fragment::MulImpl,
        Fragment::OneImpl,
        Fragment::SubImpl,
        Fragment::DivImpl,
        Fragment::RemImpl,
        Fragment::NumImpl,
    ] + (match s {
        Signedness::Unsigned => seq![Fragment::UnsignedImpl],
        Signedness::Signed => seq![Fragment::NegImpl, Fragment::SignedImpl],
    }) + seq![Fragment::FromInnerImpl, Fragment::IntoInnerImpl, Fragment::ConstantsImpl]
}

/// The full generated output: the original declaration first, then the
/// synthesized implementation fragments, with no reordering.
pub open spec fn spec_output_fragments(s: Signedness) -> Seq<Fragment> {
    seq![Fragment::OriginalDecl] + spec_impl_fragments(s)
}

/// The checks on the sole field's type: it must be a bare name, and the name
/// must resolve to a recognized primitive integer type.
pub open spec fn spec_check_inner(t: FieldType) -> Result<PrimInt, DiagnosticKind> {
    match t {
        FieldType::Bare(n) => match spec_classify(n@) {
            Option::Some(p) => Result::Ok(p),
            Option::None => Result::Err(DiagnosticKind::InnerTypeIdentity),
        },
        FieldType::Other => Result::Err(DiagnosticKind::InnerTypeShape),
    }
}

/// The whole validation, fail-fast and in order: kind, layout attribute,
/// field shape, field count, inner type shape, inner type identity. Yields
/// the resolved inner primitive type, or the first rejection.
pub open spec fn spec_check(d: Decl) -> Result<PrimInt, DiagnosticKind> {
    if !(d.kind is Struct) {
        Result::Err(DiagnosticKind::StructuralKind)
    } else if !has_layout_attr(d.attrs@) {
        Result::Err(DiagnosticKind::MissingLayoutAttribute)
    } else {
        match d.fields {
            Fields::Positional(fs) => if fs@.len() != 1 {
                Result::Err(DiagnosticKind::FieldCount)
            } else {
                spec_check_inner(fs@[0])
            },
            _ => Result::Err(DiagnosticKind::FieldShape),
        }
    }
}

/// What a generated output must hold for a given declaration.
pub open spec fn generated_matches(
    g: Generated,
    visibility: Seq<char>,
    name: Seq<char>,
    p: PrimInt,
    fragments: Seq<Fragment>,
) -> bool {
    &&& g.visibility@ == visibility
    &&& g.name@ == name
    &&& g.inner == p
    &&& g.fragments@ == fragments
}

/// The contract of synthesis over a validated name and visibility with a
/// still-unchecked field type: exactly the implementation fragments of the
/// field's signedness class on acceptance, the first field-type rejection
/// otherwise.
pub open spec fn impl_result_matches(
    visibility: Seq<char>,
    name: Seq<char>,
    t: FieldType,
    r: Result<Generated, Diagnostic>,
) -> bool {
    match spec_check_inner(t) {
        Result::Ok(p) => r matches Ok(g) && generated_matches(
            g,
            visibility,
            name,
            p,
            spec_impl_fragments(signedness_of(p)),
        ),
        Result::Err(k) => r matches Err(e) && e.kind == k && diagnostic_well_formed(e),
    }
}

/// The contract of the whole generator: on a declaration that passes every
/// check, the full fragment sequence for the resolved inner type with the
/// declaration's own visibility and name; otherwise the diagnostic of the
/// first failing check, with its message and span anchor.
pub open spec fn result_matches(d: Decl, r: Result<Generated, Diagnostic>) -> bool {
    match spec_check(d) {
        Result::Ok(p) => r matches Ok(g) && generated_matches(
            g,
            d.visibility@,
            d.name@,
            p,
            spec_output_fragments(signedness_of(p)),
        ),
        Result::Err(k) => r matches Err(e) && e.kind == k && diagnostic_well_formed(e),
    }
}

/// Builds the synthesized implementation fragments for a signedness class.
fn impl_fragments(s: Signedness) -> (v: Vec<Fragment>)
    ensures
        v@ == spec_impl_fragments(s),
{
    let mut v: Vec<Fragment> = Vec::new();
    v.push(Fragment::AddImpl);
    v.push(Fragment::ZeroImpl);
    v.push(Fragment::MulImpl);
    v.push(Fragment::OneImpl);
    v.push(Fragment::SubImpl);
    v.push(Fragment::DivImpl);
    v.push(Fragment::RemImpl);
    v.push(Fragment::NumImpl);
    match s {
        Signedness::Unsigned => {
            v.push(Fragment::UnsignedImpl);
        },
        Signedness::Signed => {
            v.push(Fragment::NegImpl);
            v.push(Fragment::SignedImpl);
        },
    }
    v.push(Fragment::FromInnerImpl);
    v.push(Fragment::IntoInnerImpl);
    v.push(Fragment::ConstantsImpl);
    proof {
        assert(v@ =~= spec_impl_fragments(s));
    }
    v
}

/// Synthesizes the implementation fragments for a wrapper declaration whose
/// shape has already been checked, after checking its field type: the field
/// type must be a bare name resolving to a primitive integer type, and the
/// emitted block is decided by that type's signedness.
pub fn impl_num_type(visibility: &String, name: &String, inner_type: &FieldType) -> (r: Result<
    Generated,
    Diagnostic,
>)
    ensures
        impl_result_matches(visibility@, name@, *inner_type, r),
{
    let inner_name = match inner_type {
        FieldType::Bare(n) => n,
        FieldType::Other => {
            return Result::Err(diagnostic_for(DiagnosticKind::InnerTypeShape));
        },
    };
    let p = match classify(inner_name) {
        Option::Some(p) => p,
        Option::None => {
            return Result::Err(diagnostic_for(DiagnosticKind::InnerTypeIdentity));
        },
    };
    let fragments = impl_fragments(signedness(p));
    Result::Ok(
        Generated { visibility: visibility.clone(), name: name.clone(), inner: p, fragments },
    )
}

/// The generator: validates the declaration fail-fast, and on success
/// returns the original declaration followed by the synthesized
/// implementation fragments; on the first failing check, its diagnostic.
pub fn num_type(decl: &Decl) -> (r: Result<Generated, Diagnostic>)
    ensures
        result_matches(*decl, r),
{
    match decl.kind {
        DeclKind::Enum | DeclKind::Union => {
            return Result::Err(diagnostic_for(DiagnosticKind::StructuralKind));
        },
        DeclKind::Struct => {},
    }
    if !has_layout_attribute(&decl.attrs) {
        return Result::Err(diagnostic_for(DiagnosticKind::MissingLayoutAttribute));
    }
    let fs = match &decl.fields {
        Fields::Positional(fs) => fs,
        _ => {
            return Result::Err(diagnostic_for(DiagnosticKind::FieldShape));
        },
    };
    if fs.len() != 1 {
        return Result::Err(diagnostic_for(DiagnosticKind::FieldCount));
    }
    match impl_num_type(&decl.visibility, &decl.name, &fs[0]) {
        Result::Ok(g) => {
            let mut g = g;
            g.fragments.insert(0, Fragment::OriginalDecl);
            proof {
                assert(g.fragments@ =~= spec_output_fragments(signedness_of(g.inner)));
            }
            Result::Ok(g)
        },
        Result::Err(e) => Result::Err(e),
    }
}

/// Acceptance of every correct shape: a struct with the transparent-layout
/// attribute and exactly one positional field whose type is a bare
/// recognized primitive integer name passes validation, whichever of the
/// eight names it is, so generation yields output and no diagnostic.
pub proof fn lemma_well_shaped_accepted(d: Decl)
    requires
        d.kind is Struct,
        has_layout_attr(d.attrs@),
        ({
            &&& d.fields matches Fields::Positional(fs)
            &&& fs@.len() == 1
            &&& fs@[0] matches FieldType::Bare(n)
            &&& is_recognized(n@)
        }),
    ensures
        spec_check(d) is Ok,
{
}

/// A sum type or an overlapping-storage type is rejected as such, whatever
/// the rest of the declaration holds, with the diagnostic anchored to the
/// kind keyword.
pub proof fn lemma_kind_rejected(d: Decl)
    requires
        d.kind is Enum || d.kind is Union,
    ensures
        spec_check(d) == Result::<PrimInt, DiagnosticKind>::Err(DiagnosticKind::StructuralKind),
        spec_anchor(DiagnosticKind::StructuralKind) == SpanAnchor::KindKeyword,
{
}

/// A struct without the transparent-layout attribute is rejected for that,
/// regardless of which other attributes are present, with the diagnostic
/// anchored over the whole attribute list.
pub proof fn lemma_missing_layout_attribute_rejected(d: Decl)
    requires
        d.kind is Struct,
        !has_layout_attr(d.attrs@),
    ensures
        spec_check(d) == Result::<PrimInt, DiagnosticKind>::Err(
            DiagnosticKind::MissingLayoutAttribute,
        ),
        spec_anchor(DiagnosticKind::MissingLayoutAttribute) == SpanAnchor::AttributeList,
{
}

/// A struct whose fields are named, or absent, rather than positional is
/// rejected for its field shape, with the diagnostic anchored to the field
/// list.
pub proof fn lemma_field_shape_rejected(d: Decl)
    requires
        d.kind is Struct,
        has_layout_attr(d.attrs@),
        !(d.fields is Positional),
    ensures
        spec_check(d) == Result::<PrimInt, DiagnosticKind>::Err(DiagnosticKind::FieldShape),
        spec_anchor(DiagnosticKind::FieldShape) == SpanAnchor::FieldList,
{
}

/// A positional struct with zero fields, or two or more, is rejected for
/// its field count, with the diagnostic anchored to the field list.
pub proof fn lemma_field_count_rejected(d: Decl)
    requires
        d.kind is Struct,
        has_layout_attr(d.attrs@),
        d.fields matches Fields::Positional(fs) && fs@.len() != 1,
    ensures
        spec_check(d) == Result::<PrimInt, DiagnosticKind>::Err(DiagnosticKind::FieldCount),
        spec_anchor(DiagnosticKind::FieldCount) == SpanAnchor::FieldList,
{
}

/// A sole field whose type is not a bare name — qualified, generic, or any
/// other type expression — is rejected for its shape, with the diagnostic
/// anchored to the type expression.
pub proof fn lemma_inner_type_shape_rejected(d: Decl)
    requires
        d.kind is Struct,
        has_layout_attr(d.attrs@),
        d.fields matches Fields::Positional(fs) && fs@.len() == 1 && fs@[0] is Other,
    ensures
        spec_check(d) == Result::<PrimInt, DiagnosticKind>::Err(DiagnosticKind::InnerTypeShape),
        spec_anchor(DiagnosticKind::InnerTypeShape) == SpanAnchor::InnerType,
{
}

/// A sole field whose type is a bare name outside the eight recognized
/// primitive integer names is rejected for its identity, with the diagnostic
/// anchored to the type expression.
pub proof fn lemma_inner_type_identity_rejected(d: Decl)
    requires
        d.kind is Struct,
        has_layout_attr(d.attrs@),
        ({
            &&& d.fields matches Fields::Positional(fs)
            &&& fs@.len() == 1
            &&& fs@[0] matches FieldType::Bare(n)
            &&& !is_recognized(n@)
        }),
    ensures
        spec_check(d) == Result::<PrimInt, DiagnosticKind>::Err(DiagnosticKind::InnerTypeIdentity),
        spec_anchor(DiagnosticKind::InnerTypeIdentity) == SpanAnchor::InnerType,
{
}

/// Generation is deterministic and has no memory of prior calls: any two
/// results that satisfy the generator's contract for the same declaration
/// agree in every observable part — acceptance, inner type, fragment
/// sequence, visibility, name, message, and anchor.
pub proof fn lemma_generation_deterministic(
    d: Decl,
    r1: Result<Generated, Diagnostic>,
    r2: Result<Generated, Diagnostic>,
)
    requires
        result_matches(d, r1),
        result_matches(d, r2),
    ensures
        r1 is Ok <==> r2 is Ok,
        r1 matches Ok(g1) ==> r2 matches Ok(g2) && g1.inner == g2.inner && g1.fragments@
            == g2.fragments@ && g1.name@ == g2.name@ && g1.visibility@ == g2.visibility@,
        r1 matches Err(e1) ==> r2 matches Err(e2) && e1.kind == e2.kind && e1.message@
            == e2.message@ && e1.anchor == e2.anchor,
{
}

} // verus!
