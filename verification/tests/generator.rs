use num_type::classify::{classify, name_of, signedness, PrimInt, Signedness};
use num_type::decl::{Attr, Decl, DeclKind, FieldType, Fields};
use num_type::diagnostic::{DiagnosticKind, SpanAnchor};
use num_type::generate::Fragment;
use num_type::num_type;

fn layout_attr() -> Attr {
    Attr { is_outer: true, path: "repr".to_owned(), arg_is_transparent: true }
}

fn wrapper_decl(inner: &str) -> Decl {
    Decl {
        kind: DeclKind::Struct,
        attrs: vec![layout_attr()],
        visibility: "pub".to_owned(),
        name: "Meters".to_owned(),
        fields: Fields::Positional(vec![FieldType::Bare(inner.to_owned())]),
    }
}

fn always_emitted_head() -> Vec<Fragment> {
    vec![
        Fragment::OriginalDecl,
        Fragment::AddImpl,
        Fragment::ZeroImpl,
        Fragment::MulImpl,
        Fragment::OneImpl,
        Fragment::SubImpl,
        Fragment::DivImpl,
        Fragment::RemImpl,
        Fragment::NumImpl,
    ]
}

fn always_emitted_tail() -> Vec<Fragment> {
    vec![Fragment::FromInnerImpl, Fragment::IntoInnerImpl, Fragment::ConstantsImpl]
}

fn expected_fragments(s: Signedness) -> Vec<Fragment> {
    let mut v = always_emitted_head();
    match s {
        Signedness::Unsigned => v.push(Fragment::UnsignedImpl),
        Signedness::Signed => {
            v.push(Fragment::NegImpl);
            v.push(Fragment::SignedImpl);
        }
    }
    v.extend(always_emitted_tail());
    v
}

#[test]
fn all_eight_names_accepted() {
    for name in ["u8", "u16", "u32", "u64", "i8", "i16", "i32", "i64"] {
        let r = num_type(&wrapper_decl(name));
        assert!(r.is_ok(), "{name} was rejected");
    }
}

#[test]
fn enum_declaration_rejected() {
    let d = Decl {
        kind: DeclKind::Enum,
        attrs: vec![layout_attr()],
        visibility: "pub".to_owned(),
        name: "Meters".to_owned(),
        fields: Fields::Positional(vec![FieldType::Bare("i32".to_owned())]),
    };
    let e = num_type(&d).err().expect("enum must be rejected");
    assert_eq!(e.kind, DiagnosticKind::StructuralKind);
    assert_eq!(e.anchor, SpanAnchor::KindKeyword);
    assert_eq!(e.message, "Item must be an `struct`.");
}

#[test]
fn union_declaration_rejected() {
    let d = Decl {
        kind: DeclKind::Union,
        attrs: vec![layout_attr()],
        visibility: "pub".to_owned(),
        name: "Meters".to_owned(),
        fields: Fields::Named(vec![FieldType::Bare("i32".to_owned())]),
    };
    let e = num_type(&d).err().expect("union must be rejected");
    assert_eq!(e.kind, DiagnosticKind::StructuralKind);
    assert_eq!(e.anchor, SpanAnchor::KindKeyword);
}

#[test]
fn missing_layout_attribute_rejected() {
    let mut d = wrapper_decl("i32");
    d.attrs = vec![];
    let e = num_type(&d).err().expect("missing attribute must be rejected");
    assert_eq!(e.kind, DiagnosticKind::MissingLayoutAttribute);
    assert_eq!(e.anchor, SpanAnchor::AttributeList);
    assert_eq!(e.message, "Missing `#[repr(transparent)]` attribute on `struct`.");
}

#[test]
fn other_attributes_do_not_count_as_layout() {
    let mut d = wrapper_decl("i32");
    d.attrs = vec![
        // an unrelated outer attribute
        Attr { is_outer: true, path: "derive".to_owned(), arg_is_transparent: false },
        // a repr attribute whose argument is not the transparent keyword
        Attr { is_outer: true, path: "repr".to_owned(), arg_is_transparent: false },
        // an inner (non-outer) repr(transparent)
        Attr { is_outer: false, path: "repr".to_owned(), arg_is_transparent: true },
    ];
    let e = num_type(&d).err().expect("no outer repr(transparent) present");
    assert_eq!(e.kind, DiagnosticKind::MissingLayoutAttribute);
    assert_eq!(e.anchor, SpanAnchor::AttributeList);
}

#[test]
fn layout_attribute_found_among_others() {
    let mut d = wrapper_decl("i32");
    d.attrs = vec![
        Attr { is_outer: true, path: "derive".to_owned(), arg_is_transparent: false },
        layout_attr(),
    ];
    assert!(num_type(&d).is_ok());
}

#[test]
fn named_fields_rejected() {
    let mut d = wrapper_decl("i32");
    d.fields = Fields::Named(vec![FieldType::Bare("i32".to_owned())]);
    let e = num_type(&d).err().expect("named fields must be rejected");
    assert_eq!(e.kind, DiagnosticKind::FieldShape);
    assert_eq!(e.anchor, SpanAnchor::FieldList);
    assert_eq!(e.message, "Item must be a tuple `struct` with one field.");
}

#[test]
fn unit_struct_rejected() {
    let mut d = wrapper_decl("i32");
    d.fields = Fields::Unit;
    let e = num_type(&d).err().expect("a unit struct has no positional field");
    assert_eq!(e.kind, DiagnosticKind::FieldShape);
    assert_eq!(e.anchor, SpanAnchor::FieldList);
}

#[test]
fn zero_fields_rejected() {
    let mut d = wrapper_decl("i32");
    d.fields = Fields::Positional(vec![]);
    let e = num_type(&d).err().expect("zero fields must be rejected");
    assert_eq!(e.kind, DiagnosticKind::FieldCount);
    assert_eq!(e.anchor, SpanAnchor::FieldList);
    assert_eq!(e.message, "Item must have one field.");
}

#[test]
fn two_positional_i32_fields_rejected() {
    let mut d = wrapper_decl("i32");
    d.fields = Fields::Positional(vec![
        FieldType::Bare("i32".to_owned()),
        FieldType::Bare("i32".to_owned()),
    ]);
    let e = num_type(&d).err().expect("two fields must be rejected, no output");
    assert_eq!(e.kind, DiagnosticKind::FieldCount);
    assert_eq!(e.anchor, SpanAnchor::FieldList);
}

#[test]
fn non_bare_field_type_rejected() {
    let mut d = wrapper_decl("i32");
    // a qualified or generic type expression is anything but a bare name
    d.fields = Fields::Positional(vec![FieldType::Other]);
    let e = num_type(&d).err().expect("a non-bare type must be rejected");
    assert_eq!(e.kind, DiagnosticKind::InnerTypeShape);
    assert_eq!(e.anchor, SpanAnchor::InnerType);
    assert_eq!(e.message, "Inner type should be a primitive integer.");
}

#[test]
fn float_name_rejected() {
    let e = num_type(&wrapper_decl("f32")).err().expect("f32 is not recognized");
    assert_eq!(e.kind, DiagnosticKind::InnerTypeIdentity);
    assert_eq!(e.anchor, SpanAnchor::InnerType);
    assert_eq!(e.message, "Inner type should be a primitive integer.");
}

#[test]
fn pointer_sized_name_rejected() {
    let e = num_type(&wrapper_decl("usize")).err().expect("usize is not recognized");
    assert_eq!(e.kind, DiagnosticKind::InnerTypeIdentity);
}

#[test]
fn user_defined_name_rejected() {
    let e = num_type(&wrapper_decl("MyInt")).err().expect("a user type is not recognized");
    assert_eq!(e.kind, DiagnosticKind::InnerTypeIdentity);
}

#[test]
fn generation_is_deterministic() {
    let d = wrapper_decl("i16");
    let g1 = num_type(&d).ok().expect("valid declaration");
    let g2 = num_type(&d).ok().expect("valid declaration");
    assert_eq!(g1.inner, g2.inner);
    assert_eq!(g1.fragments, g2.fragments);
    assert_eq!(g1.name, g2.name);
    assert_eq!(g1.visibility, g2.visibility);

    let bad = wrapper_decl("f64");
    let e1 = num_type(&bad).err().expect("rejected");
    let e2 = num_type(&bad).err().expect("rejected");
    assert_eq!(e1.kind, e2.kind);
    assert_eq!(e1.message, e2.message);
    assert_eq!(e1.anchor, e2.anchor);
}

#[test]
fn signed_scenario_meters_i32() {
    let g = num_type(&wrapper_decl("i32")).ok().expect("valid declaration");
    assert_eq!(g.visibility, "pub");
    assert_eq!(g.name, "Meters");
    assert_eq!(g.inner, PrimInt::I32);
    assert_eq!(g.fragments, expected_fragments(Signedness::Signed));
    assert!(g.fragments.contains(&Fragment::NegImpl));
    assert!(g.fragments.contains(&Fragment::SignedImpl));
    assert!(!g.fragments.contains(&Fragment::UnsignedImpl));
}

#[test]
fn unsigned_scenario_meters_u64() {
    let g = num_type(&wrapper_decl("u64")).ok().expect("valid declaration");
    assert_eq!(g.inner, PrimInt::U64);
    assert_eq!(g.fragments, expected_fragments(Signedness::Unsigned));
    assert!(g.fragments.contains(&Fragment::UnsignedImpl));
    assert!(!g.fragments.contains(&Fragment::NegImpl));
    assert!(!g.fragments.contains(&Fragment::SignedImpl));
}

#[test]
fn original_declaration_comes_first_unchanged() {
    for name in ["u8", "i64"] {
        let g = num_type(&wrapper_decl(name)).ok().expect("valid declaration");
        assert_eq!(g.fragments[0], Fragment::OriginalDecl);
        assert_eq!(
            g.fragments.iter().filter(|f| **f == Fragment::OriginalDecl).count(),
            1
        );
    }
}

#[test]
fn signedness_classification_of_the_eight_names() {
    let unsigned = ["u8", "u16", "u32", "u64"];
    let signed = ["i8", "i16", "i32", "i64"];
    for name in unsigned {
        let p = classify(&name.to_owned()).expect("recognized");
        assert_eq!(signedness(p), Signedness::Unsigned, "{name}");
    }
    for name in signed {
        let p = classify(&name.to_owned()).expect("recognized");
        assert_eq!(signedness(p), Signedness::Signed, "{name}");
    }
}

#[test]
fn classification_round_trips_through_names() {
    for p in [
        PrimInt::U8,
        PrimInt::U16,
        PrimInt::U32,
        PrimInt::U64,
        PrimInt::I8,
        PrimInt::I16,
        PrimInt::I32,
        PrimInt::I64,
    ] {
        assert_eq!(classify(&name_of(p)), Some(p));
    }
}
