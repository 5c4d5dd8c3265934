use derive_from::classify::{classify, Shape};
use derive_from::expand;
use derive_from::model::{DeriveError, FieldList, NamedField, TypeBody, TypeDefinition, Variant};

fn def(name: &str, body: TypeBody) -> TypeDefinition {
    TypeDefinition { name: name.to_string(), body }
}

fn pos(tys: &[&str]) -> FieldList {
    FieldList::Positional(tys.iter().map(|t| t.to_string()).collect())
}

fn named(fields: &[(&str, &str)]) -> FieldList {
    FieldList::Named(
        fields
            .iter()
            .map(|(n, t)| NamedField { name: n.to_string(), ty: t.to_string() })
            .collect(),
    )
}

fn variant(name: &str, fields: FieldList) -> Variant {
    Variant { name: name.to_string(), fields }
}

#[test]
fn newtype_wrap_emits_single_slot_constructor() {
    let td = def("MyInt", TypeBody::Record(pos(&["i32"])));
    let out = expand(&td, "").unwrap();
    assert_eq!(
        out,
        "impl ::std::convert::From<i32> for MyInt {\n    fn from(original: i32) -> MyInt {\n        MyInt(original)\n    }\n}\n"
    );
}

#[test]
fn newtype_named_assigns_the_field() {
    let td = def("Wrapper", TypeBody::Record(named(&[("value", "String")])));
    let out = expand(&td, "").unwrap();
    assert_eq!(
        out,
        "impl ::std::convert::From<String> for Wrapper {\n    fn from(original: String) -> Wrapper {\n        Wrapper { value: original }\n    }\n}\n"
    );
}

#[test]
fn positional_group_of_three_maps_by_position() {
    let td = def("Triple", TypeBody::Record(pos(&["u8", "u16", "u32"])));
    let out = expand(&td, "").unwrap();
    assert_eq!(
        out,
        "impl ::std::convert::From<(u8, u16, u32)> for Triple {\n    fn from(original: (u8, u16, u32)) -> Triple {\n        Triple(original.0, original.1, original.2)\n    }\n}\n"
    );
}

#[test]
fn named_group_of_two_maps_tuple_elements_in_declaration_order() {
    let td = def("Point", TypeBody::Record(named(&[("x", "i64"), ("y", "bool")])));
    let out = expand(&td, "").unwrap();
    assert_eq!(
        out,
        "impl ::std::convert::From<(i64, bool)> for Point {\n    fn from(original: (i64, bool)) -> Point {\n        Point { x: original.0, y: original.1 }\n    }\n}\n"
    );
}

#[test]
fn named_group_mapping_ignores_what_the_names_are() {
    // same declared types, very different names: the emitted mapping is
    // the same positional one
    let td = def("Swapped", TypeBody::Record(named(&[("second", "i64"), ("first", "bool")])));
    let out = expand(&td, "").unwrap();
    assert_eq!(
        out,
        "impl ::std::convert::From<(i64, bool)> for Swapped {\n    fn from(original: (i64, bool)) -> Swapped {\n        Swapped { second: original.0, first: original.1 }\n    }\n}\n"
    );
}

#[test]
fn wide_positional_group_writes_two_digit_indices() {
    let tys: Vec<&str> = vec!["u8"; 11];
    let td = def("Wide", TypeBody::Record(pos(&tys)));
    let out = expand(&td, "").unwrap();
    let src = "(u8, u8, u8, u8, u8, u8, u8, u8, u8, u8, u8)";
    let args = "original.0, original.1, original.2, original.3, original.4, original.5, \
                original.6, original.7, original.8, original.9, original.10";
    let expected = format!(
        "impl ::std::convert::From<{src}> for Wide {{\n    fn from(original: {src}) -> Wide {{\n        Wide({args})\n    }}\n}}\n"
    );
    assert_eq!(out, expected);
}

#[test]
fn union_with_duplicate_type_converts_only_the_unique_one() {
    let td = def(
        "Mixed",
        TypeBody::Union(vec![
            variant("V1", pos(&["i32"])),
            variant("V2", pos(&["String"])),
            variant("V3", pos(&["i32"])),
        ]),
    );
    let out = expand(&td, "").unwrap();
    assert_eq!(
        out,
        "impl ::std::convert::From<String> for Mixed {\n    fn from(original: String) -> Mixed {\n        Mixed::V2(original)\n    }\n}\n"
    );
    assert!(!out.contains("From<i32>"));
}

#[test]
fn union_skips_no_data_variant_and_converts_the_single_field_one() {
    let td = def(
        "Maybe",
        TypeBody::Union(vec![
            variant("V1", FieldList::NoFields),
            variant("V2", pos(&["u64"])),
        ]),
    );
    let out = expand(&td, "").unwrap();
    assert_eq!(
        out,
        "impl ::std::convert::From<u64> for Maybe {\n    fn from(original: u64) -> Maybe {\n        Maybe::V2(original)\n    }\n}\n"
    );
}

#[test]
fn union_of_no_data_and_multi_field_variants_emits_nothing() {
    let td = def(
        "Quiet",
        TypeBody::Union(vec![
            variant("A", FieldList::NoFields),
            variant("B", pos(&["u8", "u8"])),
            variant("C", named(&[("x", "u8")])),
        ]),
    );
    let out = expand(&td, "").unwrap();
    assert_eq!(out, "");
}

#[test]
fn union_emits_in_declaration_order() {
    let td = def(
        "Two",
        TypeBody::Union(vec![
            variant("Second", pos(&["String"])),
            variant("First", pos(&["i32"])),
        ]),
    );
    let out = expand(&td, "").unwrap();
    let first = "impl ::std::convert::From<String> for Two {\n    fn from(original: String) -> Two {\n        Two::Second(original)\n    }\n}\n";
    let second = "impl ::std::convert::From<i32> for Two {\n    fn from(original: i32) -> Two {\n        Two::First(original)\n    }\n}\n";
    assert_eq!(out, format!("{first}{second}"));
}

#[test]
fn union_treats_different_spellings_as_different_types() {
    // canonical text equality, not semantic equality: `Vec<u8>` and
    // `Vec< u8 >` count as distinct keys
    let td = def(
        "Spell",
        TypeBody::Union(vec![
            variant("V1", pos(&["Vec<u8>"])),
            variant("V2", pos(&["Vec< u8 >"])),
        ]),
    );
    let out = expand(&td, "").unwrap();
    assert!(out.contains("From<Vec<u8>> for Spell"));
    assert!(out.contains("From<Vec< u8 >> for Spell"));
}

#[test]
fn empty_record_is_unsupported() {
    let td = def("Empty", TypeBody::Record(pos(&[])));
    let r = expand(&td, "");
    match r {
        Err(DeriveError::UnsupportedShape { offending_type }) => {
            assert_eq!(offending_type, "Empty");
        }
        Ok(_) => panic!("an empty record must not expand"),
    }
}

#[test]
fn empty_named_record_is_unsupported() {
    let td = def("EmptyNamed", TypeBody::Record(named(&[])));
    assert!(matches!(
        expand(&td, ""),
        Err(DeriveError::UnsupportedShape { .. })
    ));
}

#[test]
fn empty_union_is_unsupported() {
    let td = def("Never", TypeBody::Union(vec![]));
    let r = expand(&td, "");
    match r {
        Err(DeriveError::UnsupportedShape { offending_type }) => {
            assert_eq!(offending_type, "Never");
        }
        Ok(_) => panic!("an empty union must not expand"),
    }
}

#[test]
fn body_without_fields_is_unsupported() {
    let td = def("Unit", TypeBody::Record(FieldList::NoFields));
    assert!(matches!(
        expand(&td, ""),
        Err(DeriveError::UnsupportedShape { .. })
    ));
}

#[test]
fn error_message_names_the_offending_type() {
    let e = DeriveError::UnsupportedShape { offending_type: "Bad".to_string() };
    assert_eq!(
        e.message(),
        "Only structs with fields and enums with variants can derive From: Bad"
    );
}

#[test]
fn classify_distinguishes_the_five_shapes() {
    let newtype = def("A", TypeBody::Record(pos(&["u8"])));
    assert!(matches!(
        classify(&newtype),
        Ok(Shape::NewtypeWrap(t)) if t.as_str() == "u8"
    ));

    let group = def("B", TypeBody::Record(pos(&["u8", "u16"])));
    assert!(matches!(
        classify(&group),
        Ok(Shape::PositionalGroup(ts)) if ts.len() == 2
    ));

    let newtype_named = def("C", TypeBody::Record(named(&[("x", "u8")])));
    assert!(matches!(
        classify(&newtype_named),
        Ok(Shape::NewtypeNamed(f)) if f.name.as_str() == "x" && f.ty.as_str() == "u8"
    ));

    let named_group = def("D", TypeBody::Record(named(&[("x", "u8"), ("y", "u16")])));
    assert!(matches!(
        classify(&named_group),
        Ok(Shape::NamedGroup(fs)) if fs.len() == 2
    ));

    let union = def("E", TypeBody::Union(vec![variant("V", FieldList::NoFields)]));
    assert!(matches!(
        classify(&union),
        Ok(Shape::UnionVariants(vs)) if vs.len() == 1
    ));

    let unit = def("F", TypeBody::Record(FieldList::NoFields));
    assert!(matches!(
        classify(&unit),
        Err(DeriveError::UnsupportedShape { .. })
    ));
}
