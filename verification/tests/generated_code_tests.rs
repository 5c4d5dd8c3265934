//! Each test here declares a type together with a conversion
//! implementation written exactly as the library emits it for that
//! type's shape, and checks the conversion's runtime behaviour: where
//! each value lands, and that wrapping is the inverse of unwrapping.

use derive_from::expand;
use derive_from::model::{FieldList, TypeBody, TypeDefinition, Variant};

struct MyInt(i32);

impl ::std::convert::From<i32> for MyInt {
    fn from(original: i32) -> MyInt {
        MyInt(original)
    }
}

struct Triple(u8, u16, u32);

impl ::std::convert::From<(u8, u16, u32)> for Triple {
    fn from(original: (u8, u16, u32)) -> Triple {
        Triple(original.0, original.1, original.2)
    }
}

struct Point {
    x: i64,
    y: bool,
}

impl ::std::convert::From<(i64, bool)> for Point {
    fn from(original: (i64, bool)) -> Point {
        Point { x: original.0, y: original.1 }
    }
}

enum Mixed {
    V1(i32),
    V2(String),
    V3(i32),
}

impl ::std::convert::From<String> for Mixed {
    fn from(original: String) -> Mixed {
        Mixed::V2(original)
    }
}

enum Maybe {
    V1,
    V2(u64),
}

impl ::std::convert::From<u64> for Maybe {
    fn from(original: u64) -> Maybe {
        Maybe::V2(original)
    }
}

#[test]
fn newtype_conversion_fills_the_sole_slot_and_roundtrips() {
    let emitted = expand(
        &TypeDefinition {
            name: "MyInt".to_string(),
            body: TypeBody::Record(FieldList::Positional(vec!["i32".to_string()])),
        },
        "",
    )
    .unwrap();
    assert_eq!(
        emitted,
        "impl ::std::convert::From<i32> for MyInt {\n    fn from(original: i32) -> MyInt {\n        MyInt(original)\n    }\n}\n"
    );

    for v in [-3_i32, 0, 7, i32::MAX] {
        let converted = MyInt::from(v);
        let manual = MyInt(v);
        assert_eq!(converted.0, manual.0);
        // unwrap, then rewrap: the identity
        let rewrapped = MyInt::from(converted.0);
        assert_eq!(rewrapped.0, v);
    }
}

#[test]
fn positional_group_conversion_places_each_tuple_element() {
    for (a, b, c) in [(0_u8, 0_u16, 0_u32), (1, 2, 3), (255, 65535, 4_000_000_000)] {
        let t = Triple::from((a, b, c));
        assert_eq!(t.0, a);
        assert_eq!(t.1, b);
        assert_eq!(t.2, c);
    }
}

#[test]
fn named_group_conversion_assigns_by_declaration_order() {
    let p = Point::from((-9_i64, true));
    assert_eq!(p.x, -9);
    assert!(p.y);
    let q = Point::from((42_i64, false));
    assert_eq!(q.x, 42);
    assert!(!q.y);
}

#[test]
fn union_conversion_wraps_the_unambiguous_variant() {
    let emitted = expand(
        &TypeDefinition {
            name: "Mixed".to_string(),
            body: TypeBody::Union(vec![
                Variant {
                    name: "V1".to_string(),
                    fields: FieldList::Positional(vec!["i32".to_string()]),
                },
                Variant {
                    name: "V2".to_string(),
                    fields: FieldList::Positional(vec!["String".to_string()]),
                },
                Variant {
                    name: "V3".to_string(),
                    fields: FieldList::Positional(vec!["i32".to_string()]),
                },
            ]),
        },
        "",
    )
    .unwrap();
    // one conversion, from the uniquely typed variant; none from the
    // ambiguous i32
    assert!(emitted.contains("From<String> for Mixed"));
    assert!(!emitted.contains("From<i32>"));

    let m = Mixed::from("hello".to_string());
    match m {
        Mixed::V2(s) => assert_eq!(s, "hello"),
        Mixed::V1(_) | Mixed::V3(_) => panic!("conversion must construct V2"),
    }
}

#[test]
fn union_conversion_skips_the_variant_without_data() {
    let m = Maybe::from(11_u64);
    match m {
        Maybe::V2(v) => assert_eq!(v, 11),
        Maybe::V1 => panic!("conversion must construct V2"),
    }
}
