//! The schema codec on concrete values: round trips, the scalar form of a
//! one-element type set, extension capture, and the decode errors.

use openapi::codec::DecodeError;
use openapi::schema::{Discriminator, ExternalDocument, Format, FormatOrString, Schema,
    Type, Xml};
use openapi::value::{get_entry, Any};

fn entries(v: &Any) -> &Vec<(String, Any)> {
    match v {
        Any::Object(es) => es,
        _ => panic!("expected an object"),
    }
}

#[test]
fn empty_schema_encodes_to_empty_object() {
    let v = Schema::default().encode();
    assert!(entries(&v).is_empty());
}

#[test]
fn single_type_encodes_as_bare_scalar() {
    let mut s = Schema::default();
    s.types = vec![Type::String];
    let v = s.encode();
    match get_entry(entries(&v), "type") {
        Some(Any::Text(t)) => assert_eq!(t, "string"),
        _ => panic!("type did not encode as a bare string"),
    }
    let back = Schema::decode(&v).unwrap();
    assert_eq!(back.types, vec![Type::String]);
}

#[test]
fn two_types_encode_as_a_list() {
    let mut s = Schema::default();
    s.types = vec![Type::String, Type::Null];
    let v = s.encode();
    match get_entry(entries(&v), "type") {
        Some(Any::Array(a)) => assert_eq!(a.len(), 2),
        _ => panic!("type did not encode as a list"),
    }
    let back = Schema::decode(&v).unwrap();
    assert_eq!(back.types, vec![Type::String, Type::Null]);
}

#[test]
fn scalar_type_decodes_into_a_set() {
    let v = Any::Object(vec![("type".to_owned(), Any::Text("integer".to_owned()))]);
    let s = Schema::decode(&v).unwrap();
    assert_eq!(s.types, vec![Type::Integer]);
}

#[test]
fn keyword_children_round_trip() {
    let mut child = Schema::default();
    child.types = vec![Type::String];
    child.max_length = Some(12);
    let mut s = Schema::default();
    s.title = Some("Pet".to_owned());
    s.required = vec!["name".to_owned(), "tag".to_owned()];
    s.unique_items = true;
    s.multiple_of = Some("2.5".to_owned());
    s.enumeration = vec!["a".to_owned(), "b".to_owned()];
    s.format = Some(FormatOrString::Other("weird-tag".to_owned()));
    s.properties = Some(vec![("name".to_owned(), child)]);
    s.extensions = vec![("x-vendor".to_owned(), Any::Bool(true))];
    let back = Schema::decode(&s.encode()).unwrap();
    assert_eq!(back.title.as_deref(), Some("Pet"));
    assert_eq!(back.required, vec!["name".to_owned(), "tag".to_owned()]);
    assert!(back.unique_items);
    assert_eq!(back.multiple_of.as_deref(), Some("2.5"));
    assert_eq!(back.enumeration, vec!["a".to_owned(), "b".to_owned()]);
    assert!(matches!(&back.format, Some(FormatOrString::Other(t)) if t == "weird-tag"));
    let props = back.properties.as_ref().unwrap();
    assert_eq!(props.len(), 1);
    assert_eq!(props[0].0, "name");
    assert_eq!(props[0].1.types, vec![Type::String]);
    assert_eq!(props[0].1.max_length, Some(12));
    assert_eq!(back.extensions.len(), 1);
    assert_eq!(back.extensions[0].0, "x-vendor");
    assert!(matches!(back.extensions[0].1, Any::Bool(true)));
}

#[test]
fn recognized_format_keeps_canonical_spelling() {
    let mut s = Schema::default();
    s.format = Some(FormatOrString::Format(Format::Uri));
    let v = s.encode();
    match get_entry(entries(&v), "format") {
        Some(Any::Text(t)) => assert_eq!(t, "uri"),
        _ => panic!("format did not encode as a string"),
    }
}

#[test]
fn format_alias_decodes_to_canonical_tag() {
    let v = Any::Object(vec![("format".to_owned(), Any::Text("url".to_owned()))]);
    let s = Schema::decode(&v).unwrap();
    assert!(matches!(s.format, Some(FormatOrString::Format(Format::Uri))));
}

#[test]
fn size_bound_encodes_as_canonical_decimal() {
    let mut s = Schema::default();
    s.max_length = Some(7);
    let v = s.encode();
    match get_entry(entries(&v), "maxLength") {
        Some(Any::Number(t)) => assert_eq!(t, "7"),
        _ => panic!("maxLength did not encode as a number"),
    }
    let back = Schema::decode(&v).unwrap();
    assert_eq!(back.max_length, Some(7));
}

#[test]
fn unknown_keys_land_in_extensions() {
    let v = Any::Object(vec![
        ("title".to_owned(), Any::Text("T".to_owned())),
        ("x-one".to_owned(), Any::Null),
        ("x-two".to_owned(), Any::Number("3".to_owned())),
    ]);
    let s = Schema::decode(&v).unwrap();
    assert_eq!(s.title.as_deref(), Some("T"));
    assert_eq!(s.extensions.len(), 2);
    assert_eq!(s.extensions[0].0, "x-one");
    assert_eq!(s.extensions[1].0, "x-two");
}

#[test]
fn decode_rejects_wrong_shapes() {
    let not_an_object = Any::Text("nope".to_owned());
    assert!(matches!(Schema::decode(&not_an_object), Err(DecodeError::ExpectedObject)));

    let bad_len = Any::Object(vec![("maxLength".to_owned(), Any::Text("7".to_owned()))]);
    assert!(matches!(Schema::decode(&bad_len), Err(DecodeError::ExpectedNumber)));

    let frac_len = Any::Object(vec![(
        "maxLength".to_owned(),
        Any::Number("7.5".to_owned()),
    )]);
    assert!(matches!(Schema::decode(&frac_len), Err(DecodeError::SizeOutOfRange)));

    let bad_type = Any::Object(vec![("type".to_owned(), Any::Text("florb".to_owned()))]);
    assert!(matches!(Schema::decode(&bad_type), Err(DecodeError::UnknownVariant)));

    let bad_enum = Any::Object(vec![(
        "enum".to_owned(),
        Any::Array(vec![Any::Bool(true)]),
    )]);
    assert!(matches!(Schema::decode(&bad_enum), Err(DecodeError::ExpectedString)));
}

#[test]
fn discriminator_round_trips() {
    let d = Discriminator {
        property_name: "petType".to_owned(),
        mapping: vec![("dog".to_owned(), "#/components/schemas/Dog".to_owned())],
    };
    let back = Discriminator::decode(&d.encode()).unwrap();
    assert_eq!(back.property_name, "petType");
    assert_eq!(back.mapping, vec![(
        "dog".to_owned(),
        "#/components/schemas/Dog".to_owned(),
    )]);
}

#[test]
fn discriminator_requires_property_name() {
    let v = Any::Object(Vec::new());
    assert!(matches!(Discriminator::decode(&v), Err(DecodeError::MissingField)));
}

#[test]
fn xml_round_trips() {
    let x = Xml {
        name: Some("pet".to_owned()),
        namespace: None,
        prefix: None,
        attribute: true,
        wrapped: false,
    };
    let back = Xml::decode(&x.encode()).unwrap();
    assert_eq!(back.name.as_deref(), Some("pet"));
    assert!(back.attribute);
    assert!(!back.wrapped);
}

#[test]
fn external_document_round_trips() {
    let d = ExternalDocument {
        description: Some("Docs".to_owned()),
        url: "https://docs.example".to_owned(),
    };
    let back = ExternalDocument::decode(&d.encode()).unwrap();
    assert_eq!(back.description.as_deref(), Some("Docs"));
    assert_eq!(back.url, "https://docs.example");
}
