use openapi_types_generator::reference::{Ref, RefError, RefType};
use regex::Regex;

fn pattern() -> Regex {
    Regex::new("^(?P<source>[^#]*)#/components/(?P<type>[^/]+)/(?P<name>.+)$").unwrap()
}

fn parts(path: &str) -> Option<(String, String, String)> {
    pattern().captures(path).map(|c| (c["source"].to_owned(), c["type"].to_owned(), c["name"].to_owned()))
}

fn agrees(path: &str) {
    let read = Ref::from_str(path);
    match parts(path) {
        None => match read {
            Ok(Ref::Path(p)) => assert_eq!(p, path),
            other => panic!("{:?} should be a path, got {:?}", path, other),
        },
        Some((source, category, name)) => match (RefType::from_str(&category), read) {
            (Ok(kind), Ok(Ref::InFile { source: s, kind: k, name: n })) => {
                assert_eq!((s, k, n), (source, kind, name));
            }
            (Err(expected), Err(got)) => assert_eq!(expected, got),
            (expected, got) => panic!("{:?}: expected {:?}, got {:?}", path, expected, got),
        },
    }
}

#[test]
fn reads_a_component_reference() {
    match Ref::from_str("#/components/schemas/Foo") {
        Ok(Ref::InFile { source, kind, name }) => {
            assert_eq!(source, "");
            assert_eq!(kind, RefType::Schema);
            assert_eq!(name, "Foo");
        }
        other => panic!("unexpected: {:?}", other),
    }
}

#[test]
fn reads_a_reference_with_a_source() {
    match Ref::from_str("other.yaml#/components/responses/Not/Found") {
        Ok(Ref::InFile { source, kind, name }) => {
            assert_eq!(source, "other.yaml");
            assert_eq!(kind, RefType::Response);
            assert_eq!(name, "Not/Found");
        }
        other => panic!("unexpected: {:?}", other),
    }
}

#[test]
fn unknown_keyword_is_invalid() {
    assert_eq!(
        Ref::from_str("#/components/widgets/Foo").err(),
        Some(RefError::InvalidType("widgets".to_string()))
    );
}

#[test]
fn other_strings_are_paths() {
    for path in ["schemas/widget.yaml", "", "#", "#/components/", "#/components/schemas", "#/components/schemas/", "#/components//Foo", "a#b#/components/schemas/Foo", "#/components/schemas/Fo\no"] {
        match Ref::from_str(path) {
            Ok(Ref::Path(p)) => assert_eq!(p, path),
            other => panic!("{:?} should be a path, got {:?}", path, other),
        }
    }
}

#[test]
fn every_keyword_has_its_category() {
    let table = [
        ("schemas", RefType::Schema),
        ("responses", RefType::Response),
        ("parameters", RefType::Parameter),
        ("examples", RefType::Example),
        ("requestBodies", RefType::RequestBody),
        ("headers", RefType::Header),
        ("securitySchemes", RefType::SecurityScheme),
        ("links", RefType::Link),
        ("callbacks", RefType::Callback),
    ];
    for (word, kind) in table {
        assert_eq!(RefType::from_str(word), Ok(kind));
    }
    assert_eq!(RefType::from_str("Schemas"), Err(RefError::InvalidType("Schemas".to_string())));
    assert_eq!(RefType::from_str(""), Err(RefError::InvalidType(String::new())));
}

#[test]
fn category_names() {
    assert_eq!(RefType::Schema.name(), "Schema");
    assert_eq!(RefType::RequestBody.name(), "RequestBody");
    assert_eq!(RefType::SecurityScheme.name(), "SecurityScheme");
    assert_eq!(RefType::Callback.name(), "Callback");
}

#[test]
fn messages_of_reference_errors() {
    assert_eq!(RefError::InvalidType("widgets".into()).message(), "Invalid type: widgets");
    assert_eq!(
        RefError::MismatchedType(RefType::Response, RefType::Schema).message(),
        "Mismatched type: cannot reference a Response as a Schema"
    );
    assert_eq!(
        RefError::UnableToReadFromFile("a.yaml".into(), "gone".into()).message(),
        "Cannot read object from path schema from file: a.yaml, orignalerr:gone"
    );
    assert_eq!(RefError::Unresolvable("#/components/schemas/Foo".into()).message(), "Unresolvable path: #/components/schemas/Foo");
    assert_eq!(RefError::CyclicReference("#/components/schemas/A".into()).message(), "Cyclic reference: #/components/schemas/A");
}

#[test]
fn reading_agrees_with_the_pattern() {
    let samples = [
        "#/components/schemas/Foo",
        "file.yaml#/components/parameters/limit",
        "#/components/schemas/Foo/bar/baz",
        "#/components/schemas/",
        "#/components//x",
        "#/components/x/y",
        "##/components/schemas/Foo",
        "a#/components/schemas/Foo#bar",
        "#/components/sche\nmas/Foo",
        "\n#/components/links/L",
        "#/components/links/L\n",
        "#/components/links/\nL",
        "#/Components/schemas/Foo",
        "/components/schemas/Foo",
        "#/components/schemas",
        "schemas/Foo.yaml",
        "",
        "#",
        "é#/components/headers/ü",
        "#/components/callbacks/💡/x",
        "#/components/securitySchemes/ s ",
        "x#/components/examples/#/components/examples/y",
    ];
    for sample in samples {
        agrees(sample);
    }
}
