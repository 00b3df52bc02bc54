use openapi_types_generator::model::{Components, Documents, Parameter, Response, Schema, SchemaType, Spec};
use openapi_types_generator::reference::{ObjectOrReference, RefError, RefType};
use openapi_types_generator::resolve::{follow, read_from_file, FromRef};

fn schema(title: &str) -> Schema {
    Schema { title: Some(title.to_string()), schema_type: Some(SchemaType::Object), ..Default::default() }
}

fn reference<T>(path: &str) -> ObjectOrReference<T> {
    ObjectOrReference::Ref { ref_path: path.to_string() }
}

fn spec_with(schemas: Vec<(&str, ObjectOrReference<Schema>)>) -> Spec {
    Spec {
        components: Some(Components {
            schemas: schemas.into_iter().map(|(n, s)| (n.to_string(), s)).collect(),
            responses: vec![("Foo".to_string(), ObjectOrReference::Object(Response::default()))],
            ..Default::default()
        }),
        ..Default::default()
    }
}

#[test]
fn a_written_out_value_resolves_to_itself() {
    let spec = Spec::default();
    let value = ObjectOrReference::Object(schema("Widget"));
    let found = value.resolve(&spec).unwrap();
    assert_eq!(*found, schema("Widget"));
    match &value {
        ObjectOrReference::Object(inner) => assert!(std::ptr::eq(found, inner)),
        _ => unreachable!(),
    }
}

#[test]
fn a_missing_component_is_unresolvable() {
    let spec = spec_with(vec![("Bar", ObjectOrReference::Object(schema("Bar")))]);
    let value: ObjectOrReference<Schema> = reference("#/components/schemas/Foo");
    assert_eq!(value.resolve(&spec), Err(RefError::Unresolvable("#/components/schemas/Foo".to_string())));
    let none = Spec::default();
    assert_eq!(value.resolve(&none), Err(RefError::Unresolvable("#/components/schemas/Foo".to_string())));
}

#[test]
fn another_category_is_a_mismatch() {
    let spec = spec_with(vec![]);
    let value: ObjectOrReference<Schema> = reference("#/components/responses/Foo");
    assert_eq!(value.resolve(&spec), Err(RefError::MismatchedType(RefType::Response, RefType::Schema)));
    let absent: ObjectOrReference<Schema> = reference("#/components/responses/Nothing");
    assert_eq!(absent.resolve(&spec), Err(RefError::MismatchedType(RefType::Response, RefType::Schema)));
}

#[test]
fn an_unknown_category_is_invalid() {
    let spec = spec_with(vec![]);
    let value: ObjectOrReference<Schema> = reference("#/components/things/Foo");
    assert_eq!(value.resolve(&spec), Err(RefError::InvalidType("things".to_string())));
}

#[test]
fn a_reference_finds_its_component() {
    let spec = spec_with(vec![
        ("Bar", ObjectOrReference::Object(schema("Bar"))),
        ("Foo", ObjectOrReference::Object(schema("Foo"))),
    ]);
    let value: ObjectOrReference<Schema> = reference("#/components/schemas/Foo");
    assert_eq!(value.resolve(&spec), Ok(&schema("Foo")));
    assert_eq!(Schema::from_ref(&spec, "other#/components/schemas/Bar"), Ok(&schema("Bar")));
}

#[test]
fn the_first_of_two_entries_of_one_name_is_found() {
    let spec = spec_with(vec![
        ("Foo", ObjectOrReference::Object(schema("First"))),
        ("Foo", ObjectOrReference::Object(schema("Second"))),
    ]);
    assert_eq!(follow::<Schema>(&spec, "#/components/schemas/Foo"), Ok(&schema("First")));
}

#[test]
fn a_chain_of_references_is_followed() {
    let spec = spec_with(vec![
        ("A", reference("#/components/schemas/B")),
        ("B", reference("#/components/schemas/C")),
        ("C", ObjectOrReference::Object(schema("End"))),
    ]);
    assert_eq!(follow::<Schema>(&spec, "#/components/schemas/A"), Ok(&schema("End")));
}

#[test]
fn a_chain_that_ends_nowhere_names_the_last_reference() {
    let spec = spec_with(vec![("A", reference("#/components/schemas/B"))]);
    assert_eq!(
        follow::<Schema>(&spec, "#/components/schemas/A"),
        Err(RefError::Unresolvable("#/components/schemas/B".to_string()))
    );
}

#[test]
fn a_cycle_is_reported() {
    let spec = spec_with(vec![
        ("A", reference("#/components/schemas/B")),
        ("B", reference("#/components/schemas/A")),
    ]);
    assert_eq!(
        follow::<Schema>(&spec, "#/components/schemas/A"),
        Err(RefError::CyclicReference("#/components/schemas/A".to_string()))
    );
    assert_eq!(
        follow::<Schema>(&spec, "#/components/schemas/B"),
        Err(RefError::CyclicReference("#/components/schemas/B".to_string()))
    );
    let own = spec_with(vec![("A", reference("#/components/schemas/A"))]);
    assert_eq!(
        follow::<Schema>(&own, "#/components/schemas/A"),
        Err(RefError::CyclicReference("#/components/schemas/A".to_string()))
    );
}

#[test]
fn a_long_chain_without_repeat_is_no_cycle() {
    let mut entries: Vec<(String, ObjectOrReference<Schema>)> = Vec::new();
    for i in 0..50 {
        entries.push((format!("S{}", i), reference(&format!("#/components/schemas/S{}", i + 1))));
    }
    entries.push(("S50".to_string(), ObjectOrReference::Object(schema("End"))));
    let spec = Spec { components: Some(Components { schemas: entries, ..Default::default() }), ..Default::default() };
    assert_eq!(follow::<Schema>(&spec, "#/components/schemas/S0"), Ok(&schema("End")));
}

#[test]
fn a_path_leads_to_a_loaded_document() {
    let spec = Spec {
        documents: Documents {
            schemas: vec![
                ("schemas/widget.yaml".to_string(), Ok(schema("Widget"))),
                ("schemas/broken.yaml".to_string(), Err("No such file".to_string())),
            ],
            ..Default::default()
        },
        ..Default::default()
    };
    let value: ObjectOrReference<Schema> = reference("schemas/widget.yaml");
    assert_eq!(value.resolve(&spec), Ok(&schema("Widget")));
    assert_eq!(read_from_file::<Schema>(&spec, "schemas/widget.yaml"), Ok(&schema("Widget")));
    assert_eq!(
        read_from_file::<Schema>(&spec, "schemas/broken.yaml"),
        Err(RefError::UnableToReadFromFile("schemas/broken.yaml".to_string(), "No such file".to_string()))
    );
    assert_eq!(
        read_from_file::<Schema>(&spec, "schemas/other.yaml"),
        Err(RefError::UnableToReadFromFile("schemas/other.yaml".to_string(), "the document was not loaded".to_string()))
    );
    assert_eq!(
        read_from_file::<Parameter>(&spec, "schemas/widget.yaml"),
        Err(RefError::UnableToReadFromFile("schemas/widget.yaml".to_string(), "the document was not loaded".to_string()))
    );
}

#[test]
fn a_component_may_refer_to_a_document() {
    let spec = Spec {
        components: Some(Components { schemas: vec![("W".to_string(), reference("w.yaml"))], ..Default::default() }),
        documents: Documents { schemas: vec![("w.yaml".to_string(), Ok(schema("Widget")))], ..Default::default() },
        ..Default::default()
    };
    assert_eq!(follow::<Schema>(&spec, "#/components/schemas/W"), Ok(&schema("Widget")));
}
