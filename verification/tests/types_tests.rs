use openapi_types_generator::error::{Failure, GenerateError};
use openapi_types_generator::generate_types::{budget, dedup, extract_struct_fields, map_type, resolve_schema_type, run, schema_to_type, TypeDecl, TypeRef};
use openapi_types_generator::model::{Components, Documents, Method, Operation, Parameter, PathItem, Schema, SchemaType, Spec};
use openapi_types_generator::reference::{ObjectOrReference, RefError};

fn plain(base: SchemaType, format: Option<&str>) -> Schema {
    Schema { schema_type: Some(base), format: format.map(|f| f.to_string()), ..Default::default() }
}

fn object(title: &str, properties: Vec<(&str, ObjectOrReference<Schema>)>) -> Schema {
    Schema {
        title: Some(title.to_string()),
        schema_type: Some(SchemaType::Object),
        properties: properties.into_iter().map(|(n, s)| (n.to_string(), s)).collect(),
        ..Default::default()
    }
}

fn inline(schema: Schema) -> ObjectOrReference<Schema> {
    ObjectOrReference::Object(schema)
}

fn reference<T>(path: &str) -> ObjectOrReference<T> {
    ObjectOrReference::Ref { ref_path: path.to_string() }
}

fn decl(name: &str, fields: Vec<(&str, TypeRef)>) -> TypeDecl {
    TypeDecl { name: name.to_string(), fields: fields.into_iter().map(|(n, t)| (n.to_string(), t)).collect() }
}

fn spec_with(schemas: Vec<(&str, ObjectOrReference<Schema>)>, parameters: Vec<ObjectOrReference<Parameter>>) -> Spec {
    Spec {
        paths: vec![(
            "/things".to_string(),
            PathItem { get: Some(Operation { operation_id: Some("list".into()), parameters, ..Default::default() }), ..Default::default() },
        )],
        components: Some(Components { schemas: schemas.into_iter().map(|(n, s)| (n.to_string(), s)).collect(), ..Default::default() }),
        ..Default::default()
    }
}

fn parameter(name: &str, schema: Option<ObjectOrReference<Schema>>) -> ObjectOrReference<Parameter> {
    ObjectOrReference::Object(Parameter { name: name.to_string(), location: "query".to_string(), schema, ..Default::default() })
}

#[test]
fn the_table_of_base_types() {
    assert_eq!(resolve_schema_type(&plain(SchemaType::String, None)), Ok(TypeRef::Text));
    assert_eq!(resolve_schema_type(&plain(SchemaType::String, Some("time"))), Ok(TypeRef::Timestamp));
    assert_eq!(resolve_schema_type(&plain(SchemaType::String, Some("date"))), Ok(TypeRef::Timestamp));
    assert_eq!(resolve_schema_type(&plain(SchemaType::String, Some("date-time"))), Ok(TypeRef::Timestamp));
    assert_eq!(resolve_schema_type(&plain(SchemaType::String, Some("uuid"))), Ok(TypeRef::Text));
    assert_eq!(resolve_schema_type(&plain(SchemaType::Number, None)), Ok(TypeRef::Float64));
    assert_eq!(resolve_schema_type(&plain(SchemaType::Number, Some("double"))), Ok(TypeRef::Float64));
    assert_eq!(resolve_schema_type(&plain(SchemaType::Number, Some("int64"))), Ok(TypeRef::Integer64));
    assert_eq!(resolve_schema_type(&plain(SchemaType::Number, Some("other"))), Ok(TypeRef::Float64));
    assert_eq!(resolve_schema_type(&plain(SchemaType::Boolean, None)), Ok(TypeRef::Boolean));
    assert_eq!(resolve_schema_type(&plain(SchemaType::Integer, None)), Ok(TypeRef::Integer64));
    assert_eq!(resolve_schema_type(&plain(SchemaType::Integer, Some("int32"))), Ok(TypeRef::Integer64));
    assert_eq!(resolve_schema_type(&plain(SchemaType::Array, None)), Ok(TypeRef::TextSequence));
    assert_eq!(resolve_schema_type(&object("Widget", vec![])), Ok(TypeRef::Named("Widget".to_string())));
}

#[test]
fn an_object_needs_a_title() {
    assert_eq!(resolve_schema_type(&plain(SchemaType::Object, None)), Err(GenerateError::MissingSchemaTitle));
    assert_eq!(resolve_schema_type(&object("", vec![])), Err(GenerateError::MissingSchemaTitle));
    assert_eq!(schema_to_type(&plain(SchemaType::Object, None), &Spec::default(), 0), Err(GenerateError::MissingSchemaTitle));
}

#[test]
fn a_schema_needs_a_base_type() {
    assert_eq!(resolve_schema_type(&Schema::default()), Err(GenerateError::MissingSchemaType));
    assert_eq!(schema_to_type(&Schema::default(), &Spec::default(), 0), Ok(vec![]));
    let holder = object("Holder", vec![("x", inline(Schema::default()))]);
    assert_eq!(schema_to_type(&holder, &Spec::default(), 0), Err(GenerateError::MissingSchemaType));
}

#[test]
fn a_primitive_declares_nothing() {
    assert_eq!(schema_to_type(&plain(SchemaType::String, None), &Spec::default(), 3), Ok(vec![]));
}

#[test]
fn a_record_follows_the_records_of_its_fields() {
    let spec = spec_with(vec![("Tag", inline(object("Tag", vec![("label", inline(plain(SchemaType::String, None)))])))], vec![]);
    let widget = object(
        "Widget",
        vec![
            ("id", inline(plain(SchemaType::Integer, None))),
            ("size", inline(object("Size", vec![("width", inline(plain(SchemaType::Number, None)))]))),
            ("tag", reference("#/components/schemas/Tag")),
            ("made", inline(plain(SchemaType::String, Some("date-time")))),
        ],
    );
    let expected = vec![
        decl("Size", vec![("width", TypeRef::Float64)]),
        decl("Tag", vec![("label", TypeRef::Text)]),
        decl(
            "Widget",
            vec![
                ("id", TypeRef::Integer64),
                ("size", TypeRef::Named("Size".into())),
                ("tag", TypeRef::Named("Tag".into())),
                ("made", TypeRef::Timestamp),
            ],
        ),
    ];
    assert_eq!(schema_to_type(&widget, &spec, budget(&spec)), Ok(expected));
    let (fields, nested) = extract_struct_fields(&widget, &spec, 1).unwrap();
    assert_eq!(fields.len(), 4);
    assert_eq!(nested.len(), 2);
}

#[test]
fn the_budget_counts_the_schemas() {
    let spec = Spec {
        components: Some(Components {
            schemas: vec![("A".to_string(), inline(object("A", vec![]))), ("B".to_string(), inline(object("B", vec![])))],
            ..Default::default()
        }),
        documents: Documents { schemas: vec![("c.yaml".to_string(), Ok(object("C", vec![])))], ..Default::default() },
        ..Default::default()
    };
    assert_eq!(budget(&spec), 3);
    assert_eq!(budget(&Spec::default()), 0);
}

#[test]
fn a_schema_that_holds_itself_is_a_cycle() {
    let spec = spec_with(
        vec![
            ("Node", inline(object("Node", vec![("next", reference("#/components/schemas/Node"))]))),
            ("Leaf", inline(object("Leaf", vec![]))),
        ],
        vec![parameter("node", Some(reference("#/components/schemas/Node")))],
    );
    assert_eq!(
        run(&spec),
        Err(Failure {
            path: "/things".to_string(),
            method: Method::Get,
            error: GenerateError::Reference(RefError::CyclicReference("#/components/schemas/Node".to_string())),
        })
    );
}

#[test]
fn a_reference_below_an_empty_budget_is_a_cycle() {
    let spec = spec_with(vec![("Tag", inline(object("Tag", vec![])))], vec![]);
    let widget = object("Widget", vec![("tag", reference("#/components/schemas/Tag"))]);
    assert_eq!(
        schema_to_type(&widget, &spec, 0),
        Err(GenerateError::Reference(RefError::CyclicReference("#/components/schemas/Tag".to_string())))
    );
    assert_eq!(schema_to_type(&widget, &spec, 1).map(|d| d.len()), Ok(2));
}

#[test]
fn an_unresolvable_property_ends_the_run() {
    let widget = object("Widget", vec![("tag", reference("#/components/schemas/Tag"))]);
    assert_eq!(
        schema_to_type(&widget, &Spec::default(), 5),
        Err(GenerateError::Reference(RefError::Unresolvable("#/components/schemas/Tag".to_string())))
    );
}

#[test]
fn the_first_record_of_a_name_stays() {
    let decls = vec![
        decl("A", vec![("x", TypeRef::Text)]),
        decl("B", vec![]),
        decl("A", vec![("y", TypeRef::Boolean)]),
        decl("C", vec![]),
        decl("B", vec![("z", TypeRef::Text)]),
    ];
    assert_eq!(dedup(decls), vec![decl("A", vec![("x", TypeRef::Text)]), decl("B", vec![]), decl("C", vec![])]);
    assert_eq!(dedup(vec![]), vec![]);
}

#[test]
fn the_types_of_a_specification_come_from_its_parameters() {
    let spec = spec_with(
        vec![("Filter", inline(object("Filter", vec![("tag", inline(object("Tag", vec![])))])))],
        vec![
            parameter("limit", Some(inline(plain(SchemaType::Integer, None)))),
            parameter("filter", Some(reference("#/components/schemas/Filter"))),
            parameter("bare", None),
            parameter("again", Some(reference("#/components/schemas/Filter"))),
            parameter("tag", Some(inline(object("Tag", vec![("other", inline(plain(SchemaType::Boolean, None)))])))),
        ],
    );
    assert_eq!(
        run(&spec),
        Ok(vec![decl("Tag", vec![]), decl("Filter", vec![("tag", TypeRef::Named("Tag".into()))])])
    );
}

#[test]
fn an_unresolvable_parameter_ends_the_run() {
    let spec = spec_with(vec![], vec![reference("#/components/parameters/limit")]);
    assert_eq!(
        run(&spec),
        Err(Failure {
            path: "/things".to_string(),
            method: Method::Get,
            error: GenerateError::Reference(RefError::Unresolvable("#/components/parameters/limit".to_string())),
        })
    );
}

#[test]
fn a_document_refers_to_the_components_of_the_specification() {
    let mut spec = spec_with(
        vec![("Tag", inline(object("Tag", vec![("label", inline(plain(SchemaType::String, None)))])))],
        vec![parameter("widget", Some(reference("schemas/widget.yaml")))],
    );
    spec.documents = Documents {
        schemas: vec![(
            "schemas/widget.yaml".to_string(),
            Ok(object("Widget", vec![("tag", reference("#/components/schemas/Tag")), ("part", reference("schemas/part.yaml"))])),
        ), ("schemas/part.yaml".to_string(), Ok(object("Part", vec![])))],
        ..Default::default()
    };
    assert_eq!(
        run(&spec),
        Ok(vec![
            decl("Tag", vec![("label", TypeRef::Text)]),
            decl("Part", vec![]),
            decl("Widget", vec![("tag", TypeRef::Named("Tag".into())), ("part", TypeRef::Named("Part".into()))]),
        ])
    );
}

#[test]
fn documents_that_hold_each_other_are_a_cycle() {
    let mut spec = spec_with(vec![], vec![parameter("a", Some(reference("a.yaml")))]);
    spec.documents = Documents {
        schemas: vec![
            ("a.yaml".to_string(), Ok(object("A", vec![("b", reference("b.yaml"))]))),
            ("b.yaml".to_string(), Ok(object("B", vec![("a", reference("a.yaml"))]))),
        ],
        ..Default::default()
    };
    assert_eq!(
        run(&spec).map_err(|f| f.error),
        Err(GenerateError::Reference(RefError::CyclicReference("b.yaml".to_string())))
    );
}

#[test]
fn a_document_that_could_not_be_read_ends_the_run() {
    let mut spec = spec_with(vec![], vec![parameter("a", Some(reference("a.yaml")))]);
    spec.documents = Documents { schemas: vec![("a.yaml".to_string(), Err("permission denied".to_string()))], ..Default::default() };
    assert_eq!(
        run(&spec).map_err(|f| f.error),
        Err(GenerateError::Reference(RefError::UnableToReadFromFile("a.yaml".to_string(), "permission denied".to_string())))
    );
}

#[test]
fn a_schema_maps_to_its_type_and_its_records() {
    let spec = spec_with(vec![("Tag", inline(object("Tag", vec![])))], vec![]);
    let widget = object(
        "Widget",
        vec![("first", reference("#/components/schemas/Tag")), ("second", reference("#/components/schemas/Tag"))],
    );
    assert_eq!(
        map_type(&widget, &spec),
        Ok((
            TypeRef::Named("Widget".into()),
            vec![decl("Tag", vec![]), decl("Widget", vec![("first", TypeRef::Named("Tag".into())), ("second", TypeRef::Named("Tag".into()))])]
        ))
    );
    assert_eq!(map_type(&plain(SchemaType::Boolean, None), &spec), Ok((TypeRef::Boolean, vec![])));
    assert_eq!(map_type(&Schema::default(), &spec), Err(GenerateError::MissingSchemaType));
    assert_eq!(map_type(&plain(SchemaType::Object, None), &spec), Err(GenerateError::MissingSchemaTitle));
}
