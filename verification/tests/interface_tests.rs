use openapi_types_generator::error::{Failure, GenerateError};
use openapi_types_generator::generate_trait::{build_result_type, code_to_name, collect_body_params, collect_params, collect_response_types, create_enum_variants, create_media_types_result, create_method, distinct, run, Input, Interface, InterfaceOperation, ResultShape, ResultType, SomeType};
use openapi_types_generator::model::{Components, Info, MediaType, Method, Operation, Parameter, PathItem, RequestBody, Response, Schema, SchemaType, Spec};
use openapi_types_generator::reference::{ObjectOrReference, RefError};

fn titled(title: &str) -> Schema {
    Schema { title: Some(title.to_string()), schema_type: Some(SchemaType::Object), ..Default::default() }
}

fn media(schema: Option<Schema>) -> MediaType {
    MediaType { schema: schema.map(ObjectOrReference::Object) }
}

fn response(content: Vec<(&str, Option<Schema>)>) -> ObjectOrReference<Response> {
    ObjectOrReference::Object(Response {
        content: content.into_iter().map(|(m, s)| (m.to_string(), media(s))).collect(),
        ..Default::default()
    })
}

fn operation(id: &str, responses: Vec<(&str, ObjectOrReference<Response>)>) -> Operation {
    Operation {
        operation_id: Some(id.to_string()),
        responses: responses.into_iter().map(|(c, r)| (c.to_string(), r)).collect(),
        ..Default::default()
    }
}

fn shape_of(op: &Operation) -> ResultShape {
    let spec = Spec::default();
    let codes = collect_response_types(&spec, op).unwrap();
    build_result_type(op.operation_id.as_ref().unwrap(), &codes)
}

fn named(name: &str) -> ResultType {
    ResultType::Named(name.to_string())
}

fn names(list: &[&str]) -> Vec<String> {
    list.iter().map(|s| s.to_string()).collect()
}

#[test]
fn two_codes_give_a_tagged_union() {
    let op = operation(
        "getWidget",
        vec![
            ("200", response(vec![("application/json", Some(titled("Widget")))])),
            ("404", response(vec![("application/json", Some(titled("Error")))])),
        ],
    );
    assert_eq!(
        shape_of(&op),
        ResultShape::TaggedUnion {
            name: "GetWidgetResultType".to_string(),
            variants: vec![
                ("Result_200".to_string(), Some(named("Widget"))),
                ("Result_404".to_string(), Some(named("Error"))),
            ],
        }
    );
}

#[test]
fn one_code_with_one_type_collapses() {
    let op = operation("getWidget", vec![("200", response(vec![("application/json", Some(titled("Widget")))]))]);
    assert_eq!(shape_of(&op), ResultShape::Single(named("Widget")));
    let twice = operation(
        "getWidget",
        vec![("200", response(vec![("application/json", Some(titled("Widget"))), ("application/yaml", Some(titled("Widget")))]))],
    );
    assert_eq!(shape_of(&twice), ResultShape::Single(named("Widget")));
}

#[test]
fn one_code_without_content_gives_no_value() {
    let op = operation("removeWidget", vec![("200", response(vec![]))]);
    assert_eq!(shape_of(&op), ResultShape::NoValue);
}

#[test]
fn no_code_gives_no_value() {
    assert_eq!(shape_of(&operation("ping", vec![])), ResultShape::NoValue);
}

#[test]
fn one_code_with_two_types_gives_a_sum() {
    let op = operation(
        "getWidget",
        vec![("200", response(vec![("application/json", Some(titled("Widget"))), ("text/plain", Some(titled("Note"))), ("application/yaml", Some(titled("Widget")))]))],
    );
    assert_eq!(
        shape_of(&op),
        ResultShape::Single(ResultType::Sum { name: "GetWidgetResult".to_string(), cases: names(&["Widget", "Note"]) })
    );
}

#[test]
fn a_code_without_content_is_a_bare_variant() {
    let op = operation(
        "removeWidget",
        vec![("204", response(vec![])), ("404", response(vec![("application/json", Some(titled("Error")))]))],
    );
    assert_eq!(
        shape_of(&op),
        ResultShape::TaggedUnion {
            name: "RemoveWidgetResultType".to_string(),
            variants: vec![("Result_204".to_string(), None), ("Result_404".to_string(), Some(named("Error")))],
        }
    );
}

#[test]
fn response_types_fall_back_on_the_base_type() {
    let op = operation(
        "getThings",
        vec![(
            "200",
            response(vec![
                ("a/a", Some(Schema { schema_type: Some(SchemaType::String), ..Default::default() })),
                ("b/b", None),
                ("c/c", Some(Schema::default())),
                ("d/d", Some(Schema { schema_type: Some(SchemaType::Array), ..Default::default() })),
            ]),
        )],
    );
    assert_eq!(
        collect_response_types(&Spec::default(), &op),
        Ok(vec![("200".to_string(), names(&["String", "NotFoundTypeName", "NotFoundTypeName", "Array"]))])
    );
}

#[test]
fn an_unresolvable_response_ends_the_run() {
    let op = operation("getWidget", vec![("200", ObjectOrReference::Ref { ref_path: "#/components/responses/Ok".to_string() })]);
    assert_eq!(
        collect_response_types(&Spec::default(), &op),
        Err(GenerateError::Reference(RefError::Unresolvable("#/components/responses/Ok".to_string())))
    );
}

#[test]
fn the_name_of_a_code() {
    assert_eq!(code_to_name("200"), "Result_200");
    assert_eq!(code_to_name("default"), "Result_default");
    assert_eq!(code_to_name(""), "Result_");
}

#[test]
fn the_result_of_the_media_types() {
    assert_eq!(create_media_types_result("getWidget", &names(&[])), None);
    assert_eq!(create_media_types_result("getWidget", &names(&["Widget"])), Some(named("Widget")));
    assert_eq!(
        create_media_types_result("get_widget", &names(&["A", "B"])),
        Some(ResultType::Sum { name: "GetWidgetResult".to_string(), cases: names(&["A", "B"]) })
    );
}

#[test]
fn the_variants_of_the_codes() {
    assert_eq!(create_enum_variants("op", &vec![]), SomeType::NoReturn);
    assert_eq!(create_enum_variants("op", &vec![("200".to_string(), names(&[]))]), SomeType::NoReturn);
    assert_eq!(create_enum_variants("op", &vec![("200".to_string(), names(&["W"]))]), SomeType::SingleType(named("W")));
    assert_eq!(
        create_enum_variants("op", &vec![("200".to_string(), names(&["W"])), ("500".to_string(), names(&[]))]),
        SomeType::EnumOfCodes(vec![("Result_200".to_string(), Some(named("W"))), ("Result_500".to_string(), None)])
    );
}

#[test]
fn names_are_kept_once() {
    assert_eq!(distinct(&names(&["b", "a", "b", "c", "a"])), names(&["b", "a", "c"]));
    assert_eq!(distinct(&names(&[])), names(&[]));
}

#[test]
fn parameters_become_inputs() {
    let op = Operation {
        operation_id: Some("listWidgets".to_string()),
        parameters: vec![
            ObjectOrReference::Object(Parameter { name: "pageSize".into(), location: "query".into(), schema: Some(ObjectOrReference::Object(Schema { schema_type: Some(SchemaType::Integer), ..Default::default() })), ..Default::default() }),
            ObjectOrReference::Object(Parameter { name: "filter".into(), location: "query".into(), schema: Some(ObjectOrReference::Object(titled("widget_filter"))), ..Default::default() }),
            ObjectOrReference::Object(Parameter { name: "X-Trace".into(), location: "header".into(), schema: None, ..Default::default() }),
        ],
        ..Default::default()
    };
    assert_eq!(
        collect_params(&Spec::default(), &op),
        Ok(vec![
            Input { name: "page_size".into(), typ: "Integer".into() },
            Input { name: "filter".into(), typ: "WidgetFilter".into() },
            Input { name: "x_trace".into(), typ: "None".into() },
        ])
    );
}

#[test]
fn a_body_gives_one_input_for_each_title() {
    let body = RequestBody {
        content: vec![
            ("application/json".to_string(), media(Some(titled("Widget")))),
            ("application/yaml".to_string(), media(Some(titled("Widget")))),
            ("text/csv".to_string(), media(Some(titled("WidgetRow")))),
        ],
        ..Default::default()
    };
    let op = Operation { operation_id: Some("addWidget".into()), request_body: Some(ObjectOrReference::Object(body)), ..Default::default() };
    assert_eq!(
        collect_body_params(&Spec::default(), &op),
        Ok(vec![Input { name: "widget".into(), typ: "Widget".into() }, Input { name: "widget_row".into(), typ: "WidgetRow".into() }])
    );
    assert_eq!(collect_body_params(&Spec::default(), &Operation::default()), Ok(vec![]));
}

#[test]
fn a_body_without_schema_ends_the_run() {
    let body = |m: MediaType| Operation {
        operation_id: Some("addWidget".into()),
        request_body: Some(ObjectOrReference::Object(RequestBody { content: vec![("application/json".to_string(), m)], ..Default::default() })),
        ..Default::default()
    };
    assert_eq!(collect_body_params(&Spec::default(), &body(media(None))), Err(GenerateError::MissingSchema));
    let dangling = MediaType { schema: Some(ObjectOrReference::Ref { ref_path: "#/components/schemas/Widget".into() }) };
    assert_eq!(collect_body_params(&Spec::default(), &body(dangling)), Err(GenerateError::MissingSchema));
    assert_eq!(collect_body_params(&Spec::default(), &body(media(Some(Schema::default())))), Err(GenerateError::MissingSchemaTitle));
    assert_eq!(collect_body_params(&Spec::default(), &body(media(Some(titled(""))))), Err(GenerateError::MissingSchemaTitle));
}

#[test]
fn an_operation_needs_an_identifier() {
    assert_eq!(create_method(&Spec::default(), &Operation::default()), Err(GenerateError::MissingOperationId));
}

#[test]
fn the_interface_has_one_operation_for_each() {
    let spec = Spec {
        info: Info { title: "WidgetApi".into(), ..Default::default() },
        paths: vec![
            (
                "/widgets".to_string(),
                PathItem {
                    post: Some(operation("addWidget", vec![("201", response(vec![]))])),
                    get: Some(operation("listWidgets", vec![("200", response(vec![("application/json", Some(titled("WidgetList")))]))])),
                    ..Default::default()
                },
            ),
            ("/health".to_string(), PathItem { head: Some(operation("checkHealth", vec![])), ..Default::default() }),
        ],
        components: Some(Components::default()),
        ..Default::default()
    };
    let made = run(&spec).unwrap();
    assert_eq!(
        made,
        Interface {
            title: "WidgetApi".into(),
            operations: vec![
                InterfaceOperation { name: "list_widgets".into(), params: vec![], body_params: vec![], result: ResultShape::Single(named("WidgetList")) },
                InterfaceOperation { name: "add_widget".into(), params: vec![], body_params: vec![], result: ResultShape::NoValue },
                InterfaceOperation { name: "check_health".into(), params: vec![], body_params: vec![], result: ResultShape::NoValue },
            ],
        }
    );
}

#[test]
fn a_failure_names_the_operation() {
    let spec = Spec {
        paths: vec![
            ("/a".to_string(), PathItem { get: Some(operation("a", vec![])), ..Default::default() }),
            ("/b".to_string(), PathItem { put: Some(Operation::default()), ..Default::default() }),
        ],
        ..Default::default()
    };
    let failure = run(&spec).unwrap_err();
    assert_eq!(failure, Failure { path: "/b".into(), method: Method::Put, error: GenerateError::MissingOperationId });
    assert_eq!(failure.message(), "PUT /b: Operation id is not provided");
}
