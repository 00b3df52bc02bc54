use openapi_types_generator::error::{Failure, GenerateError};
use openapi_types_generator::generate_routing::{attempts_for, create_routing_function, create_routing_instruction, function_name, get_operation_input, get_parse_instruction, get_vars_from_body, get_vars_from_params, get_vars_from_request, run, var_from_cookie, var_from_header, var_from_param, var_from_path, var_from_query, BodyBinding, ParameterBinding, ParseAttempt, Parser, RoutingEntry, RoutingFunction, RoutingInstruction, RoutingTable};
use openapi_types_generator::generate_trait::{ResultShape, ResultType};
use openapi_types_generator::model::{Components, Info, MediaType, Method, Operation, Parameter, PathItem, RequestBody, Response, Schema, SchemaType, Spec};
use openapi_types_generator::reference::{ObjectOrReference, RefError};
use openapi_types_generator::{types, Generated};

fn titled(title: &str) -> Schema {
    Schema { title: Some(title.to_string()), schema_type: Some(SchemaType::Object), ..Default::default() }
}

fn untitled(base: SchemaType) -> Schema {
    Schema { schema_type: Some(base), ..Default::default() }
}

fn parameter(name: &str, location: &str, schema: Option<Schema>) -> Parameter {
    Parameter { name: name.to_string(), location: location.to_string(), schema: schema.map(ObjectOrReference::Object), ..Default::default() }
}

fn body(content: Vec<(&str, Schema)>) -> Option<ObjectOrReference<RequestBody>> {
    Some(ObjectOrReference::Object(RequestBody {
        content: content.into_iter().map(|(m, s)| (m.to_string(), MediaType { schema: Some(ObjectOrReference::Object(s)) })).collect(),
        ..Default::default()
    }))
}

fn attempt(media_type: &str, parser: Parser, typ: &str) -> ParseAttempt {
    ParseAttempt { media_type: media_type.to_string(), parser, typ: typ.to_string() }
}

fn pairs(list: &[(&str, &str)]) -> Vec<(String, String)> {
    list.iter().map(|(a, b)| (a.to_string(), b.to_string())).collect()
}

#[test]
fn an_untitled_query_parameter_is_plain_text_under_its_name() {
    let limit = parameter("limit", "query", Some(untitled(SchemaType::Integer)));
    let expected = ParameterBinding::QueryValue { key: "limit".to_string(), variable: "limit".to_string() };
    assert_eq!(var_from_query(&limit, &Spec::default()), Ok(expected.clone()));
    assert_eq!(var_from_param(&limit, &Spec::default()), Ok(expected));
    let page = parameter("pageSize", "query", Some(untitled(SchemaType::Integer)));
    assert_eq!(
        var_from_param(&page, &Spec::default()),
        Ok(ParameterBinding::QueryValue { key: "pageSize".to_string(), variable: "page_size".to_string() })
    );
}

#[test]
fn a_titled_query_parameter_reads_the_whole_query() {
    let filter = parameter("filter", "query", Some(titled("widget_filter")));
    assert_eq!(
        var_from_param(&filter, &Spec::default()),
        Ok(ParameterBinding::QueryStruct { typ: "WidgetFilter".to_string(), variable: "filter".to_string() })
    );
}

#[test]
fn a_query_parameter_needs_a_schema() {
    assert_eq!(var_from_query(&parameter("limit", "query", None), &Spec::default()), Err(GenerateError::MissingSchema));
    let broken = Parameter {
        name: "limit".into(),
        location: "query".into(),
        schema: Some(ObjectOrReference::Ref { ref_path: "#/components/schemas/Limit".into() }),
        ..Default::default()
    };
    assert_eq!(
        var_from_query(&broken, &Spec::default()),
        Err(GenerateError::Reference(RefError::Unresolvable("#/components/schemas/Limit".into())))
    );
}

#[test]
fn the_other_locations() {
    let id = parameter("widgetId", "path", None);
    assert_eq!(var_from_path(&id), ParameterBinding::PathVariable { key: "widgetId".into(), variable: "widget_id".into() });
    assert_eq!(var_from_param(&id, &Spec::default()), Ok(var_from_path(&id)));
    let trace = parameter("X-Trace-Id", "header", None);
    assert_eq!(var_from_header(&trace), ParameterBinding::Header { key: "X-Trace-Id".into(), variable: "x_trace_id".into() });
    assert_eq!(var_from_param(&trace, &Spec::default()), Ok(var_from_header(&trace)));
    let session = parameter("session", "cookie", None);
    assert_eq!(var_from_cookie(&session), ParameterBinding::Cookie { key: "session".into(), variable: "session".into() });
    assert_eq!(var_from_param(&session, &Spec::default()), Ok(var_from_cookie(&session)));
}

#[test]
fn an_unknown_location_is_unsupported() {
    assert_eq!(
        var_from_param(&parameter("x", "body", None), &Spec::default()),
        Err(GenerateError::UnsupportedParameterLocation("body".to_string()))
    );
    assert_eq!(
        var_from_param(&parameter("x", "Query", None), &Spec::default()),
        Err(GenerateError::UnsupportedParameterLocation("Query".to_string()))
    );
}

#[test]
fn the_plan_keeps_the_order_of_the_parameters() {
    let op = Operation {
        parameters: vec![
            ObjectOrReference::Object(parameter("b", "path", None)),
            ObjectOrReference::Ref { ref_path: "#/components/parameters/a".to_string() },
            ObjectOrReference::Object(parameter("c", "cookie", None)),
        ],
        ..Default::default()
    };
    let spec = Spec {
        components: Some(Components {
            parameters: vec![("a".to_string(), ObjectOrReference::Object(parameter("a", "header", None)))],
            ..Default::default()
        }),
        ..Default::default()
    };
    assert_eq!(
        get_vars_from_params(&op, &spec),
        Ok(vec![
            ParameterBinding::PathVariable { key: "b".into(), variable: "b".into() },
            ParameterBinding::Header { key: "a".into(), variable: "a".into() },
            ParameterBinding::Cookie { key: "c".into(), variable: "c".into() },
        ])
    );
    assert_eq!(
        get_vars_from_params(&op, &Spec::default()),
        Err(GenerateError::Reference(RefError::Unresolvable("#/components/parameters/a".into())))
    );
}

#[test]
fn the_parsers_of_the_media_types() {
    assert_eq!(get_parse_instruction("application/json", "Widget"), Ok(attempt("application/json", Parser::Json, "Widget")));
    assert_eq!(get_parse_instruction("application/yaml", "Widget"), Ok(attempt("application/yaml", Parser::Yaml, "Widget")));
    assert_eq!(get_parse_instruction("text/plain", "Widget"), Err(GenerateError::UnsupportedMediaType("text/plain".to_string())));
}

#[test]
fn two_media_types_of_one_title_give_one_binding() {
    let op = Operation {
        operation_id: Some("addWidget".into()),
        request_body: body(vec![("application/json", titled("Widget")), ("application/yaml", titled("Widget"))]),
        ..Default::default()
    };
    let plan = get_vars_from_request(&op, &Spec::default()).unwrap();
    assert_eq!(
        plan,
        vec![BodyBinding {
            variable: "widget".to_string(),
            typ: "Widget".to_string(),
            attempts: vec![attempt("application/json", Parser::Json, "Widget"), attempt("application/yaml", Parser::Yaml, "Widget")],
        }]
    );
    assert_eq!(plan[0].accept(&vec![true, true]), Ok(&plan[0].attempts[0]));
    assert_eq!(plan[0].accept(&vec![false, true]), Ok(&plan[0].attempts[1]));
    assert_eq!(plan[0].accept(&vec![false, false]), Err(openapi_types_generator::binding::BindError::AllBodyParsersFailed));
}

#[test]
fn bodies_are_grouped_by_title() {
    let content = pairs(&[("application/json", "Widget"), ("application/yaml", "Gadget"), ("application/yaml", "Widget"), ("application/json", "Gadget")]);
    assert_eq!(
        get_vars_from_body(&content),
        Ok(vec![
            BodyBinding {
                variable: "widget".into(),
                typ: "Widget".into(),
                attempts: vec![attempt("application/json", Parser::Json, "Widget"), attempt("application/yaml", Parser::Yaml, "Widget")],
            },
            BodyBinding {
                variable: "gadget".into(),
                typ: "Gadget".into(),
                attempts: vec![attempt("application/yaml", Parser::Yaml, "Gadget"), attempt("application/json", Parser::Json, "Gadget")],
            },
        ])
    );
    assert_eq!(get_vars_from_body(&vec![]), Ok(vec![]));
    assert_eq!(
        get_vars_from_body(&pairs(&[("application/json", "Widget"), ("text/csv", "Widget")])),
        Err(GenerateError::UnsupportedMediaType("text/csv".into()))
    );
    let all = vec![attempt("a", Parser::Json, "X"), attempt("b", Parser::Yaml, "Y"), attempt("c", Parser::Yaml, "X")];
    assert_eq!(attempts_for(&all, "X"), vec![attempt("a", Parser::Json, "X"), attempt("c", Parser::Yaml, "X")]);
    assert_eq!(attempts_for(&all, "Z"), vec![]);
}

#[test]
fn a_body_without_a_schema_is_missing_its_schema() {
    let op = Operation {
        operation_id: Some("addWidget".into()),
        request_body: Some(ObjectOrReference::Object(RequestBody {
            content: vec![("application/json".to_string(), MediaType { schema: None })],
            ..Default::default()
        })),
        ..Default::default()
    };
    assert_eq!(get_vars_from_request(&op, &Spec::default()), Err(GenerateError::MissingSchema));
    assert_eq!(get_operation_input(&op, &Spec::default()), Err(GenerateError::MissingSchema));
    assert_eq!(get_vars_from_request(&Operation::default(), &Spec::default()), Ok(vec![]));
}

#[test]
fn the_handler_is_named_by_the_identifier() {
    let op = Operation { operation_id: Some("getWidgetById".into()), ..Default::default() };
    assert_eq!(function_name(&op), Ok("get_widget_by_id".to_string()));
    assert_eq!(function_name(&Operation::default()), Err(GenerateError::MissingOperationId));
    assert_eq!(
        create_routing_instruction("/widgets/:id", Method::Delete, &op),
        Ok(RoutingInstruction { method: Method::Delete, method_name: "delete".into(), path: "/widgets/:id".into(), handler: "get_widget_by_id".into() })
    );
    assert_eq!(create_routing_instruction("/x", Method::Get, &Operation::default()), Err(GenerateError::MissingOperationId));
    assert_eq!(create_routing_function(&Operation::default(), &Spec::default()), Err(GenerateError::MissingOperationId));
}

fn sample() -> Spec {
    let widget = titled("Widget");
    let ok = |schema: Schema| ObjectOrReference::Object(Response {
        content: vec![("application/json".to_string(), MediaType { schema: Some(ObjectOrReference::Object(schema)) })],
        ..Default::default()
    });
    Spec {
        info: Info { title: "WidgetApi".into(), ..Default::default() },
        paths: vec![
            (
                "/widgets".to_string(),
                PathItem {
                    post: Some(Operation {
                        operation_id: Some("addWidget".into()),
                        request_body: body(vec![("application/json", widget.clone()), ("application/yaml", widget.clone())]),
                        responses: vec![("201".to_string(), ObjectOrReference::Object(Response::default()))],
                        ..Default::default()
                    }),
                    get: Some(Operation {
                        operation_id: Some("listWidgets".into()),
                        parameters: vec![ObjectOrReference::Object(parameter("limit", "query", Some(untitled(SchemaType::Integer))))],
                        responses: vec![("200".to_string(), ok(titled("WidgetList")))],
                        ..Default::default()
                    }),
                    ..Default::default()
                },
            ),
            (
                "/widgets/:id".to_string(),
                PathItem {
                    get: Some(Operation {
                        operation_id: Some("getWidget".into()),
                        parameters: vec![
                            ObjectOrReference::Object(parameter("id", "path", None)),
                            ObjectOrReference::Object(parameter("filter", "query", Some(titled("Filter")))),
                        ],
                        responses: vec![("200".to_string(), ok(widget.clone())), ("404".to_string(), ok(titled("Error")))],
                        ..Default::default()
                    }),
                    ..Default::default()
                },
            ),
        ],
        components: None,
        ..Default::default()
    }
}

#[test]
fn the_routing_table_has_one_entry_for_each_operation() {
    let table = run(&sample()).unwrap();
    assert_eq!(table.title, "WidgetApi");
    let places: Vec<(&str, Method, &str, &str)> = table
        .entries
        .iter()
        .map(|e| (e.instruction.path.as_str(), e.instruction.method, e.instruction.method_name.as_str(), e.instruction.handler.as_str()))
        .collect();
    assert_eq!(
        places,
        vec![
            ("/widgets", Method::Get, "get", "list_widgets"),
            ("/widgets", Method::Post, "post", "add_widget"),
            ("/widgets/:id", Method::Get, "get", "get_widget"),
        ]
    );
    assert_eq!(
        table.entries[2],
        RoutingEntry {
            instruction: RoutingInstruction { method: Method::Get, method_name: "get".into(), path: "/widgets/:id".into(), handler: "get_widget".into() },
            function: RoutingFunction {
                name: "get_widget".into(),
                parameters: vec![
                    ParameterBinding::PathVariable { key: "id".into(), variable: "id".into() },
                    ParameterBinding::QueryStruct { typ: "Filter".into(), variable: "filter".into() },
                ],
                bodies: vec![],
                result: ResultShape::TaggedUnion {
                    name: "GetWidgetResultType".into(),
                    variants: vec![
                        ("Result_200".into(), Some(ResultType::Named("Widget".into()))),
                        ("Result_404".into(), Some(ResultType::Named("Error".into()))),
                    ],
                },
            },
        }
    );
    assert_eq!(table.entries[1].function.bodies.len(), 1);
    assert_eq!(table.entries[1].function.result, ResultShape::NoValue);
}

#[test]
fn two_runs_give_the_same_artifacts() {
    let first: Generated = types(&sample()).unwrap();
    let second: Generated = types(&sample()).unwrap();
    assert_eq!(first, second);
    assert_eq!(first.title, "WidgetApi");
    assert_eq!(first.router.entries.len(), 3);
    assert_eq!(first.traits.operations.len(), 3);
    assert_eq!(first.types.iter().map(|d| d.name.as_str()).collect::<Vec<_>>(), vec!["Filter"]);
    let names: Vec<&str> = first.traits.operations.iter().map(|o| o.name.as_str()).collect();
    assert_eq!(names, vec!["list_widgets", "add_widget", "get_widget"]);
}

#[test]
fn a_run_gives_everything_or_nothing() {
    let mut spec = sample();
    spec.paths.push(("/last".to_string(), PathItem { trace: Some(Operation::default()), ..Default::default() }));
    assert_eq!(
        types(&spec),
        Err(Failure { path: "/last".into(), method: Method::Trace, error: GenerateError::MissingOperationId })
    );
    assert_eq!(run(&spec).err().map(|f| f.message()), Some("TRACE /last: Operation id is not provided".to_string()));
    assert_eq!(run(&Spec::default()), Ok(RoutingTable { title: String::new(), entries: vec![] }));
}
