//! The routing table: for each operation the path and method it answers, the
//! plan by which its inputs are taken from a request, and the shape of its
//! result.

use vstd::prelude::*;
use vstd::string::*;
use crate::casing::{cased, to_case, CaseStyle};
use crate::error::{located_at, method_text, Failure, FailureView, GenerateError, GenerateErrorView};
use crate::generate_trait::{
    body_candidates, build_result_type, collect_body_candidates, collect_response_types, distinct,
    names_once, response_types, result_shape, same, seconds, ResultShape, ResultShapeView,
};
use crate::model::{
    distinct_paths, located_values, text_pairs, Method, Operation, OperationView, Parameter,
    ParameterView, Schema, Spec, SpecView,
};
use crate::reference::RefOr;
use crate::resolve::target;
use crate::sequence::{
    first_of_each, lemma_try_map_error, lemma_try_map_ok, lemma_views_push, try_map, try_map_upto,
    views,
};
use crate::text::same_text;

verus! {

/// How one input of an operation is taken from a request.
#[derive(Clone, Debug, PartialEq, Eq)]
pub enum ParameterBinding {
    /// The segment of the path that the template names `key`.
    PathVariable { key: String, variable: String },
    /// The value of the query string under `key`, as plain text.
    QueryValue { key: String, variable: String },
    /// The whole query string, read as a value of the type `typ`.
    QueryStruct { typ: String, variable: String },
    /// The header named `key`.
    Header { key: String, variable: String },
    /// The cookie named `key`.
    Cookie { key: String, variable: String },
}

/// What a `ParameterBinding` holds, as plain values.
pub enum ParameterBindingView {
    PathVariable { key: Seq<char>, variable: Seq<char> },
    QueryValue { key: Seq<char>, variable: Seq<char> },
    QueryStruct { typ: Seq<char>, variable: Seq<char> },
    Header { key: Seq<char>, variable: Seq<char> },
    Cookie { key: Seq<char>, variable: Seq<char> },
}

impl View for ParameterBinding {
    type V = ParameterBindingView;

    open spec fn view(&self) -> ParameterBindingView {
        match self {
            ParameterBinding::PathVariable { key, variable } => ParameterBindingView::PathVariable {
                key: key@,
                variable: variable@,
            },
            ParameterBinding::QueryValue { key, variable } => ParameterBindingView::QueryValue {
                key: key@,
                variable: variable@,
            },
            ParameterBinding::QueryStruct { typ, variable } => ParameterBindingView::QueryStruct {
                typ: typ@,
                variable: variable@,
            },
            ParameterBinding::Header { key, variable } => ParameterBindingView::Header {
                key: key@,
                variable: variable@,
            },
            ParameterBinding::Cookie { key, variable } => ParameterBindingView::Cookie {
                key: key@,
                variable: variable@,
            },
        }
    }
}

/// The formats in which the body of a request can be read.
#[derive(Clone, Copy, Debug, PartialEq, Eq, Structural)]
pub enum Parser {
    Json,
    Yaml,
}

/// One attempt at reading the body of a request: under this media type, with
/// this parser, as a value of the type `typ`.
#[derive(Clone, Debug, PartialEq, Eq)]
pub struct ParseAttempt {
    pub media_type: String,
    pub parser: Parser,
    pub typ: String,
}

/// What a `ParseAttempt` holds, as plain values.
pub struct ParseAttemptView {
    pub media_type: Seq<char>,
    pub parser: Parser,
    pub typ: Seq<char>,
}

impl View for ParseAttempt {
    type V = ParseAttemptView;

    open spec fn view(&self) -> ParseAttemptView {
        ParseAttemptView { media_type: self.media_type@, parser: self.parser, typ: self.typ@ }
    }
}

/// How the body of a request becomes one input of an operation: the attempts
/// are made in order, and the first that succeeds gives the value.
#[derive(Clone, Debug, PartialEq, Eq)]
pub struct BodyBinding {
    pub variable: String,
    pub typ: String,
    pub attempts: Vec<ParseAttempt>,
}

/// What a `BodyBinding` holds, as plain values.
pub struct BodyBindingView {
    pub variable: Seq<char>,
    pub typ: Seq<char>,
    pub attempts: Seq<ParseAttemptView>,
}

impl View for BodyBinding {
    type V = BodyBindingView;

    open spec fn view(&self) -> BodyBindingView {
        BodyBindingView {
            variable: self.variable@,
            typ: self.typ@,
            attempts: views(self.attempts@),
        }
    }
}

/// Where an operation is registered: the method, its name in lower case, the
/// path, and the name of the function that handles it.
#[derive(Clone, Debug, PartialEq, Eq)]
pub struct RoutingInstruction {
    pub method: Method,
    pub method_name: String,
    pub path: String,
    pub handler: String,
}

/// What a `RoutingInstruction` holds, as plain values.
pub struct RoutingInstructionView {
    pub method: Method,
    pub method_name: Seq<char>,
    pub path: Seq<char>,
    pub handler: Seq<char>,
}

impl View for RoutingInstruction {
    type V = RoutingInstructionView;

    open spec fn view(&self) -> RoutingInstructionView {
        RoutingInstructionView {
            method: self.method,
            method_name: self.method_name@,
            path: self.path@,
            handler: self.handler@,
        }
    }
}

/// The function that handles an operation: its name, the plan for its
/// inputs from the parameters and from the body, and the shape of its result.
#[derive(Clone, Debug, PartialEq, Eq)]
pub struct RoutingFunction {
    pub name: String,
    pub parameters: Vec<ParameterBinding>,
    pub bodies: Vec<BodyBinding>,
    pub result: ResultShape,
}

/// What a `RoutingFunction` holds, as plain values.
pub struct RoutingFunctionView {
    pub name: Seq<char>,
    pub parameters: Seq<ParameterBindingView>,
    pub bodies: Seq<BodyBindingView>,
    pub result: ResultShapeView,
}

impl View for RoutingFunction {
    type V = RoutingFunctionView;

    open spec fn view(&self) -> RoutingFunctionView {
        RoutingFunctionView {
            name: self.name@,
            parameters: views(self.parameters@),
            bodies: views(self.bodies@),
            result: self.result@,
        }
    }
}

/// One entry of the routing table.
#[derive(Clone, Debug, PartialEq, Eq)]
pub struct RoutingEntry {
    pub instruction: RoutingInstruction,
    pub function: RoutingFunction,
}

/// What a `RoutingEntry` holds, as plain values.
pub struct RoutingEntryView {
    pub instruction: RoutingInstructionView,
    pub function: RoutingFunctionView,
}

impl View for RoutingEntry {
    type V = RoutingEntryView;

    open spec fn view(&self) -> RoutingEntryView {
        RoutingEntryView { instruction: self.instruction@, function: self.function@ }
    }
}

/// The routing table of a service: its title and its entries, in order.
#[derive(Clone, Debug, PartialEq, Eq)]
pub struct RoutingTable {
    pub title: String,
    pub entries: Vec<RoutingEntry>,
}

/// What a `RoutingTable` holds, as plain values.
pub struct RoutingTableView {
    pub title: Seq<char>,
    pub entries: Seq<RoutingEntryView>,
}

impl View for RoutingTable {
    type V = RoutingTableView;

    open spec fn view(&self) -> RoutingTableView {
        RoutingTableView { title: self.title@, entries: views(self.entries@) }
    }
}

/// The name of the function that handles an operation: its identifier in
/// snake case.
pub open spec fn handler_name(operation: OperationView) -> Result<Seq<char>, GenerateErrorView> {
    match operation.operation_id {
        Some(id) => Ok(cased(id, CaseStyle::Snake)),
        None => Err(GenerateErrorView::MissingOperationId),
    }
}

/// The name of the function that handles an operation.
pub fn function_name(operation: &Operation) -> (r: Result<String, GenerateError>)
    ensures
        match r {
            Ok(name) => handler_name(operation@) == Ok::<Seq<char>, GenerateErrorView>(name@),
            Err(e) => handler_name(operation@) == Err::<Seq<char>, GenerateErrorView>(e@),
        },
{
    match &operation.operation_id {
        Some(id) => Ok(to_case(id.as_str(), CaseStyle::Snake)),
        None => Err(GenerateError::MissingOperationId),
    }
}

/// Where an operation is registered.
pub open spec fn routing_instruction(
    path: Seq<char>,
    method: Method,
    operation: OperationView,
) -> Result<RoutingInstructionView, GenerateErrorView> {
    match handler_name(operation) {
        Err(e) => Err(e),
        Ok(handler) => Ok(
            RoutingInstructionView {
                method,
                method_name: cased(method_text(method), CaseStyle::Lower),
                path,
                handler,
            },
        ),
    }
}

/// Where an operation is registered.
pub fn create_routing_instruction(path: &str, method: Method, operation: &Operation) -> (r: Result<
    RoutingInstruction,
    GenerateError,
>)
    ensures
        match r {
            Ok(instruction) => routing_instruction(path@, method, operation@) == Ok::<
                RoutingInstructionView,
                GenerateErrorView,
            >(instruction@),
            Err(e) => routing_instruction(path@, method, operation@) == Err::<
                RoutingInstructionView,
                GenerateErrorView,
            >(e@),
        },
{
    match function_name(operation) {
        Err(e) => Err(e),
        Ok(handler) => Ok(
            RoutingInstruction {
                method,
                method_name: to_case(method.as_str(), CaseStyle::Lower),
                path: crate::text::owned(path),
                handler,
            },
        ),
    }
}

/// The variable that holds the value of a parameter: its name in snake case.
pub open spec fn variable_of(parameter: ParameterView) -> Seq<char> {
    cased(parameter.name, CaseStyle::Snake)
}

/// A parameter of the path is taken from the segment under its own name.
pub fn var_from_path(parameter: &Parameter) -> (r: ParameterBinding)
    ensures
        r@ == (ParameterBindingView::PathVariable {
            key: parameter.name@,
            variable: variable_of(parameter@),
        }),
{
    ParameterBinding::PathVariable {
        key: parameter.name.clone(),
        variable: to_case(parameter.name.as_str(), CaseStyle::Snake),
    }
}

/// A parameter among the headers is looked up under its own name.
pub fn var_from_header(parameter: &Parameter) -> (r: ParameterBinding)
    ensures
        r@ == (ParameterBindingView::Header {
            key: parameter.name@,
            variable: variable_of(parameter@),
        }),
{
    ParameterBinding::Header {
        key: parameter.name.clone(),
        variable: to_case(parameter.name.as_str(), CaseStyle::Snake),
    }
}

/// A parameter among the cookies is looked up under its own name.
pub fn var_from_cookie(parameter: &Parameter) -> (r: ParameterBinding)
    ensures
        r@ == (ParameterBindingView::Cookie {
            key: parameter.name@,
            variable: variable_of(parameter@),
        }),
{
    ParameterBinding::Cookie {
        key: parameter.name.clone(),
        variable: to_case(parameter.name.as_str(), CaseStyle::Snake),
    }
}

/// How a parameter of the query string is taken. Its schema must be there.
/// Under a schema without title the value is the plain text under the
/// parameter's own name; under a schema with a title the whole query string
/// is read as a value of the type that the title names in Pascal case.
pub open spec fn query_binding(spec: SpecView, parameter: ParameterView) -> Result<
    ParameterBindingView,
    GenerateErrorView,
> {
    match parameter.schema {
        None => Err(GenerateErrorView::MissingSchema),
        Some(schema) => match target::<Schema>(schema, spec) {
            Err(e) => Err(GenerateErrorView::Reference(e)),
            Ok(schema) => match schema.title {
                None => Ok(
                    ParameterBindingView::QueryValue {
                        key: parameter.name,
                        variable: variable_of(parameter),
                    },
                ),
                Some(title) => Ok(
                    ParameterBindingView::QueryStruct {
                        typ: cased(title, CaseStyle::Pascal),
                        variable: variable_of(parameter),
                    },
                ),
            },
        },
    }
}

/// How a parameter of the query string is taken.
pub fn var_from_query(parameter: &Parameter, spec: &Spec) -> (r: Result<
    ParameterBinding,
    GenerateError,
>)
    ensures
        match r {
            Ok(binding) => query_binding(spec@, parameter@) == Ok::<
                ParameterBindingView,
                GenerateErrorView,
            >(binding@),
            Err(e) => query_binding(spec@, parameter@) == Err::<
                ParameterBindingView,
                GenerateErrorView,
            >(e@),
        },
{
    let schema = match &parameter.schema {
        None => {
            return Err(GenerateError::MissingSchema);
        },
        Some(schema) => match schema.resolve(spec) {
            Ok(schema) => schema,
            Err(e) => {
                return Err(GenerateError::Reference(e));
            },
        },
    };
    let variable = to_case(parameter.name.as_str(), CaseStyle::Snake);
    match &schema.title {
        None => Ok(ParameterBinding::QueryValue { key: parameter.name.clone(), variable }),
        Some(title) => Ok(
            ParameterBinding::QueryStruct {
                typ: to_case(title.as_str(), CaseStyle::Pascal),
                variable,
            },
        ),
    }
}

/// How a parameter is taken from a request, by its location.
pub open spec fn parameter_binding(spec: SpecView, parameter: ParameterView) -> Result<
    ParameterBindingView,
    GenerateErrorView,
> {
    if parameter.location == "query"@ {
        query_binding(spec, parameter)
    } else if parameter.location == "header"@ {
        Ok(ParameterBindingView::Header { key: parameter.name, variable: variable_of(parameter) })
    } else if parameter.location == "path"@ {
        Ok(
            ParameterBindingView::PathVariable {
                key: parameter.name,
                variable: variable_of(parameter),
            },
        )
    } else if parameter.location == "cookie"@ {
        Ok(ParameterBindingView::Cookie { key: parameter.name, variable: variable_of(parameter) })
    } else {
        Err(GenerateErrorView::UnsupportedParameterLocation(parameter.location))
    }
}

/// How a parameter is taken from a request, by its location.
pub fn var_from_param(parameter: &Parameter, spec: &Spec) -> (r: Result<
    ParameterBinding,
    GenerateError,
>)
    ensures
        match r {
            Ok(binding) => parameter_binding(spec@, parameter@) == Ok::<
                ParameterBindingView,
                GenerateErrorView,
            >(binding@),
            Err(e) => parameter_binding(spec@, parameter@) == Err::<
                ParameterBindingView,
                GenerateErrorView,
            >(e@),
        },
{
    let location = parameter.location.as_str();
    if same_text(location, "query") {
        var_from_query(parameter, spec)
    } else if same_text(location, "header") {
        Ok(var_from_header(parameter))
    } else if same_text(location, "path") {
        Ok(var_from_path(parameter))
    } else if same_text(location, "cookie") {
        Ok(var_from_cookie(parameter))
    } else {
        Err(GenerateError::UnsupportedParameterLocation(parameter.location.clone()))
    }
}

/// A query parameter whose schema has no title is taken as plain text under
/// its own name, as it is written in the specification.
pub proof fn lemma_untitled_query_is_plain(spec: SpecView, parameter: ParameterView)
    requires
        parameter.location == "query"@,
        parameter.schema matches Some(schema) && target::<Schema>(schema, spec) matches Ok(found)
            && found.title is None,
    ensures
        parameter_binding(spec, parameter) == Ok::<ParameterBindingView, GenerateErrorView>(
            ParameterBindingView::QueryValue {
                key: parameter.name,
                variable: variable_of(parameter),
            },
        ),
{
}

/// How one parameter of an operation is taken, where it may be a reference.
pub open spec fn binding_of(spec: SpecView, parameter: RefOr<ParameterView>) -> Result<
    ParameterBindingView,
    GenerateErrorView,
> {
    match target::<Parameter>(parameter, spec) {
        Err(e) => Err(GenerateErrorView::Reference(e)),
        Ok(parameter) => parameter_binding(spec, parameter),
    }
}

/// `binding_of`, as a step over the parameters of an operation.
pub open spec fn per_parameter(spec: SpecView) -> spec_fn(RefOr<ParameterView>) -> Result<
    ParameterBindingView,
    GenerateErrorView,
> {
    |parameter: RefOr<ParameterView>| binding_of(spec, parameter)
}

/// The plan for the parameters of an operation: one binding for each, in
/// order.
pub open spec fn parameter_plan(spec: SpecView, operation: OperationView) -> Result<
    Seq<ParameterBindingView>,
    GenerateErrorView,
> {
    try_map(operation.parameters, per_parameter(spec))
}

/// The plan for the parameters of an operation.
pub fn get_vars_from_params(operation: &Operation, spec: &Spec) -> (r: Result<
    Vec<ParameterBinding>,
    GenerateError,
>)
    ensures
        match r {
            Ok(plan) => parameter_plan(spec@, operation@) == Ok::<
                Seq<ParameterBindingView>,
                GenerateErrorView,
            >(views(plan@)),
            Err(e) => parameter_plan(spec@, operation@) == Err::<
                Seq<ParameterBindingView>,
                GenerateErrorView,
            >(e@),
        },
{
    let mut plan: Vec<ParameterBinding> = Vec::new();
    let count = operation.parameters.len();
    let ghost step = per_parameter(spec@);
    let mut i: usize = 0;
    assert(views(plan@) =~= Seq::empty());
    while i < count
        invariant
            count == operation.parameters.len(),
            i <= count,
            step == per_parameter(spec@),
            try_map_upto(operation@.parameters, step, i as int) == Ok::<
                Seq<ParameterBindingView>,
                GenerateErrorView,
            >(views(plan@)),
        decreases count - i,
    {
        let parameter = match operation.parameters[i].resolve(spec) {
            Ok(parameter) => parameter,
            Err(e) => {
                proof {
                    lemma_try_map_error(operation@.parameters, step, i + 1, count as int);
                }
                return Err(GenerateError::Reference(e));
            },
        };
        let binding = match var_from_param(parameter, spec) {
            Ok(binding) => binding,
            Err(e) => {
                proof {
                    lemma_try_map_error(operation@.parameters, step, i + 1, count as int);
                }
                return Err(e);
            },
        };
        let ghost before = plan@;
        plan.push(binding);
        proof {
            lemma_views_push(before, binding);
        }
        i += 1;
    }
    Ok(plan)
}

/// The parser for a media type: JSON for `application/json`, YAML for
/// `application/yaml`, and none for any other.
pub open spec fn parser_of(media_type: Seq<char>) -> Option<Parser> {
    if media_type == "application/yaml"@ {
        Some(Parser::Yaml)
    } else if media_type == "application/json"@ {
        Some(Parser::Json)
    } else {
        None
    }
}

/// The attempt at reading a body under one media type as a value of the
/// type that the title of the schema names.
pub open spec fn parse_attempt(media_type: Seq<char>, title: Seq<char>) -> Result<
    ParseAttemptView,
    GenerateErrorView,
> {
    match parser_of(media_type) {
        Some(parser) => Ok(ParseAttemptView { media_type, parser, typ: title }),
        None => Err(GenerateErrorView::UnsupportedMediaType(media_type)),
    }
}

/// The attempt at reading a body under one media type.
pub fn get_parse_instruction(mime: &str, title: &str) -> (r: Result<ParseAttempt, GenerateError>)
    ensures
        match r {
            Ok(attempt) => parse_attempt(mime@, title@) == Ok::<
                ParseAttemptView,
                GenerateErrorView,
            >(attempt@),
            Err(e) => parse_attempt(mime@, title@) == Err::<
                ParseAttemptView,
                GenerateErrorView,
            >(e@),
        },
{
    let parser = if same_text(mime, "application/yaml") {
        Parser::Yaml
    } else if same_text(mime, "application/json") {
        Parser::Json
    } else {
        return Err(GenerateError::UnsupportedMediaType(crate::text::owned(mime)));
    };
    Ok(
        ParseAttempt {
            media_type: crate::text::owned(mime),
            parser,
            typ: crate::text::owned(title),
        },
    )
}

/// `parse_attempt`, as a step over pairs of a media type and a title.
pub open spec fn per_candidate() -> spec_fn((Seq<char>, Seq<char>)) -> Result<
    ParseAttemptView,
    GenerateErrorView,
> {
    |pair: (Seq<char>, Seq<char>)| parse_attempt(pair.0, pair.1)
}

/// Whether an attempt reads the body as a value of the type `title`.
pub open spec fn reads_as(title: Seq<char>) -> spec_fn(ParseAttemptView) -> bool {
    |attempt: ParseAttemptView| attempt.typ == title
}

/// The binding for the bodies that are read as `title`: a variable named by
/// the title in snake case, of the type named by the title in Pascal case,
/// with those of the attempts that read a value of that title, in order.
pub open spec fn body_binding(attempts: Seq<ParseAttemptView>) -> spec_fn(
    Seq<char>,
) -> BodyBindingView {
    |title: Seq<char>|
        BodyBindingView {
            variable: cased(title, CaseStyle::Snake),
            typ: cased(title, CaseStyle::Pascal),
            attempts: attempts.filter(reads_as(title)),
        }
}

/// The plan for the body of a request, from the media types of the body with
/// the titles of their schemas: one binding for each title, at the first
/// place of the title, each with the attempts for its media types in the
/// order of the body.
pub open spec fn body_plan(pairs: Seq<(Seq<char>, Seq<char>)>) -> Result<
    Seq<BodyBindingView>,
    GenerateErrorView,
> {
    match try_map(pairs, per_candidate()) {
        Err(e) => Err(e),
        Ok(attempts) => Ok(names_once(seconds(pairs)).map_values(body_binding(attempts))),
    }
}

/// Names that all read `title` are, each once, the one name `title`.
pub proof fn lemma_one_name_once(names: Seq<Seq<char>>, title: Seq<char>)
    requires
        names.len() > 0,
        forall|i: int| 0 <= i < names.len() ==> names[i] == title,
    ensures
        names_once(names) == seq![title],
    decreases names.len(),
{
    let rest = names.drop_last();
    if rest.len() > 0 {
        lemma_one_name_once(rest, title);
        assert(first_of_each(rest, same()).map_values(same())[0] == title);
    } else {
        assert(first_of_each(rest, same()) =~= Seq::empty());
        assert(names_once(names) =~= seq![title]);
    }
}

/// Attempts that all read a value of the type `title` stay as they are when
/// those for `title` are picked.
pub proof fn lemma_all_attempts_stay(attempts: Seq<ParseAttemptView>, title: Seq<char>)
    requires
        forall|i: int| 0 <= i < attempts.len() ==> attempts[i].typ == title,
    ensures
        attempts.filter(reads_as(title)) == attempts,
    decreases attempts.len(),
{
    reveal(Seq::filter);
    if attempts.len() > 0 {
        lemma_all_attempts_stay(attempts.drop_last(), title);
        assert(attempts.drop_last().push(attempts.last()) =~= attempts);
    }
}

/// The media types of a body whose schemas all have one title give one
/// binding, with one attempt for each media type, in the order of the body.
pub proof fn lemma_one_title_one_binding(pairs: Seq<(Seq<char>, Seq<char>)>, title: Seq<char>)
    requires
        pairs.len() > 0,
        forall|i: int| 0 <= i < pairs.len() ==> (#[trigger] pairs[i]).1 == title,
        try_map(pairs, per_candidate()) is Ok,
    ensures
        body_plan(pairs) == Ok::<Seq<BodyBindingView>, GenerateErrorView>(
            seq![
                BodyBindingView {
                    variable: cased(title, CaseStyle::Snake),
                    typ: cased(title, CaseStyle::Pascal),
                    attempts: try_map(pairs, per_candidate())->Ok_0,
                },
            ],
        ),
        try_map(pairs, per_candidate())->Ok_0.len() == pairs.len(),
        forall|i: int|
            0 <= i < pairs.len() ==> (#[trigger] try_map(
                pairs,
                per_candidate(),
            )->Ok_0[i]).media_type == pairs[i].0,
{
    let attempts = try_map(pairs, per_candidate())->Ok_0;
    lemma_try_map_ok(pairs, per_candidate(), pairs.len() as int);
    assert forall|i: int| 0 <= i < attempts.len() implies attempts[i].typ == title
        && attempts[i].media_type == pairs[i].0 by {
        assert(per_candidate()(pairs[i]) == Ok::<ParseAttemptView, GenerateErrorView>(attempts[i]));
    }
    lemma_all_attempts_stay(attempts, title);
    lemma_one_name_once(seconds(pairs), title);
    assert(seq![title].map_values(body_binding(attempts)) =~= seq![body_binding(attempts)(title)]);
}

/// The attempts that read a value of the type `title`, in order.
pub fn attempts_for(attempts: &Vec<ParseAttempt>, title: &str) -> (r: Vec<ParseAttempt>)
    ensures
        views(r@) == views(attempts@).filter(reads_as(title@)),
{
    let mut kept: Vec<ParseAttempt> = Vec::new();
    let ghost wanted = reads_as(title@);
    let mut i: usize = 0;
    proof {
        reveal(Seq::filter);
        assert(views(attempts@).take(0) =~= Seq::empty());
        assert(views(kept@) =~= Seq::empty());
    }
    while i < attempts.len()
        invariant
            i <= attempts.len(),
            wanted == reads_as(title@),
            views(kept@) == views(attempts@).take(i as int).filter(wanted),
        decreases attempts.len() - i,
    {
        proof {
            assert(views(attempts@).take(i + 1) =~= views(attempts@).take(i as int).push(
                attempts[i as int]@,
            ));
            views(attempts@).take(i as int).lemma_filter_push(attempts[i as int]@, wanted);
        }
        if same_text(attempts[i].typ.as_str(), title) {
            let ghost before = kept@;
            let copy = ParseAttempt {
                media_type: attempts[i].media_type.clone(),
                parser: attempts[i].parser,
                typ: attempts[i].typ.clone(),
            };
            kept.push(copy);
            proof {
                lemma_views_push(before, copy);
            }
        }
        i += 1;
    }
    assert(views(attempts@).take(attempts@.len() as int) =~= views(attempts@));
    kept
}

/// The plan for the body of a request.
pub fn get_vars_from_body(content: &Vec<(String, String)>) -> (r: Result<
    Vec<BodyBinding>,
    GenerateError,
>)
    ensures
        match r {
            Ok(plan) => body_plan(text_pairs(content@)) == Ok::<
                Seq<BodyBindingView>,
                GenerateErrorView,
            >(views(plan@)),
            Err(e) => body_plan(text_pairs(content@)) == Err::<
                Seq<BodyBindingView>,
                GenerateErrorView,
            >(e@),
        },
{
    let mut attempts: Vec<ParseAttempt> = Vec::new();
    let mut titles: Vec<String> = Vec::new();
    let ghost step = per_candidate();
    let mut i: usize = 0;
    assert(views(attempts@) =~= Seq::empty());
    assert(views(titles@) =~= seconds(text_pairs(content@)).take(0));
    while i < content.len()
        invariant
            i <= content.len(),
            step == per_candidate(),
            try_map_upto(text_pairs(content@), step, i as int) == Ok::<
                Seq<ParseAttemptView>,
                GenerateErrorView,
            >(views(attempts@)),
            views(titles@) == seconds(text_pairs(content@)).take(i as int),
        decreases content.len() - i,
    {
        let attempt = match get_parse_instruction(content[i].0.as_str(), content[i].1.as_str()) {
            Ok(attempt) => attempt,
            Err(e) => {
                proof {
                    lemma_try_map_error(text_pairs(content@), step, i + 1, content.len() as int);
                }
                return Err(e);
            },
        };
        let ghost before = attempts@;
        let ghost titles_before = titles@;
        let title = content[i].1.clone();
        attempts.push(attempt);
        titles.push(title);
        proof {
            lemma_views_push(before, attempt);
            lemma_views_push(titles_before, title);
            assert(views(titles@) =~= seconds(text_pairs(content@)).take(i + 1));
        }
        i += 1;
    }
    assert(seconds(text_pairs(content@)).take(content@.len() as int) =~= seconds(
        text_pairs(content@),
    ));
    let once = distinct(&titles);
    let mut plan: Vec<BodyBinding> = Vec::new();
    let ghost all = views(once@).map_values(body_binding(views(attempts@)));
    let mut j: usize = 0;
    assert(views(plan@) =~= all.take(0));
    while j < once.len()
        invariant
            j <= once.len(),
            all == views(once@).map_values(body_binding(views(attempts@))),
            views(plan@) == all.take(j as int),
        decreases once.len() - j,
    {
        let ghost before = plan@;
        let binding = BodyBinding {
            variable: to_case(once[j].as_str(), CaseStyle::Snake),
            typ: to_case(once[j].as_str(), CaseStyle::Pascal),
            attempts: attempts_for(&attempts, once[j].as_str()),
        };
        plan.push(binding);
        proof {
            lemma_views_push(before, binding);
            assert(views(plan@) =~= all.take(j + 1));
        }
        j += 1;
    }
    assert(all.take(once@.len() as int) =~= all);
    Ok(plan)
}

/// The plan for the body of the requests of an operation.
pub open spec fn request_plan(spec: SpecView, operation: OperationView) -> Result<
    Seq<BodyBindingView>,
    GenerateErrorView,
> {
    match body_candidates(spec, operation) {
        Err(e) => Err(e),
        Ok(pairs) => body_plan(pairs),
    }
}

/// The plan for the body of the requests of an operation.
pub fn get_vars_from_request(operation: &Operation, spec: &Spec) -> (r: Result<
    Vec<BodyBinding>,
    GenerateError,
>)
    ensures
        match r {
            Ok(plan) => request_plan(spec@, operation@) == Ok::<
                Seq<BodyBindingView>,
                GenerateErrorView,
            >(views(plan@)),
            Err(e) => request_plan(spec@, operation@) == Err::<
                Seq<BodyBindingView>,
                GenerateErrorView,
            >(e@),
        },
{
    match collect_body_candidates(spec, operation) {
        Err(e) => Err(e),
        Ok(content) => get_vars_from_body(&content),
    }
}

/// The plans for the inputs of an operation: for its parameters, then for
/// the body of its requests.
pub open spec fn operation_input(spec: SpecView, operation: OperationView) -> Result<
    (Seq<ParameterBindingView>, Seq<BodyBindingView>),
    GenerateErrorView,
> {
    match parameter_plan(spec, operation) {
        Err(e) => Err(e),
        Ok(parameters) => match request_plan(spec, operation) {
            Err(e) => Err(e),
            Ok(bodies) => Ok((parameters, bodies)),
        },
    }
}

/// The plans for the inputs of an operation.
pub fn get_operation_input(operation: &Operation, spec: &Spec) -> (r: Result<
    (Vec<ParameterBinding>, Vec<BodyBinding>),
    GenerateError,
>)
    ensures
        match r {
            Ok((parameters, bodies)) => operation_input(spec@, operation@) == Ok::<
                (Seq<ParameterBindingView>, Seq<BodyBindingView>),
                GenerateErrorView,
            >((views(parameters@), views(bodies@))),
            Err(e) => operation_input(spec@, operation@) == Err::<
                (Seq<ParameterBindingView>, Seq<BodyBindingView>),
                GenerateErrorView,
            >(e@),
        },
{
    let parameters = match get_vars_from_params(operation, spec) {
        Ok(parameters) => parameters,
        Err(e) => {
            return Err(e);
        },
    };
    match get_vars_from_request(operation, spec) {
        Ok(bodies) => Ok((parameters, bodies)),
        Err(e) => Err(e),
    }
}

/// The function that handles an operation.
pub open spec fn routing_function(spec: SpecView, operation: OperationView) -> Result<
    RoutingFunctionView,
    GenerateErrorView,
> {
    match handler_name(operation) {
        Err(e) => Err(e),
        Ok(name) => match operation_input(spec, operation) {
            Err(e) => Err(e),
            Ok((parameters, bodies)) => match response_types(spec, operation) {
                Err(e) => Err(e),
                Ok(codes) => Ok(
                    RoutingFunctionView {
                        name,
                        parameters,
                        bodies,
                        result: result_shape(operation.operation_id->0, codes),
                    },
                ),
            },
        },
    }
}

/// The function that handles an operation.
pub fn create_routing_function(operation: &Operation, spec: &Spec) -> (r: Result<
    RoutingFunction,
    GenerateError,
>)
    ensures
        match r {
            Ok(function) => routing_function(spec@, operation@) == Ok::<
                RoutingFunctionView,
                GenerateErrorView,
            >(function@),
            Err(e) => routing_function(spec@, operation@) == Err::<
                RoutingFunctionView,
                GenerateErrorView,
            >(e@),
        },
{
    let name = match function_name(operation) {
        Ok(name) => name,
        Err(e) => {
            return Err(e);
        },
    };
    let (parameters, bodies) = match get_operation_input(operation, spec) {
        Ok(input) => input,
        Err(e) => {
            return Err(e);
        },
    };
    let codes = match collect_response_types(spec, operation) {
        Ok(codes) => codes,
        Err(e) => {
            return Err(e);
        },
    };
    let id = match &operation.operation_id {
        Some(id) => id,
        None => {
            return Err(GenerateError::MissingOperationId);
        },
    };
    let result = build_result_type(id.as_str(), &codes);
    Ok(RoutingFunction { name, parameters, bodies, result })
}

/// The entry of the routing table for one operation.
pub open spec fn routing_entry(
    spec: SpecView,
    path: Seq<char>,
    method: Method,
    operation: OperationView,
) -> Result<RoutingEntryView, GenerateErrorView> {
    match routing_function(spec, operation) {
        Err(e) => Err(e),
        Ok(function) => match routing_instruction(path, method, operation) {
            Err(e) => Err(e),
            Ok(instruction) => Ok(RoutingEntryView { instruction, function }),
        },
    }
}

/// `routing_entry`, as a step over the operations of a specification.
pub open spec fn per_operation(spec: SpecView) -> spec_fn(
    (Seq<char>, Method, OperationView),
) -> Result<RoutingEntryView, FailureView> {
    |entry: (Seq<char>, Method, OperationView)|
        located_at(entry.0, entry.1, routing_entry(spec, entry.0, entry.1, entry.2))
}

/// The entries of the routing table: one for each operation, in order.
pub open spec fn routing_entries(spec: SpecView) -> Result<Seq<RoutingEntryView>, FailureView> {
    try_map(spec.operations(), per_operation(spec))
}

/// The entries of the routing table.
pub fn create_routing_functions(spec: &Spec) -> (r: Result<Vec<RoutingEntry>, Failure>)
    ensures
        match r {
            Ok(entries) => routing_entries(spec@) == Ok::<Seq<RoutingEntryView>, FailureView>(
                views(entries@),
            ),
            Err(e) => routing_entries(spec@) == Err::<Seq<RoutingEntryView>, FailureView>(e@),
        },
{
    let operations = spec.operations();
    let mut entries: Vec<RoutingEntry> = Vec::new();
    let ghost step = per_operation(spec@);
    let mut i: usize = 0;
    assert(views(entries@) =~= Seq::empty());
    while i < operations.len()
        invariant
            i <= operations.len(),
            located_values(operations@) == spec@.operations(),
            step == per_operation(spec@),
            try_map_upto(spec@.operations(), step, i as int) == Ok::<
                Seq<RoutingEntryView>,
                FailureView,
            >(views(entries@)),
        decreases operations.len() - i,
    {
        let (path, method, operation) = operations[i];
        assert(spec@.operations()[i as int] == (path@, method, operation@));
        let function = match create_routing_function(operation, spec) {
            Ok(function) => function,
            Err(error) => {
                proof {
                    lemma_try_map_error(
                        spec@.operations(),
                        step,
                        i + 1,
                        operations.len() as int,
                    );
                }
                return Err(Failure { path: path.clone(), method, error });
            },
        };
        let instruction = match create_routing_instruction(path.as_str(), method, operation) {
            Ok(instruction) => instruction,
            Err(error) => {
                proof {
                    lemma_try_map_error(
                        spec@.operations(),
                        step,
                        i + 1,
                        operations.len() as int,
                    );
                }
                return Err(Failure { path: path.clone(), method, error });
            },
        };
        let ghost before = entries@;
        let entry = RoutingEntry { instruction, function };
        entries.push(entry);
        proof {
            lemma_views_push(before, entry);
        }
        i += 1;
    }
    Ok(entries)
}

/// The routing table of a specification: its title, and one entry for each
/// operation, in order.
pub open spec fn routing_table(spec: SpecView) -> Result<RoutingTableView, FailureView> {
    match routing_entries(spec) {
        Err(e) => Err(e),
        Ok(entries) => Ok(RoutingTableView { title: spec.info.title, entries }),
    }
}

/// The routing table keeps the order of the specification: it has one entry
/// for each operation of the specification, at the same place, under the
/// path and the method of that operation.
pub proof fn lemma_routes_keep_order(spec: SpecView)
    requires
        routing_table(spec) is Ok,
    ensures
        routing_table(spec)->Ok_0.entries.len() == spec.operations().len(),
        forall|k: int|
            0 <= k < spec.operations().len() ==> {
                let operation = #[trigger] spec.operations()[k];
                let entry = routing_table(spec)->Ok_0.entries[k];
                &&& entry.instruction.path == operation.0
                &&& entry.instruction.method == operation.1
                &&& routing_function(spec, operation.2) == Ok::<
                    RoutingFunctionView,
                    GenerateErrorView,
                >(entry.function)
            },
{
    let operations = spec.operations();
    lemma_try_map_ok(operations, per_operation(spec), operations.len() as int);
    assert forall|k: int| 0 <= k < operations.len() implies {
        let operation = #[trigger] operations[k];
        let entry = routing_table(spec)->Ok_0.entries[k];
        &&& entry.instruction.path == operation.0
        &&& entry.instruction.method == operation.1
        &&& routing_function(spec, operation.2) == Ok::<RoutingFunctionView, GenerateErrorView>(
            entry.function,
        )
    } by {
        assert(per_operation(spec)(operations[k]) is Ok);
    }
}

/// Where no two paths of the specification have one text, the routing table
/// has one entry for each pair of a path and a method: no two entries share
/// both.
pub proof fn lemma_one_entry_for_each_route(spec: SpecView)
    requires
        routing_table(spec) is Ok,
        distinct_paths(spec.paths),
    ensures
        forall|i: int, j: int|
            0 <= i < j < routing_table(spec)->Ok_0.entries.len() ==> (
            #[trigger] routing_table(spec)->Ok_0.entries[i]).instruction.path != (
            #[trigger] routing_table(spec)->Ok_0.entries[j]).instruction.path || routing_table(
                spec,
            )->Ok_0.entries[i].instruction.method != routing_table(
                spec,
            )->Ok_0.entries[j].instruction.method,
{
    let operations = spec.operations();
    let entries = routing_table(spec)->Ok_0.entries;
    lemma_routes_keep_order(spec);
    spec.lemma_operations_differ(spec.paths.len() as int);
    assert forall|i: int, j: int| 0 <= i < j < entries.len() implies (
    #[trigger] entries[i]).instruction.path != (#[trigger] entries[j]).instruction.path
        || entries[i].instruction.method != entries[j].instruction.method by {
        assert(entries[i].instruction.path == operations[i].0);
        assert(entries[j].instruction.path == operations[j].0);
    }
}

/// The routing table of a specification.
pub fn run(spec: &Spec) -> (r: Result<RoutingTable, Failure>)
    ensures
        match r {
            Ok(table) => routing_table(spec@) == Ok::<RoutingTableView, FailureView>(table@),
            Err(e) => routing_table(spec@) == Err::<RoutingTableView, FailureView>(e@),
        },
{
    match create_routing_functions(spec) {
        Ok(entries) => Ok(RoutingTable { title: spec.info.title.clone(), entries }),
        Err(e) => Err(e),
    }
}

} // verus!
