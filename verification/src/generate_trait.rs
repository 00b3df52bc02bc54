//! The service interface: one operation for each operation of the
//! specification, with its inputs and the shape of its result.

use vstd::prelude::*;
use vstd::string::*;
use crate::casing::{cased, to_case, CaseStyle};
use crate::error::{located_at, Failure, FailureView, GenerateError, GenerateErrorView};
use crate::model::{
    located_values, text_pairs, MediaTypeView, Method, Operation, OperationView, Parameter,
    ParameterView, RequestBody, Response, ResponseView, Schema, SchemaType, SchemaView, Spec,
    SpecView,
};
use crate::reference::{ObjectOrReference, RefOr};
use crate::resolve::target;
use crate::sequence::{
    first_of_each, keys_of, lemma_try_map_error, lemma_try_map_ok, lemma_views_push, option_view,
    try_map, try_map_upto, views,
};
use crate::text::{joined, owned, same_text};

verus! {

/// One input of an operation of the interface.
#[derive(Clone, Debug, PartialEq, Eq)]
pub struct Input {
    pub name: String,
    pub typ: String,
}

/// What an `Input` holds, as plain values.
pub struct InputView {
    pub name: Seq<char>,
    pub typ: Seq<char>,
}

impl View for Input {
    type V = InputView;

    open spec fn view(&self) -> InputView {
        InputView { name: self.name@, typ: self.typ@ }
    }
}

/// The type of what an operation returns under one status code.
#[derive(Clone, Debug, PartialEq, Eq)]
pub enum ResultType {
    /// The type of that name.
    Named(String),
    /// A sum type made for the operation, with one case for each of the
    /// types.
    Sum { name: String, cases: Vec<String> },
}

/// What a `ResultType` holds, as plain values.
pub enum ResultTypeView {
    Named(Seq<char>),
    Sum { name: Seq<char>, cases: Seq<Seq<char>> },
}

impl View for ResultType {
    type V = ResultTypeView;

    open spec fn view(&self) -> ResultTypeView {
        match self {
            ResultType::Named(name) => ResultTypeView::Named(name@),
            ResultType::Sum { name, cases } => ResultTypeView::Sum {
                name: name@,
                cases: views(cases@),
            },
        }
    }
}

/// The variants of a tagged union, as plain values.
pub open spec fn variant_views(variants: Seq<(String, Option<ResultType>)>) -> Seq<
    (Seq<char>, Option<ResultTypeView>),
> {
    variants.map_values(
        |variant: (String, Option<ResultType>)| (variant.0@, option_view(variant.1)),
    )
}

/// What a call of the code that makes the variants gave: the variants of a
/// union, a single type, or nothing.
#[derive(Clone, Debug, PartialEq, Eq)]
pub enum SomeType {
    EnumOfCodes(Vec<(String, Option<ResultType>)>),
    SingleType(ResultType),
    NoReturn,
}

/// What a `SomeType` holds, as plain values.
pub enum SomeTypeView {
    EnumOfCodes(Seq<(Seq<char>, Option<ResultTypeView>)>),
    SingleType(ResultTypeView),
    NoReturn,
}

impl View for SomeType {
    type V = SomeTypeView;

    open spec fn view(&self) -> SomeTypeView {
        match self {
            SomeType::EnumOfCodes(variants) => SomeTypeView::EnumOfCodes(variant_views(variants@)),
            SomeType::SingleType(single) => SomeTypeView::SingleType(single@),
            SomeType::NoReturn => SomeTypeView::NoReturn,
        }
    }
}

/// The shape of what an operation returns.
#[derive(Clone, Debug, PartialEq, Eq)]
pub enum ResultShape {
    /// Nothing.
    NoValue,
    /// A value of one type, whatever the status code.
    Single(ResultType),
    /// A union with one variant for each status code, each with the type of
    /// that code or none.
    TaggedUnion { name: String, variants: Vec<(String, Option<ResultType>)> },
}

/// What a `ResultShape` holds, as plain values.
pub enum ResultShapeView {
    NoValue,
    Single(ResultTypeView),
    TaggedUnion { name: Seq<char>, variants: Seq<(Seq<char>, Option<ResultTypeView>)> },
}

impl View for ResultShape {
    type V = ResultShapeView;

    open spec fn view(&self) -> ResultShapeView {
        match self {
            ResultShape::NoValue => ResultShapeView::NoValue,
            ResultShape::Single(single) => ResultShapeView::Single(single@),
            ResultShape::TaggedUnion { name, variants } => ResultShapeView::TaggedUnion {
                name: name@,
                variants: variant_views(variants@),
            },
        }
    }
}

/// One operation of the interface.
#[derive(Clone, Debug, PartialEq, Eq)]
pub struct InterfaceOperation {
    pub name: String,
    pub params: Vec<Input>,
    pub body_params: Vec<Input>,
    pub result: ResultShape,
}

/// What an `InterfaceOperation` holds, as plain values.
pub struct InterfaceOperationView {
    pub name: Seq<char>,
    pub params: Seq<InputView>,
    pub body_params: Seq<InputView>,
    pub result: ResultShapeView,
}

impl View for InterfaceOperation {
    type V = InterfaceOperationView;

    open spec fn view(&self) -> InterfaceOperationView {
        InterfaceOperationView {
            name: self.name@,
            params: views(self.params@),
            body_params: views(self.body_params@),
            result: self.result@,
        }
    }
}

/// The interface of a service: its title and its operations, in order.
#[derive(Clone, Debug, PartialEq, Eq)]
pub struct Interface {
    pub title: String,
    pub operations: Vec<InterfaceOperation>,
}

/// What an `Interface` holds, as plain values.
pub struct InterfaceView {
    pub title: Seq<char>,
    pub operations: Seq<InterfaceOperationView>,
}

impl View for Interface {
    type V = InterfaceView;

    open spec fn view(&self) -> InterfaceView {
        InterfaceView { title: self.title@, operations: views(self.operations@) }
    }
}

/// The name of a base type.
pub open spec fn base_type_name(base: SchemaType) -> Seq<char> {
    match base {
        SchemaType::Object => "Object"@,
        SchemaType::String => "String"@,
        SchemaType::Number => "Number"@,
        SchemaType::Boolean => "Boolean"@,
        SchemaType::Integer => "Integer"@,
        SchemaType::Array => "Array"@,
    }
}

/// The name that a schema goes by: its title, or else the name of its base
/// type.
pub open spec fn type_label(schema: SchemaView) -> Option<Seq<char>> {
    match schema.title {
        Some(title) => Some(title),
        None => match schema.schema_type {
            Some(base) => Some(base_type_name(base)),
            None => None,
        },
    }
}

/// The name that an optional schema goes by, with `fallback` where there is
/// no schema or the schema has no name.
pub open spec fn schema_label(
    spec: SpecView,
    schema: Option<RefOr<SchemaView>>,
    fallback: Seq<char>,
) -> Result<Seq<char>, GenerateErrorView> {
    match schema {
        None => Ok(fallback),
        Some(schema) => match target::<Schema>(schema, spec) {
            Err(e) => Err(GenerateErrorView::Reference(e)),
            Ok(schema) => match type_label(schema) {
                Some(label) => Ok(label),
                None => Ok(fallback),
            },
        },
    }
}

/// The name that an optional schema goes by.
pub fn label_of(spec: &Spec, schema: &Option<ObjectOrReference<Schema>>, fallback: &str) -> (r:
    Result<String, GenerateError>)
    ensures
        match r {
            Ok(label) => schema_label(spec@, option_view(*schema), fallback@) == Ok::<
                Seq<char>,
                GenerateErrorView,
            >(label@),
            Err(e) => schema_label(spec@, option_view(*schema), fallback@) == Err::<
                Seq<char>,
                GenerateErrorView,
            >(e@),
        },
{
    match schema {
        None => Ok(owned(fallback)),
        Some(schema) => match schema.resolve(spec) {
            Err(e) => Err(GenerateError::Reference(e)),
            Ok(schema) => match &schema.title {
                Some(title) => Ok(title.clone()),
                None => match schema.schema_type {
                    Some(SchemaType::Object) => Ok(owned("Object")),
                    Some(SchemaType::String) => Ok(owned("String")),
                    Some(SchemaType::Number) => Ok(owned("Number")),
                    Some(SchemaType::Boolean) => Ok(owned("Boolean")),
                    Some(SchemaType::Integer) => Ok(owned("Integer")),
                    Some(SchemaType::Array) => Ok(owned("Array")),
                    None => Ok(owned(fallback)),
                },
            },
        },
    }
}

/// The input that one parameter gives: its name in snake case, and the name
/// of its schema in Pascal case, `None` where it has no schema.
pub open spec fn parameter_input(spec: SpecView, parameter: RefOr<ParameterView>) -> Result<
    InputView,
    GenerateErrorView,
> {
    match target::<Parameter>(parameter, spec) {
        Err(e) => Err(GenerateErrorView::Reference(e)),
        Ok(parameter) => match schema_label(spec, parameter.schema, "None"@) {
            Err(e) => Err(e),
            Ok(label) => Ok(
                InputView {
                    name: cased(parameter.name, CaseStyle::Snake),
                    typ: cased(label, CaseStyle::Pascal),
                },
            ),
        },
    }
}

/// `parameter_input`, as a step over the parameters of an operation.
pub open spec fn per_parameter(spec: SpecView) -> spec_fn(RefOr<ParameterView>) -> Result<
    InputView,
    GenerateErrorView,
> {
    |parameter: RefOr<ParameterView>| parameter_input(spec, parameter)
}

/// The inputs that the parameters of an operation give, in order.
pub open spec fn parameter_inputs(spec: SpecView, operation: OperationView) -> Result<
    Seq<InputView>,
    GenerateErrorView,
> {
    try_map(operation.parameters, per_parameter(spec))
}

/// The inputs that the parameters of an operation give, in order.
pub fn collect_params(spec: &Spec, operation: &Operation) -> (r: Result<Vec<Input>, GenerateError>)
    ensures
        match r {
            Ok(inputs) => parameter_inputs(spec@, operation@) == Ok::<
                Seq<InputView>,
                GenerateErrorView,
            >(views(inputs@)),
            Err(e) => parameter_inputs(spec@, operation@) == Err::<
                Seq<InputView>,
                GenerateErrorView,
            >(e@),
        },
{
    let mut inputs: Vec<Input> = Vec::new();
    let count = operation.parameters.len();
    let ghost step = per_parameter(spec@);
    let mut i: usize = 0;
    assert(views(inputs@) =~= Seq::empty());
    while i < count
        invariant
            count == operation.parameters.len(),
            i <= count,
            step == per_parameter(spec@),
            try_map_upto(operation@.parameters, step, i as int) == Ok::<
                Seq<InputView>,
                GenerateErrorView,
            >(views(inputs@)),
        decreases count - i,
    {
        let parameter = match operation.parameters[i].resolve(spec) {
            Ok(parameter) => parameter,
            Err(e) => {
                proof {
                    lemma_try_map_error(operation@.parameters, step, i + 1, count as int);
                }
                return Err(GenerateError::Reference(e));
            },
        };
        let label = match label_of(spec, &parameter.schema, "None") {
            Ok(label) => label,
            Err(e) => {
                proof {
                    lemma_try_map_error(operation@.parameters, step, i + 1, count as int);
                }
                return Err(e);
            },
        };
        let input = Input {
            name: to_case(parameter.name.as_str(), CaseStyle::Snake),
            typ: to_case(label.as_str(), CaseStyle::Pascal),
        };
        let ghost before = inputs@;
        inputs.push(input);
        proof {
            lemma_views_push(before, input);
        }
        i += 1;
    }
    Ok(inputs)
}

/// The media type and the title of the schema of one entry of a request
/// body. The schema must be there, its reference must lead to a schema, and
/// the schema must have a title that is not empty.
pub open spec fn media_candidate(spec: SpecView, entry: (Seq<char>, MediaTypeView)) -> Result<
    (Seq<char>, Seq<char>),
    GenerateErrorView,
> {
    match entry.1.schema {
        None => Err(GenerateErrorView::MissingSchema),
        Some(schema) => match target::<Schema>(schema, spec) {
            Err(e) => Err(GenerateErrorView::MissingSchema),
            Ok(schema) => match schema.title {
                None => Err(GenerateErrorView::MissingSchemaTitle),
                Some(title) => if title.len() > 0 {
                    Ok((entry.0, title))
                } else {
                    Err(GenerateErrorView::MissingSchemaTitle)
                },
            },
        },
    }
}

/// `media_candidate`, as a step over the entries of a request body.
pub open spec fn per_media(spec: SpecView) -> spec_fn((Seq<char>, MediaTypeView)) -> Result<
    (Seq<char>, Seq<char>),
    GenerateErrorView,
> {
    |entry: (Seq<char>, MediaTypeView)| media_candidate(spec, entry)
}

/// The media types of the request body of an operation, each with the title
/// of its schema, in the order of the body; none where the operation has no
/// body.
pub open spec fn body_candidates(spec: SpecView, operation: OperationView) -> Result<
    Seq<(Seq<char>, Seq<char>)>,
    GenerateErrorView,
> {
    match operation.request_body {
        None => Ok(Seq::empty()),
        Some(body) => match target::<RequestBody>(body, spec) {
            Err(e) => Err(GenerateErrorView::Reference(e)),
            Ok(body) => try_map(body.content, per_media(spec)),
        },
    }
}

/// The media types of the request body of an operation, each with the title
/// of its schema.
pub fn collect_body_candidates(spec: &Spec, operation: &Operation) -> (r: Result<
    Vec<(String, String)>,
    GenerateError,
>)
    ensures
        match r {
            Ok(pairs) => body_candidates(spec@, operation@) == Ok::<
                Seq<(Seq<char>, Seq<char>)>,
                GenerateErrorView,
            >(text_pairs(pairs@)),
            Err(e) => body_candidates(spec@, operation@) == Err::<
                Seq<(Seq<char>, Seq<char>)>,
                GenerateErrorView,
            >(e@),
        },
{
    let mut pairs: Vec<(String, String)> = Vec::new();
    assert(text_pairs(pairs@) =~= Seq::empty());
    let body: &RequestBody = match &operation.request_body {
        None => {
            return Ok(pairs);
        },
        Some(body) => match body.resolve(spec) {
            Ok(body) => body,
            Err(e) => {
                return Err(GenerateError::Reference(e));
            },
        },
    };
    let count = body.content.len();
    let ghost step = per_media(spec@);
    let mut i: usize = 0;
    while i < count
        invariant
            count == body.content.len(),
            i <= count,
            step == per_media(spec@),
            body_candidates(spec@, operation@) == try_map(body@.content, step),
            try_map_upto(body@.content, step, i as int) == Ok::<
                Seq<(Seq<char>, Seq<char>)>,
                GenerateErrorView,
            >(text_pairs(pairs@)),
        decreases count - i,
    {
        let entry = &body.content[i];
        let schema = match &entry.1.schema {
            None => {
                proof {
                    lemma_try_map_error(body@.content, step, i + 1, count as int);
                }
                return Err(GenerateError::MissingSchema);
            },
            Some(schema) => match schema.resolve(spec) {
                Ok(schema) => schema,
                Err(e) => {
                    proof {
                        lemma_try_map_error(body@.content, step, i + 1, count as int);
                    }
                    return Err(GenerateError::MissingSchema);
                },
            },
        };
        let title = match &schema.title {
            Some(title) => title,
            None => {
                proof {
                    lemma_try_map_error(body@.content, step, i + 1, count as int);
                }
                return Err(GenerateError::MissingSchemaTitle);
            },
        };
        if title.as_str().is_empty() {
            proof {
                lemma_try_map_error(body@.content, step, i + 1, count as int);
            }
            return Err(GenerateError::MissingSchemaTitle);
        }
        let ghost before = pairs@;
        pairs.push((entry.0.clone(), title.clone()));
        assert(text_pairs(pairs@) =~= text_pairs(before).push((entry.0@, title@)));
        i += 1;
    }
    Ok(pairs)
}

/// A text, taken as its own key.
pub open spec fn same() -> spec_fn(Seq<char>) -> Seq<char> {
    |text: Seq<char>| text
}

/// The names without repeats: each at its first place.
pub open spec fn names_once(names: Seq<Seq<char>>) -> Seq<Seq<char>> {
    first_of_each(names, same())
}

/// Whether one of the names reads `name`.
pub fn has_text(names: &Vec<String>, name: &str) -> (r: bool)
    ensures
        r == views(names@).contains(name@),
{
    let mut i: usize = 0;
    while i < names.len()
        invariant
            i <= names.len(),
            forall|j: int| 0 <= j < i ==> views(names@)[j] != name@,
        decreases names.len() - i,
    {
        if same_text(names[i].as_str(), name) {
            assert(views(names@)[i as int] == name@);
            return true;
        }
        i += 1;
    }
    false
}

/// The names without repeats: each at its first place.
pub fn distinct(names: &Vec<String>) -> (r: Vec<String>)
    ensures
        views(r@) == names_once(views(names@)),
{
    let mut kept: Vec<String> = Vec::new();
    let mut i: usize = 0;
    assert(views(names@).take(0) =~= Seq::empty());
    assert(views(kept@) =~= Seq::empty());
    while i < names.len()
        invariant
            i <= names.len(),
            views(kept@) == names_once(views(names@).take(i as int)),
        decreases names.len() - i,
    {
        proof {
            assert(views(names@).take(i + 1).drop_last() =~= views(names@).take(i as int));
            assert(views(names@).take(i + 1).last() == names[i as int]@);
            assert(keys_of(views(kept@), same()) =~= views(kept@));
        }
        if !has_text(&kept, names[i].as_str()) {
            let ghost before = kept@;
            let name = names[i].clone();
            kept.push(name);
            proof {
                lemma_views_push(before, name);
            }
        }
        i += 1;
    }
    assert(views(names@).take(names@.len() as int) =~= views(names@));
    kept
}

/// The second texts of the pairs, in order.
pub open spec fn seconds(pairs: Seq<(Seq<char>, Seq<char>)>) -> Seq<Seq<char>> {
    pairs.map_values(|pair: (Seq<char>, Seq<char>)| pair.1)
}

/// The input for the body of a request with a schema of this title: a
/// variable named by the title in snake case, of the type named by the title
/// in Pascal case.
pub open spec fn body_input() -> spec_fn(Seq<char>) -> InputView {
    |title: Seq<char>|
        InputView {
            name: cased(title, CaseStyle::Snake),
            typ: cased(title, CaseStyle::Pascal),
        }
}

/// The inputs that the request body of an operation gives: one for each
/// title among the schemas of its media types, at the first place of the
/// title.
pub open spec fn body_inputs(spec: SpecView, operation: OperationView) -> Result<
    Seq<InputView>,
    GenerateErrorView,
> {
    match body_candidates(spec, operation) {
        Err(e) => Err(e),
        Ok(pairs) => Ok(names_once(seconds(pairs)).map_values(body_input())),
    }
}

/// The inputs that the request body of an operation gives.
pub fn collect_body_params(spec: &Spec, operation: &Operation) -> (r: Result<
    Vec<Input>,
    GenerateError,
>)
    ensures
        match r {
            Ok(inputs) => body_inputs(spec@, operation@) == Ok::<Seq<InputView>, GenerateErrorView>(
                views(inputs@),
            ),
            Err(e) => body_inputs(spec@, operation@) == Err::<Seq<InputView>, GenerateErrorView>(
                e@,
            ),
        },
{
    let pairs = match collect_body_candidates(spec, operation) {
        Ok(pairs) => pairs,
        Err(e) => {
            return Err(e);
        },
    };
    let mut titles: Vec<String> = Vec::new();
    let mut i: usize = 0;
    while i < pairs.len()
        invariant
            i <= pairs.len(),
            views(titles@) == seconds(text_pairs(pairs@)).take(i as int),
        decreases pairs.len() - i,
    {
        let ghost before = titles@;
        let title = pairs[i].1.clone();
        titles.push(title);
        proof {
            lemma_views_push(before, title);
            assert(views(titles@) =~= seconds(text_pairs(pairs@)).take(i + 1));
        }
        i += 1;
    }
    assert(seconds(text_pairs(pairs@)).take(pairs@.len() as int) =~= seconds(text_pairs(pairs@)));
    let once = distinct(&titles);
    let mut inputs: Vec<Input> = Vec::new();
    let mut j: usize = 0;
    while j < once.len()
        invariant
            j <= once.len(),
            views(inputs@) == views(once@).map_values(body_input()).take(j as int),
        decreases once.len() - j,
    {
        let ghost before = inputs@;
        let input = Input {
            name: to_case(once[j].as_str(), CaseStyle::Snake),
            typ: to_case(once[j].as_str(), CaseStyle::Pascal),
        };
        inputs.push(input);
        proof {
            lemma_views_push(before, input);
            assert(views(inputs@) =~= views(once@).map_values(body_input()).take(j + 1));
        }
        j += 1;
    }
    assert(views(once@).map_values(body_input()).take(once@.len() as int) =~= views(
        once@,
    ).map_values(body_input()));
    Ok(inputs)
}

/// The name that the schema of one media type of a response goes by,
/// `NotFoundTypeName` where it has none.
pub open spec fn content_label(spec: SpecView) -> spec_fn((Seq<char>, MediaTypeView)) -> Result<
    Seq<char>,
    GenerateErrorView,
> {
    |entry: (Seq<char>, MediaTypeView)| schema_label(spec, entry.1.schema, "NotFoundTypeName"@)
}

/// The names of the types that a response returns, one for each of its media
/// types, in order.
pub open spec fn content_labels(spec: SpecView, response: ResponseView) -> Result<
    Seq<Seq<char>>,
    GenerateErrorView,
> {
    try_map(response.content, content_label(spec))
}

/// A status code with the names of the types that its response returns.
pub open spec fn response_labels(spec: SpecView, entry: (Seq<char>, RefOr<ResponseView>)) -> Result<
    (Seq<char>, Seq<Seq<char>>),
    GenerateErrorView,
> {
    match target::<Response>(entry.1, spec) {
        Err(e) => Err(GenerateErrorView::Reference(e)),
        Ok(response) => match content_labels(spec, response) {
            Err(e) => Err(e),
            Ok(names) => Ok((entry.0, names)),
        },
    }
}

/// `response_labels`, as a step over the responses of an operation.
pub open spec fn per_response(spec: SpecView) -> spec_fn(
    (Seq<char>, RefOr<ResponseView>),
) -> Result<(Seq<char>, Seq<Seq<char>>), GenerateErrorView> {
    |entry: (Seq<char>, RefOr<ResponseView>)| response_labels(spec, entry)
}

/// The status codes of an operation, each with the names of the types that
/// its response returns, in the order of the operation.
pub open spec fn response_types(spec: SpecView, operation: OperationView) -> Result<
    Seq<(Seq<char>, Seq<Seq<char>>)>,
    GenerateErrorView,
> {
    try_map(operation.responses, per_response(spec))
}

/// Status codes with type names, as plain values.
pub open spec fn code_views(codes: Seq<(String, Vec<String>)>) -> Seq<(Seq<char>, Seq<Seq<char>>)> {
    codes.map_values(|code: (String, Vec<String>)| (code.0@, views(code.1@)))
}

/// The names of the types that a response returns.
pub fn collect_content_types(spec: &Spec, response: &Response) -> (r: Result<
    Vec<String>,
    GenerateError,
>)
    ensures
        match r {
            Ok(names) => content_labels(spec@, response@) == Ok::<
                Seq<Seq<char>>,
                GenerateErrorView,
            >(views(names@)),
            Err(e) => content_labels(spec@, response@) == Err::<
                Seq<Seq<char>>,
                GenerateErrorView,
            >(e@),
        },
{
    let mut names: Vec<String> = Vec::new();
    let count = response.content.len();
    let ghost step = content_label(spec@);
    let mut i: usize = 0;
    assert(views(names@) =~= Seq::empty());
    while i < count
        invariant
            count == response.content.len(),
            i <= count,
            step == content_label(spec@),
            try_map_upto(response@.content, step, i as int) == Ok::<
                Seq<Seq<char>>,
                GenerateErrorView,
            >(views(names@)),
        decreases count - i,
    {
        let name = match label_of(spec, &response.content[i].1.schema, "NotFoundTypeName") {
            Ok(name) => name,
            Err(e) => {
                proof {
                    lemma_try_map_error(response@.content, step, i + 1, count as int);
                }
                return Err(e);
            },
        };
        let ghost before = names@;
        names.push(name);
        proof {
            lemma_views_push(before, name);
        }
        i += 1;
    }
    Ok(names)
}

/// The status codes of an operation, each with the names of the types that
/// its response returns.
pub fn collect_response_types(spec: &Spec, operation: &Operation) -> (r: Result<
    Vec<(String, Vec<String>)>,
    GenerateError,
>)
    ensures
        match r {
            Ok(codes) => response_types(spec@, operation@) == Ok::<
                Seq<(Seq<char>, Seq<Seq<char>>)>,
                GenerateErrorView,
            >(code_views(codes@)),
            Err(e) => response_types(spec@, operation@) == Err::<
                Seq<(Seq<char>, Seq<Seq<char>>)>,
                GenerateErrorView,
            >(e@),
        },
{
    let mut codes: Vec<(String, Vec<String>)> = Vec::new();
    let count = operation.responses.len();
    let ghost step = per_response(spec@);
    let mut i: usize = 0;
    assert(code_views(codes@) =~= Seq::empty());
    while i < count
        invariant
            count == operation.responses.len(),
            i <= count,
            step == per_response(spec@),
            try_map_upto(operation@.responses, step, i as int) == Ok::<
                Seq<(Seq<char>, Seq<Seq<char>>)>,
                GenerateErrorView,
            >(code_views(codes@)),
        decreases count - i,
    {
        let entry = &operation.responses[i];
        let response = match entry.1.resolve(spec) {
            Ok(response) => response,
            Err(e) => {
                proof {
                    lemma_try_map_error(operation@.responses, step, i + 1, count as int);
                }
                return Err(GenerateError::Reference(e));
            },
        };
        let names = match collect_content_types(spec, response) {
            Ok(names) => names,
            Err(e) => {
                proof {
                    lemma_try_map_error(operation@.responses, step, i + 1, count as int);
                }
                return Err(e);
            },
        };
        let ghost before = codes@;
        codes.push((entry.0.clone(), names));
        assert(code_views(codes@) =~= code_views(before).push((entry.0@, views(names@))));
        i += 1;
    }
    Ok(codes)
}

/// The name of the variant that stands for a status code.
pub open spec fn code_name(code: Seq<char>) -> Seq<char> {
    "Result_"@ + code
}

/// The name of the variant that stands for a status code.
pub fn code_to_name(code: &str) -> (r: String)
    ensures
        r@ == code_name(code@),
{
    joined("Result_", code)
}

/// An owned copy of a list of names.
pub fn copy_names(names: &Vec<String>) -> (r: Vec<String>)
    ensures
        views(r@) == views(names@),
{
    let mut copy: Vec<String> = Vec::new();
    let mut i: usize = 0;
    while i < names.len()
        invariant
            i <= names.len(),
            views(copy@) == views(names@).take(i as int),
        decreases names.len() - i,
    {
        let ghost before = copy@;
        let name = names[i].clone();
        copy.push(name);
        proof {
            lemma_views_push(before, name);
            assert(views(copy@) =~= views(names@).take(i + 1));
        }
        i += 1;
    }
    assert(views(names@).take(names@.len() as int) =~= views(names@));
    copy
}

/// The type of what one status code returns, from the names of the types of
/// its media types: none for no name, the type itself for one, and for more a
/// sum type named after the operation, with one case for each name.
pub open spec fn media_types_result(method_name: Seq<char>, names: Seq<Seq<char>>) -> Option<
    ResultTypeView,
> {
    if names.len() == 1 {
        Some(ResultTypeView::Named(names[0]))
    } else if names.len() == 0 {
        None
    } else {
        Some(
            ResultTypeView::Sum {
                name: cased(method_name, CaseStyle::Pascal) + "Result"@,
                cases: names,
            },
        )
    }
}

/// The type of what one status code returns.
pub fn create_media_types_result(method_name: &str, result_types: &Vec<String>) -> (r: Option<
    ResultType,
>)
    ensures
        option_view(r) == media_types_result(method_name@, views(result_types@)),
{
    if result_types.len() == 1 {
        Some(ResultType::Named(result_types[0].clone()))
    } else if result_types.len() == 0 {
        None
    } else {
        let pascal = to_case(method_name, CaseStyle::Pascal);
        Some(
            ResultType::Sum {
                name: joined(pascal.as_str(), "Result"),
                cases: copy_names(result_types),
            },
        )
    }
}

/// The variant for one status code with the names of its types.
pub open spec fn variant_of(method_name: Seq<char>) -> spec_fn((Seq<char>, Seq<Seq<char>>)) -> (
    Seq<char>,
    Option<ResultTypeView>,
) {
    |code: (Seq<char>, Seq<Seq<char>>)| (code_name(code.0), media_types_result(method_name, code.1))
}

/// What the status codes of an operation give: for more than one code a
/// variant for each, for one code the type of that code or nothing, and
/// nothing for no code.
pub open spec fn enum_variants(method_name: Seq<char>, codes: Seq<(Seq<char>, Seq<Seq<char>>)>) ->
    SomeTypeView {
    if codes.len() > 1 {
        SomeTypeView::EnumOfCodes(codes.map_values(variant_of(method_name)))
    } else if codes.len() == 1 {
        match media_types_result(method_name, codes[0].1) {
            Some(single) => SomeTypeView::SingleType(single),
            None => SomeTypeView::NoReturn,
        }
    } else {
        SomeTypeView::NoReturn
    }
}

/// What the status codes of an operation give.
pub fn create_enum_variants(
    method_name: &str,
    code_content_type: &Vec<(String, Vec<String>)>,
) -> (r: SomeType)
    ensures
        r@ == enum_variants(method_name@, code_views(code_content_type@)),
{
    if code_content_type.len() > 1 {
        let mut variants: Vec<(String, Option<ResultType>)> = Vec::new();
        let ghost all = code_views(code_content_type@).map_values(variant_of(method_name@));
        let mut i: usize = 0;
        while i < code_content_type.len()
            invariant
                i <= code_content_type.len(),
                all == code_views(code_content_type@).map_values(variant_of(method_name@)),
                variant_views(variants@) == all.take(i as int),
            decreases code_content_type.len() - i,
        {
            let ghost before = variants@;
            let name = code_to_name(code_content_type[i].0.as_str());
            let inner = create_media_types_result(method_name, &code_content_type[i].1);
            variants.push((name, inner));
            proof {
                assert(variant_views(variants@) =~= variant_views(before).push(
                    (name@, option_view(inner)),
                ));
                assert(variant_views(variants@) =~= all.take(i + 1));
            }
            i += 1;
        }
        assert(all.take(code_content_type@.len() as int) =~= all);
        SomeType::EnumOfCodes(variants)
    } else if code_content_type.len() == 1 {
        match create_media_types_result(method_name, &code_content_type[0].1) {
            Some(single) => SomeType::SingleType(single),
            None => SomeType::NoReturn,
        }
    } else {
        SomeType::NoReturn
    }
}

/// A status code with its type names, each name once.
pub open spec fn once_per_code() -> spec_fn((Seq<char>, Seq<Seq<char>>)) -> (
    Seq<char>,
    Seq<Seq<char>>,
) {
    |code: (Seq<char>, Seq<Seq<char>>)| (code.0, names_once(code.1))
}

/// The shape of what an operation returns, from its status codes in order,
/// each with the names of the types of its media types. Each name counts once
/// for a code. No code gives no value. One code gives the type of that code,
/// or no value where the code has no type. More codes give a union named
/// after the operation, with the variant `Result_` and the code for each code.
pub open spec fn result_shape(method_name: Seq<char>, codes: Seq<(Seq<char>, Seq<Seq<char>>)>) ->
    ResultShapeView {
    match enum_variants(method_name, codes.map_values(once_per_code())) {
        SomeTypeView::EnumOfCodes(variants) => ResultShapeView::TaggedUnion {
            name: cased(method_name + "_result_type"@, CaseStyle::Pascal),
            variants,
        },
        SomeTypeView::SingleType(single) => ResultShapeView::Single(single),
        SomeTypeView::NoReturn => ResultShapeView::NoValue,
    }
}

/// The shape of what an operation returns.
pub fn build_result_type(method_name: &str, code_content_type: &Vec<(String, Vec<String>)>) -> (r:
    ResultShape)
    ensures
        r@ == result_shape(method_name@, code_views(code_content_type@)),
{
    let mut sets: Vec<(String, Vec<String>)> = Vec::new();
    let ghost all = code_views(code_content_type@).map_values(once_per_code());
    let mut i: usize = 0;
    while i < code_content_type.len()
        invariant
            i <= code_content_type.len(),
            all == code_views(code_content_type@).map_values(once_per_code()),
            code_views(sets@) == all.take(i as int),
        decreases code_content_type.len() - i,
    {
        let ghost before = sets@;
        let code = code_content_type[i].0.clone();
        let once = distinct(&code_content_type[i].1);
        sets.push((code, once));
        proof {
            assert(code_views(sets@) =~= code_views(before).push((code@, views(once@))));
            assert(code_views(sets@) =~= all.take(i + 1));
        }
        i += 1;
    }
    assert(all.take(code_content_type@.len() as int) =~= all);
    match create_enum_variants(method_name, &sets) {
        SomeType::EnumOfCodes(variants) => {
            let long = joined(method_name, "_result_type");
            ResultShape::TaggedUnion { name: to_case(long.as_str(), CaseStyle::Pascal), variants }
        },
        SomeType::SingleType(single) => ResultShape::Single(single),
        SomeType::NoReturn => ResultShape::NoValue,
    }
}

/// An operation with one status code whose media types all return one type
/// returns that type, with no union round it.
pub proof fn lemma_one_code_one_type(
    method_name: Seq<char>,
    code: Seq<char>,
    names: Seq<Seq<char>>,
)
    requires
        names_once(names).len() == 1,
    ensures
        result_shape(method_name, seq![(code, names)]) == ResultShapeView::Single(
            ResultTypeView::Named(names_once(names)[0]),
        ),
{
}

/// An operation with one status code without content returns no value.
pub proof fn lemma_one_code_no_content(method_name: Seq<char>, code: Seq<char>)
    ensures
        result_shape(method_name, seq![(code, Seq::<Seq<char>>::empty())])
            == ResultShapeView::NoValue,
{
}

/// An operation without status codes returns no value.
pub proof fn lemma_no_code(method_name: Seq<char>)
    ensures
        result_shape(method_name, Seq::empty()) == ResultShapeView::NoValue,
{
}

/// An operation with more than one status code returns a union with one
/// variant for each code, in the order of the codes: the variant is named
/// `Result_` and the code, and holds what the code alone would return.
pub proof fn lemma_more_codes(method_name: Seq<char>, codes: Seq<(Seq<char>, Seq<Seq<char>>)>)
    requires
        codes.len() > 1,
    ensures
        result_shape(method_name, codes) matches ResultShapeView::TaggedUnion { name, variants }
            && name == cased(method_name + "_result_type"@, CaseStyle::Pascal) && variants.len()
            == codes.len() && forall|i: int|
            0 <= i < codes.len() ==> #[trigger] variants[i] == (
                code_name(codes[i].0),
                media_types_result(method_name, names_once(codes[i].1)),
            ),
{
}

/// The operation of the interface for one operation of the specification: it
/// is named by the identifier in snake case, takes the inputs of the
/// parameters and then those of the body, and returns the shape that the
/// responses give.
pub open spec fn interface_operation(spec: SpecView, operation: OperationView) -> Result<
    InterfaceOperationView,
    GenerateErrorView,
> {
    match operation.operation_id {
        None => Err(GenerateErrorView::MissingOperationId),
        Some(id) => match parameter_inputs(spec, operation) {
            Err(e) => Err(e),
            Ok(params) => match body_inputs(spec, operation) {
                Err(e) => Err(e),
                Ok(body_params) => match response_types(spec, operation) {
                    Err(e) => Err(e),
                    Ok(codes) => Ok(
                        InterfaceOperationView {
                            name: cased(id, CaseStyle::Snake),
                            params,
                            body_params,
                            result: result_shape(id, codes),
                        },
                    ),
                },
            },
        },
    }
}

/// The operation of the interface for one operation of the specification.
pub fn create_method(spec: &Spec, operation: &Operation) -> (r: Result<
    InterfaceOperation,
    GenerateError,
>)
    ensures
        match r {
            Ok(method) => interface_operation(spec@, operation@) == Ok::<
                InterfaceOperationView,
                GenerateErrorView,
            >(method@),
            Err(e) => interface_operation(spec@, operation@) == Err::<
                InterfaceOperationView,
                GenerateErrorView,
            >(e@),
        },
{
    let id = match &operation.operation_id {
        Some(id) => id,
        None => {
            return Err(GenerateError::MissingOperationId);
        },
    };
    let params = match collect_params(spec, operation) {
        Ok(params) => params,
        Err(e) => {
            return Err(e);
        },
    };
    let body_params = match collect_body_params(spec, operation) {
        Ok(body_params) => body_params,
        Err(e) => {
            return Err(e);
        },
    };
    let codes = match collect_response_types(spec, operation) {
        Ok(codes) => codes,
        Err(e) => {
            return Err(e);
        },
    };
    let result = build_result_type(id.as_str(), &codes);
    let name = to_case(id.as_str(), CaseStyle::Snake);
    Ok(InterfaceOperation { name, params, body_params, result })
}

/// `interface_operation`, as a step over the operations of a specification.
pub open spec fn per_operation(spec: SpecView) -> spec_fn(
    (Seq<char>, Method, OperationView),
) -> Result<InterfaceOperationView, FailureView> {
    |entry: (Seq<char>, Method, OperationView)|
        located_at(entry.0, entry.1, interface_operation(spec, entry.2))
}

/// The interface of a specification: its title, and one operation for each
/// operation of the specification, in order.
pub open spec fn interface(spec: SpecView) -> Result<InterfaceView, FailureView> {
    match try_map(spec.operations(), per_operation(spec)) {
        Err(e) => Err(e),
        Ok(operations) => Ok(InterfaceView { title: spec.info.title, operations }),
    }
}

/// The interface keeps the order of the specification: it has one operation
/// for each operation of the specification, at the same place.
pub proof fn lemma_interface_keeps_order(spec: SpecView)
    requires
        interface(spec) is Ok,
    ensures
        interface(spec)->Ok_0.operations.len() == spec.operations().len(),
        forall|k: int|
            0 <= k < spec.operations().len() ==> interface_operation(
                spec,
                (#[trigger] spec.operations()[k]).2,
            ) == Ok::<InterfaceOperationView, GenerateErrorView>(
                interface(spec)->Ok_0.operations[k],
            ),
{
    let operations = spec.operations();
    lemma_try_map_ok(operations, per_operation(spec), operations.len() as int);
    assert forall|k: int| 0 <= k < operations.len() implies interface_operation(
        spec,
        (#[trigger] operations[k]).2,
    ) == Ok::<InterfaceOperationView, GenerateErrorView>(interface(spec)->Ok_0.operations[k]) by {
        assert(per_operation(spec)(operations[k]) is Ok);
    }
}

/// The interface of a specification.
pub fn run(spec: &Spec) -> (r: Result<Interface, Failure>)
    ensures
        match r {
            Ok(made) => interface(spec@) == Ok::<InterfaceView, FailureView>(made@),
            Err(e) => interface(spec@) == Err::<InterfaceView, FailureView>(e@),
        },
{
    let operations = spec.operations();
    let mut methods: Vec<InterfaceOperation> = Vec::new();
    let ghost step = per_operation(spec@);
    let mut i: usize = 0;
    assert(views(methods@) =~= Seq::empty());
    while i < operations.len()
        invariant
            i <= operations.len(),
            located_values(operations@) == spec@.operations(),
            step == per_operation(spec@),
            try_map_upto(spec@.operations(), step, i as int) == Ok::<
                Seq<InterfaceOperationView>,
                FailureView,
            >(views(methods@)),
        decreases operations.len() - i,
    {
        let (path, method, operation) = operations[i];
        assert(spec@.operations()[i as int] == (path@, method, operation@));
        let made = match create_method(spec, operation) {
            Ok(made) => made,
            Err(error) => {
                proof {
                    lemma_try_map_error(
                        spec@.operations(),
                        step,
                        i + 1,
                        operations.len() as int,
                    );
                }
                return Err(Failure { path: path.clone(), method, error });
            },
        };
        let ghost before = methods@;
        methods.push(made);
        proof {
            lemma_views_push(before, made);
        }
        i += 1;
    }
    Ok(Interface { title: spec.info.title.clone(), operations: methods })
}

} // verus!
