//! The object model of an API specification: the document, its paths and
//! operations, and the reusable components. A specification is built once and
//! then only read.
//!
//! A mapping from a name to a value is a `Vec` of pairs, in the order in which
//! the document declares them; a name is looked up from the front. Each type
//! has a view that holds the same as plain values, and the contracts of the
//! library speak of the views.

use vstd::prelude::*;
use vstd::string::*;
use crate::reference::{ObjectOrReference, RefOr};
use crate::sequence::{named, option_view, views};
use crate::text::same_text;

verus! {

/// What an optional text holds.
pub open spec fn text_of(value: Option<String>) -> Option<Seq<char>> {
    match value {
        Some(text) => Some(text@),
        None => None,
    }
}

/// Pairs of texts, as plain values.
pub open spec fn text_pairs(pairs: Seq<(String, String)>) -> Seq<(Seq<char>, Seq<char>)> {
    pairs.map_values(|pair: (String, String)| (pair.0@, pair.1@))
}

/// What a specification says of itself.
#[derive(Clone, Debug, PartialEq, Default)]
pub struct Info {
    pub title: String,
    pub description: Option<String>,
    pub version: String,
}

/// What an `Info` holds, as plain values.
pub struct InfoView {
    pub title: Seq<char>,
    pub description: Option<Seq<char>>,
    pub version: Seq<char>,
}

impl View for Info {
    type V = InfoView;

    open spec fn view(&self) -> InfoView {
        InfoView {
            title: self.title@,
            description: text_of(self.description),
            version: self.version@,
        }
    }
}

/// The base type of a schema.
#[derive(Clone, Copy, Debug, PartialEq, Eq, Structural)]
pub enum SchemaType {
    Object,
    String,
    Number,
    Boolean,
    Integer,
    Array,
}

/// The description of a type: a primitive, or an object with properties.
#[derive(Debug, PartialEq, Default)]
pub struct Schema {
    pub title: Option<String>,
    pub description: Option<String>,
    pub schema_type: Option<SchemaType>,
    pub format: Option<String>,
    pub properties: Vec<(String, ObjectOrReference<Schema>)>,
}

/// What a `Schema` holds, as plain values.
pub struct SchemaView {
    pub title: Option<Seq<char>>,
    pub description: Option<Seq<char>>,
    pub schema_type: Option<SchemaType>,
    pub format: Option<Seq<char>>,
    pub properties: Seq<(Seq<char>, RefOr<SchemaView>)>,
}

/// What one property holds.
pub open spec fn property_view(property: ObjectOrReference<Schema>) -> RefOr<SchemaView>
    decreases property,
{
    match property {
        ObjectOrReference::Ref { ref_path } => RefOr::Ref(ref_path@),
        ObjectOrReference::Object(inner) => RefOr::Object(schema_view(&inner)),
    }
}

/// What the first `n` properties of a schema hold.
pub open spec fn properties_view(
    properties: Seq<(String, ObjectOrReference<Schema>)>,
    n: int,
) -> Seq<(Seq<char>, RefOr<SchemaView>)>
    decreases properties, n,
{
    if n <= 0 || n > properties.len() {
        Seq::empty()
    } else {
        properties_view(properties, n - 1).push(
            (properties[n - 1].0@, property_view(properties[n - 1].1)),
        )
    }
}

/// What a schema holds.
pub open spec fn schema_view(schema: &Schema) -> SchemaView
    decreases schema,
{
    SchemaView {
        title: text_of(schema.title),
        description: text_of(schema.description),
        schema_type: schema.schema_type,
        format: text_of(schema.format),
        properties: properties_view(schema.properties@, schema.properties.len() as int),
    }
}

/// The first `n` properties give `n` entries, each what the property at its
/// place holds.
pub proof fn lemma_properties_view(properties: Seq<(String, ObjectOrReference<Schema>)>, n: int)
    requires
        0 <= n <= properties.len(),
    ensures
        properties_view(properties, n).len() == n,
        forall|j: int|
            0 <= j < n ==> #[trigger] properties_view(properties, n)[j] == (
                properties[j].0@,
                property_view(properties[j].1),
            ),
    decreases n,
{
    if n > 0 {
        lemma_properties_view(properties, n - 1);
    }
}

impl View for Schema {
    type V = SchemaView;

    open spec fn view(&self) -> SchemaView {
        schema_view(self)
    }
}

/// The properties of a schema, as its view holds them: each name with the
/// view of its value, in order.
pub proof fn lemma_schema_properties(schema: &Schema)
    ensures
        schema@.properties == named(schema.properties@),
{
    lemma_properties_view(schema.properties@, schema.properties.len() as int);
    assert(schema@.properties =~= named(schema.properties@));
}

/// An owned copy of an optional text.
pub fn copy_text(value: &Option<String>) -> (r: Option<String>)
    ensures
        text_of(r) == text_of(*value),
{
    match value {
        Some(text) => Some(text.clone()),
        None => None,
    }
}

impl Clone for Schema {
    /// A copy that holds what this schema holds.
    fn clone(&self) -> (r: Schema)
        ensures
            r@ == self@,
        decreases self,
    {
        let mut properties: Vec<(String, ObjectOrReference<Schema>)> = Vec::new();
        let mut i: usize = 0;
        while i < self.properties.len()
            invariant
                i <= self.properties.len(),
                properties.len() == i,
                forall|j: int|
                    0 <= j < i ==> (#[trigger] properties[j]).0@ == self.properties[j].0@
                        && property_view(properties[j].1) == property_view(self.properties[j].1),
            decreases self.properties.len() - i,
        {
            let entry = &self.properties[i];
            let value = match &entry.1 {
                ObjectOrReference::Ref { ref_path } => ObjectOrReference::Ref {
                    ref_path: ref_path.clone(),
                },
                ObjectOrReference::Object(inner) => ObjectOrReference::Object(inner.clone()),
            };
            properties.push((entry.0.clone(), value));
            i += 1;
        }
        let copy = Schema {
            title: copy_text(&self.title),
            description: copy_text(&self.description),
            schema_type: self.schema_type,
            format: copy_text(&self.format),
            properties,
        };
        proof {
            lemma_properties_view(copy.properties@, copy.properties.len() as int);
            lemma_properties_view(self.properties@, self.properties.len() as int);
            assert(copy@.properties =~= self@.properties);
        }
        copy
    }
}

/// The payload of one media type.
#[derive(Clone, Debug, PartialEq, Default)]
pub struct MediaType {
    pub schema: Option<ObjectOrReference<Schema>>,
}

/// What a `MediaType` holds, as plain values.
pub struct MediaTypeView {
    pub schema: Option<RefOr<SchemaView>>,
}

impl View for MediaType {
    type V = MediaTypeView;

    open spec fn view(&self) -> MediaTypeView {
        MediaTypeView {
            schema: option_view(self.schema),
        }
    }
}

/// One parameter of an operation. `location` is one of `path`, `query`,
/// `header` and `cookie`.
#[derive(Clone, Debug, PartialEq, Default)]
pub struct Parameter {
    pub name: String,
    pub location: String,
    pub description: Option<String>,
    pub required: Option<bool>,
    pub schema: Option<ObjectOrReference<Schema>>,
}

/// What a `Parameter` holds, as plain values.
pub struct ParameterView {
    pub name: Seq<char>,
    pub location: Seq<char>,
    pub description: Option<Seq<char>>,
    pub required: Option<bool>,
    pub schema: Option<RefOr<SchemaView>>,
}

impl View for Parameter {
    type V = ParameterView;

    open spec fn view(&self) -> ParameterView {
        ParameterView {
            name: self.name@,
            location: self.location@,
            description: text_of(self.description),
            required: self.required,
            schema: option_view(self.schema),
        }
    }
}

/// The body of a request: one payload for each media type it may come in.
#[derive(Clone, Debug, PartialEq, Default)]
pub struct RequestBody {
    pub description: Option<String>,
    pub content: Vec<(String, MediaType)>,
    pub required: Option<bool>,
}

/// What a `RequestBody` holds, as plain values.
pub struct RequestBodyView {
    pub description: Option<Seq<char>>,
    pub content: Seq<(Seq<char>, MediaTypeView)>,
    pub required: Option<bool>,
}

impl View for RequestBody {
    type V = RequestBodyView;

    open spec fn view(&self) -> RequestBodyView {
        RequestBodyView {
            description: text_of(self.description),
            content: named(self.content@),
            required: self.required,
        }
    }
}

/// A header of a response.
#[derive(Clone, Debug, PartialEq, Default)]
pub struct Header {
    pub description: Option<String>,
    pub required: Option<bool>,
    pub schema: Option<ObjectOrReference<Schema>>,
}

/// What a `Header` holds, as plain values.
pub struct HeaderView {
    pub description: Option<Seq<char>>,
    pub required: Option<bool>,
    pub schema: Option<RefOr<SchemaView>>,
}

impl View for Header {
    type V = HeaderView;

    open spec fn view(&self) -> HeaderView {
        HeaderView {
            description: text_of(self.description),
            required: self.required,
            schema: option_view(self.schema),
        }
    }
}

/// A link from a response to another operation.
#[derive(Clone, Debug, PartialEq, Default)]
pub struct Link {
    pub operation_ref: Option<String>,
    pub operation_id: Option<String>,
    pub description: Option<String>,
}

/// What a `Link` holds, as plain values.
pub struct LinkView {
    pub operation_ref: Option<Seq<char>>,
    pub operation_id: Option<Seq<char>>,
    pub description: Option<Seq<char>>,
}

impl View for Link {
    type V = LinkView;

    open spec fn view(&self) -> LinkView {
        LinkView {
            operation_ref: text_of(self.operation_ref),
            operation_id: text_of(self.operation_id),
            description: text_of(self.description),
        }
    }
}

/// One response of an operation.
#[derive(Clone, Debug, PartialEq, Default)]
pub struct Response {
    pub description: Option<String>,
    pub headers: Vec<(String, ObjectOrReference<Header>)>,
    pub content: Vec<(String, MediaType)>,
    pub links: Vec<(String, ObjectOrReference<Link>)>,
}

/// What a `Response` holds, as plain values.
pub struct ResponseView {
    pub description: Option<Seq<char>>,
    pub headers: Seq<(Seq<char>, RefOr<HeaderView>)>,
    pub content: Seq<(Seq<char>, MediaTypeView)>,
    pub links: Seq<(Seq<char>, RefOr<LinkView>)>,
}

impl View for Response {
    type V = ResponseView;

    open spec fn view(&self) -> ResponseView {
        ResponseView {
            description: text_of(self.description),
            headers: named(self.headers@),
            content: named(self.content@),
            links: named(self.links@),
        }
    }
}

/// An example value. `value` holds the example as JSON text.
#[derive(Clone, Debug, PartialEq, Default)]
pub struct Example {
    pub summary: Option<String>,
    pub description: Option<String>,
    pub value: Option<String>,
}

/// What an `Example` holds, as plain values.
pub struct ExampleView {
    pub summary: Option<Seq<char>>,
    pub description: Option<Seq<char>>,
    pub value: Option<Seq<char>>,
}

impl View for Example {
    type V = ExampleView;

    open spec fn view(&self) -> ExampleView {
        ExampleView {
            summary: text_of(self.summary),
            description: text_of(self.description),
            value: text_of(self.value),
        }
    }
}

impl Example {
    /// The bytes of the example's JSON text; none where it has no value.
    pub fn as_bytes(&self) -> (r: Vec<u8>)
        ensures
            r@ == match self@.value {
                Some(text) => vstd::utf8::encode_utf8(text),
                None => Seq::<u8>::empty(),
            },
    {
        match &self.value {
            Some(text) => text.as_str().as_bytes_vec(),
            None => Vec::new(),
        }
    }
}

/// One OAuth2 flow.
#[derive(Clone, Debug, PartialEq, Default)]
pub struct Flow {
    pub authorization_url: Option<String>,
    pub token_url: Option<String>,
    pub refresh_url: Option<String>,
    pub scopes: Vec<(String, String)>,
}

/// What a `Flow` holds, as plain values.
pub struct FlowView {
    pub authorization_url: Option<Seq<char>>,
    pub token_url: Option<Seq<char>>,
    pub refresh_url: Option<Seq<char>>,
    pub scopes: Seq<(Seq<char>, Seq<char>)>,
}

impl View for Flow {
    type V = FlowView;

    open spec fn view(&self) -> FlowView {
        FlowView {
            authorization_url: text_of(self.authorization_url),
            token_url: text_of(self.token_url),
            refresh_url: text_of(self.refresh_url),
            scopes: text_pairs(self.scopes@),
        }
    }
}

/// The OAuth2 flows that a security scheme supports.
#[derive(Clone, Debug, PartialEq, Default)]
pub struct Flows {
    pub implicit: Option<Flow>,
    pub password: Option<Flow>,
    pub client_credentials: Option<Flow>,
    pub authorization_code: Option<Flow>,
}

/// What a `Flows` holds, as plain values.
pub struct FlowsView {
    pub implicit: Option<FlowView>,
    pub password: Option<FlowView>,
    pub client_credentials: Option<FlowView>,
    pub authorization_code: Option<FlowView>,
}

impl View for Flows {
    type V = FlowsView;

    open spec fn view(&self) -> FlowsView {
        FlowsView {
            implicit: option_view(self.implicit),
            password: option_view(self.password),
            client_credentials: option_view(self.client_credentials),
            authorization_code: option_view(self.authorization_code),
        }
    }
}

/// How an operation is secured.
#[derive(Clone, Debug, PartialEq)]
pub enum SecurityScheme {
    ApiKey { name: String, location: String },
    Http { scheme: String, bearer_format: String },
    OAuth2 { flows: Flows },
    OpenIdConnect { open_id_connect_url: String },
}

/// What a `SecurityScheme` holds, as plain values.
pub enum SecuritySchemeView {
    ApiKey { name: Seq<char>, location: Seq<char> },
    Http { scheme: Seq<char>, bearer_format: Seq<char> },
    OAuth2 { flows: FlowsView },
    OpenIdConnect { open_id_connect_url: Seq<char> },
}

impl View for SecurityScheme {
    type V = SecuritySchemeView;

    open spec fn view(&self) -> SecuritySchemeView {
        match self {
            SecurityScheme::ApiKey { name, location } => SecuritySchemeView::ApiKey {
                name: name@,
                location: location@,
            },
            SecurityScheme::Http { scheme, bearer_format } => SecuritySchemeView::Http {
                scheme: scheme@,
                bearer_format: bearer_format@,
            },
            SecurityScheme::OAuth2 { flows } => SecuritySchemeView::OAuth2 { flows: flows@ },
            SecurityScheme::OpenIdConnect { open_id_connect_url } =>
                SecuritySchemeView::OpenIdConnect { open_id_connect_url: open_id_connect_url@ },
        }
    }
}

/// One operation: a method on a path.
#[derive(Clone, Debug, PartialEq, Default)]
pub struct Operation {
    pub operation_id: Option<String>,
    pub summary: Option<String>,
    pub description: Option<String>,
    pub parameters: Vec<ObjectOrReference<Parameter>>,
    pub request_body: Option<ObjectOrReference<RequestBody>>,
    pub responses: Vec<(String, ObjectOrReference<Response>)>,
}

/// What an `Operation` holds, as plain values.
pub struct OperationView {
    pub operation_id: Option<Seq<char>>,
    pub summary: Option<Seq<char>>,
    pub description: Option<Seq<char>>,
    pub parameters: Seq<RefOr<ParameterView>>,
    pub request_body: Option<RefOr<RequestBodyView>>,
    pub responses: Seq<(Seq<char>, RefOr<ResponseView>)>,
}

impl View for Operation {
    type V = OperationView;

    open spec fn view(&self) -> OperationView {
        OperationView {
            operation_id: text_of(self.operation_id),
            summary: text_of(self.summary),
            description: text_of(self.description),
            parameters: views(self.parameters@),
            request_body: option_view(self.request_body),
            responses: named(self.responses@),
        }
    }
}

/// The methods that a path can answer.
#[derive(Clone, Copy, Debug, PartialEq, Eq, Structural)]
pub enum Method {
    Get,
    Put,
    Post,
    Delete,
    Options,
    Head,
    Patch,
    Trace,
}

/// The operations of one path, one for each method at most.
#[derive(Clone, Debug, PartialEq, Default)]
pub struct PathItem {
    pub get: Option<Operation>,
    pub put: Option<Operation>,
    pub post: Option<Operation>,
    pub delete: Option<Operation>,
    pub options: Option<Operation>,
    pub head: Option<Operation>,
    pub patch: Option<Operation>,
    pub trace: Option<Operation>,
}

/// What a `PathItem` holds, as plain values.
pub struct PathItemView {
    pub get: Option<OperationView>,
    pub put: Option<OperationView>,
    pub post: Option<OperationView>,
    pub delete: Option<OperationView>,
    pub options: Option<OperationView>,
    pub head: Option<OperationView>,
    pub patch: Option<OperationView>,
    pub trace: Option<OperationView>,
}

impl View for PathItem {
    type V = PathItemView;

    open spec fn view(&self) -> PathItemView {
        PathItemView {
            get: option_view(self.get),
            put: option_view(self.put),
            post: option_view(self.post),
            delete: option_view(self.delete),
            options: option_view(self.options),
            head: option_view(self.head),
            patch: option_view(self.patch),
            trace: option_view(self.trace),
        }
    }
}

/// The operation of one method, if the path has it.
pub open spec fn on(method: Method, operation: Option<OperationView>) -> Seq<
    (Method, OperationView),
> {
    match operation {
        Some(operation) => seq![(method, operation)],
        None => Seq::empty(),
    }
}

/// The pairs that a list of borrowed operations stands for.
pub open spec fn method_values(list: Seq<(Method, &Operation)>) -> Seq<(Method, OperationView)> {
    list.map_values(|entry: (Method, &Operation)| (entry.0, entry.1@))
}

fn push_method<'a>(
    list: &mut Vec<(Method, &'a Operation)>,
    method: Method,
    operation: &'a Option<Operation>,
)
    ensures
        method_values(final(list)@) == method_values(old(list)@) + on(
            method,
            option_view(*operation),
        ),
{
    match operation {
        Some(operation) => {
            list.push((method, operation));
        },
        None => {},
    }
    assert(method_values(list@) =~= method_values(old(list)@) + on(
        method,
        option_view(*operation),
    ));
}

impl PathItemView {
    /// The operations of the path with their methods, in the fixed order of
    /// the methods.
    pub open spec fn methods(self) -> Seq<(Method, OperationView)> {
        on(Method::Get, self.get) + on(Method::Put, self.put) + on(Method::Post, self.post) + on(
            Method::Delete,
            self.delete,
        ) + on(Method::Options, self.options) + on(Method::Head, self.head) + on(
            Method::Patch,
            self.patch,
        ) + on(Method::Trace, self.trace)
    }
}

impl PathItem {
    /// The operations of the path with their methods, in the fixed order of
    /// the methods.
    pub fn methods(&self) -> (r: Vec<(Method, &Operation)>)
        ensures
            method_values(r@) == self@.methods(),
    {
        let mut list: Vec<(Method, &Operation)> = Vec::new();
        assert(method_values(list@) =~= Seq::empty());
        push_method(&mut list, Method::Get, &self.get);
        push_method(&mut list, Method::Put, &self.put);
        push_method(&mut list, Method::Post, &self.post);
        push_method(&mut list, Method::Delete, &self.delete);
        push_method(&mut list, Method::Options, &self.options);
        push_method(&mut list, Method::Head, &self.head);
        push_method(&mut list, Method::Patch, &self.patch);
        push_method(&mut list, Method::Trace, &self.trace);
        assert(method_values(list@) =~= self@.methods());
        list
    }
}

/// The place of a method in the fixed order of the methods.
pub open spec fn method_rank(method: Method) -> int {
    match method {
        Method::Get => 0,
        Method::Put => 1,
        Method::Post => 2,
        Method::Delete => 3,
        Method::Options => 4,
        Method::Head => 5,
        Method::Patch => 6,
        Method::Trace => 7,
    }
}

/// Whether the methods of a list come in the fixed order, none of them twice,
/// and all before the place `bound`.
pub open spec fn ascending(list: Seq<(Method, OperationView)>, bound: int) -> bool {
    &&& forall|i: int| 0 <= i < list.len() ==> method_rank(#[trigger] list[i].0) < bound
    &&& forall|i: int, j: int|
        0 <= i < j < list.len() ==> method_rank(#[trigger] list[i].0) < method_rank(
            #[trigger] list[j].0,
        )
}

proof fn lemma_on_ascends(
    list: Seq<(Method, OperationView)>,
    method: Method,
    operation: Option<OperationView>,
)
    requires
        ascending(list, method_rank(method)),
    ensures
        ascending(list + on(method, operation), method_rank(method) + 1),
{
}

/// The methods of a path come in the fixed order, none of them twice.
pub proof fn lemma_methods_ascend(item: PathItemView)
    ensures
        ascending(item.methods(), 8),
{
    let a = on(Method::Get, item.get);
    assert(ascending(Seq::<(Method, OperationView)>::empty(), 0));
    lemma_on_ascends(Seq::empty(), Method::Get, item.get);
    assert(Seq::<(Method, OperationView)>::empty() + a =~= a);
    lemma_on_ascends(a, Method::Put, item.put);
    let b = a + on(Method::Put, item.put);
    lemma_on_ascends(b, Method::Post, item.post);
    let c = b + on(Method::Post, item.post);
    lemma_on_ascends(c, Method::Delete, item.delete);
    let d = c + on(Method::Delete, item.delete);
    lemma_on_ascends(d, Method::Options, item.options);
    let e = d + on(Method::Options, item.options);
    lemma_on_ascends(e, Method::Head, item.head);
    let f = e + on(Method::Head, item.head);
    lemma_on_ascends(f, Method::Patch, item.patch);
    let g = f + on(Method::Patch, item.patch);
    lemma_on_ascends(g, Method::Trace, item.trace);
}

/// Requests that the described service may send back to its caller.
#[derive(Clone, Debug, PartialEq, Default)]
pub struct Callback {
    pub paths: Vec<(String, PathItem)>,
}

/// What a `Callback` holds, as plain values.
pub struct CallbackView {
    pub paths: Seq<(Seq<char>, PathItemView)>,
}

impl View for Callback {
    type V = CallbackView;

    open spec fn view(&self) -> CallbackView {
        CallbackView {
            paths: named(self.paths@),
        }
    }
}

/// The reusable components of a specification, by category and name.
#[derive(Clone, Debug, PartialEq, Default)]
pub struct Components {
    pub schemas: Vec<(String, ObjectOrReference<Schema>)>,
    pub responses: Vec<(String, ObjectOrReference<Response>)>,
    pub parameters: Vec<(String, ObjectOrReference<Parameter>)>,
    pub examples: Vec<(String, ObjectOrReference<Example>)>,
    pub request_bodies: Vec<(String, ObjectOrReference<RequestBody>)>,
    pub headers: Vec<(String, ObjectOrReference<Header>)>,
    pub security_schemes: Vec<(String, ObjectOrReference<SecurityScheme>)>,
    pub links: Vec<(String, ObjectOrReference<Link>)>,
    pub callbacks: Vec<(String, ObjectOrReference<Callback>)>,
}

/// What a `Components` holds, as plain values.
pub struct ComponentsView {
    pub schemas: Seq<(Seq<char>, RefOr<SchemaView>)>,
    pub responses: Seq<(Seq<char>, RefOr<ResponseView>)>,
    pub parameters: Seq<(Seq<char>, RefOr<ParameterView>)>,
    pub examples: Seq<(Seq<char>, RefOr<ExampleView>)>,
    pub request_bodies: Seq<(Seq<char>, RefOr<RequestBodyView>)>,
    pub headers: Seq<(Seq<char>, RefOr<HeaderView>)>,
    pub security_schemes: Seq<(Seq<char>, RefOr<SecuritySchemeView>)>,
    pub links: Seq<(Seq<char>, RefOr<LinkView>)>,
    pub callbacks: Seq<(Seq<char>, RefOr<CallbackView>)>,
}

impl View for Components {
    type V = ComponentsView;

    open spec fn view(&self) -> ComponentsView {
        ComponentsView {
            schemas: named(self.schemas@),
            responses: named(self.responses@),
            parameters: named(self.parameters@),
            examples: named(self.examples@),
            request_bodies: named(self.request_bodies@),
            headers: named(self.headers@),
            security_schemes: named(self.security_schemes@),
            links: named(self.links@),
            callbacks: named(self.callbacks@),
        }
    }
}

/// Documents as plain values: each path with what the document gave, or with
/// the reason why it gave nothing.
pub open spec fn loaded_views<T: View>(entries: Seq<(String, Result<T, String>)>) -> Seq<
    (Seq<char>, Result<T::V, Seq<char>>),
> {
    entries.map_values(
        |entry: (String, Result<T, String>)|
            (
                entry.0@,
                match entry.1 {
                    Ok(component) => Ok(component@),
                    Err(cause) => Err(cause@),
                },
            ),
    )
}

/// The documents that the specification refers to by path, by the category
/// they were read as. Each holds what the file gave, or why it gave nothing.
#[derive(Clone, Debug, PartialEq, Default)]
pub struct Documents {
    pub schemas: Vec<(String, Result<Schema, String>)>,
    pub responses: Vec<(String, Result<Response, String>)>,
    pub parameters: Vec<(String, Result<Parameter, String>)>,
    pub examples: Vec<(String, Result<Example, String>)>,
    pub request_bodies: Vec<(String, Result<RequestBody, String>)>,
    pub headers: Vec<(String, Result<Header, String>)>,
    pub security_schemes: Vec<(String, Result<SecurityScheme, String>)>,
    pub links: Vec<(String, Result<Link, String>)>,
    pub callbacks: Vec<(String, Result<Callback, String>)>,
}

/// What a `Documents` holds, as plain values.
pub struct DocumentsView {
    pub schemas: Seq<(Seq<char>, Result<SchemaView, Seq<char>>)>,
    pub responses: Seq<(Seq<char>, Result<ResponseView, Seq<char>>)>,
    pub parameters: Seq<(Seq<char>, Result<ParameterView, Seq<char>>)>,
    pub examples: Seq<(Seq<char>, Result<ExampleView, Seq<char>>)>,
    pub request_bodies: Seq<(Seq<char>, Result<RequestBodyView, Seq<char>>)>,
    pub headers: Seq<(Seq<char>, Result<HeaderView, Seq<char>>)>,
    pub security_schemes: Seq<(Seq<char>, Result<SecuritySchemeView, Seq<char>>)>,
    pub links: Seq<(Seq<char>, Result<LinkView, Seq<char>>)>,
    pub callbacks: Seq<(Seq<char>, Result<CallbackView, Seq<char>>)>,
}

impl View for Documents {
    type V = DocumentsView;

    open spec fn view(&self) -> DocumentsView {
        DocumentsView {
            schemas: loaded_views(self.schemas@),
            responses: loaded_views(self.responses@),
            parameters: loaded_views(self.parameters@),
            examples: loaded_views(self.examples@),
            request_bodies: loaded_views(self.request_bodies@),
            headers: loaded_views(self.headers@),
            security_schemes: loaded_views(self.security_schemes@),
            links: loaded_views(self.links@),
            callbacks: loaded_views(self.callbacks@),
        }
    }
}

/// A specification: the root document and the documents it refers to.
/// `root_directory` is the directory under which the paths of references are
/// found; `documents` holds what was read there.
#[derive(Clone, Debug, PartialEq, Default)]
pub struct Spec {
    pub info: Info,
    pub paths: Vec<(String, PathItem)>,
    pub components: Option<Components>,
    pub root_directory: Option<String>,
    pub documents: Documents,
}

/// What a `Spec` holds, as plain values.
pub struct SpecView {
    pub info: InfoView,
    pub paths: Seq<(Seq<char>, PathItemView)>,
    pub components: Option<ComponentsView>,
    pub root_directory: Option<Seq<char>>,
    pub documents: DocumentsView,
}

impl View for Spec {
    type V = SpecView;

    open spec fn view(&self) -> SpecView {
        SpecView {
            info: self.info@,
            paths: named(self.paths@),
            components: option_view(self.components),
            root_directory: text_of(self.root_directory),
            documents: self.documents@,
        }
    }
}

/// The triples that a list of borrowed operations stands for.
pub open spec fn located_values(list: Seq<(&String, Method, &Operation)>) -> Seq<
    (Seq<char>, Method, OperationView),
> {
    list.map_values(|entry: (&String, Method, &Operation)| (entry.0@, entry.1, entry.2@))
}

/// The operations of one path, each with the path and its method.
pub open spec fn located(path: Seq<char>, item: PathItemView) -> Seq<
    (Seq<char>, Method, OperationView),
> {
    item.methods().map_values(|entry: (Method, OperationView)| (path, entry.0, entry.1))
}

/// Whether no two paths have one text.
pub open spec fn distinct_paths(paths: Seq<(Seq<char>, PathItemView)>) -> bool {
    forall|i: int, j: int| 0 <= i < j < paths.len() ==> paths[i].0 != paths[j].0
}

/// Whether the path of an operation is one of the first `n` paths.
pub open spec fn among_paths(
    operation: (Seq<char>, Method, OperationView),
    paths: Seq<(Seq<char>, PathItemView)>,
    n: int,
) -> bool {
    exists|p: int| 0 <= p < n && #[trigger] paths[p].0 == operation.0
}

impl SpecView {
    /// The operations of the first `n` paths.
    pub open spec fn operations_upto(self, n: int) -> Seq<(Seq<char>, Method, OperationView)>
        decreases n,
    {
        if n <= 0 {
            Seq::empty()
        } else {
            self.operations_upto(n - 1) + located(self.paths[n - 1].0, self.paths[n - 1].1)
        }
    }

    /// Every operation of the specification with its path and method: path by
    /// path in the order of the document, and within a path in the fixed
    /// order of the methods.
    pub open spec fn operations(self) -> Seq<(Seq<char>, Method, OperationView)> {
        self.operations_upto(self.paths.len() as int)
    }

    /// Where no two paths have one text, no two operations share both path
    /// and method.
    pub proof fn lemma_operations_differ(self, n: int)
        requires
            distinct_paths(self.paths),
            0 <= n <= self.paths.len(),
        ensures
            forall|k: int|
                0 <= k < self.operations_upto(n).len() ==> among_paths(
                    #[trigger] self.operations_upto(n)[k],
                    self.paths,
                    n,
                ),
            forall|i: int, j: int|
                0 <= i < j < self.operations_upto(n).len() ==> (#[trigger] self.operations_upto(
                    n,
                )[i]).0 != (#[trigger] self.operations_upto(n)[j]).0 || self.operations_upto(
                    n,
                )[i].1 != self.operations_upto(n)[j].1,
        decreases n,
    {
        if n > 0 {
            self.lemma_operations_differ(n - 1);
            let before = self.operations_upto(n - 1);
            let path = self.paths[n - 1].0;
            let item = self.paths[n - 1].1;
            let here = located(path, item);
            let all = self.operations_upto(n);
            lemma_methods_ascend(item);
            assert forall|k: int| 0 <= k < all.len() implies among_paths(
                #[trigger] all[k],
                self.paths,
                n,
            ) by {
                if k < before.len() {
                    assert(among_paths(before[k], self.paths, n - 1));
                    let p = choose|p: int|
                        0 <= p < n - 1 && #[trigger] self.paths[p].0 == before[k].0;
                    assert(self.paths[p].0 == all[k].0);
                } else {
                    assert(all[k] == here[k - before.len()]);
                    assert(self.paths[n - 1].0 == all[k].0);
                }
            }
            assert forall|i: int, j: int| 0 <= i < j < all.len() implies (#[trigger] all[i]).0 != (
            #[trigger] all[j]).0 || all[i].1 != all[j].1 by {
                if j < before.len() {
                    assert(all[i] == before[i] && all[j] == before[j]);
                } else if i < before.len() {
                    assert(among_paths(before[i], self.paths, n - 1));
                    let p = choose|p: int|
                        0 <= p < n - 1 && #[trigger] self.paths[p].0 == before[i].0;
                    assert(all[j] == here[j - before.len()]);
                    assert(self.paths[p].0 != self.paths[n - 1].0);
                } else {
                    let a = i - before.len();
                    let b = j - before.len();
                    assert(all[i] == here[a] && all[j] == here[b]);
                    assert(here[a].1 == item.methods()[a].0);
                    assert(here[b].1 == item.methods()[b].0);
                    assert(method_rank(item.methods()[a].0) < method_rank(item.methods()[b].0));
                }
            }
        }
    }
}

impl Spec {
    /// Whether no two paths of the specification have one text. Where two
    /// have, two operations may share both path and method, and the routing
    /// table then holds an entry for each.
    pub fn paths_are_distinct(&self) -> (r: bool)
        ensures
            r == distinct_paths(self@.paths),
    {
        let mut j: usize = 0;
        while j < self.paths.len()
            invariant
                j <= self.paths.len(),
                forall|a: int, b: int| 0 <= a < b < j ==> self@.paths[a].0 != self@.paths[b].0,
            decreases self.paths.len() - j,
        {
            let mut i: usize = 0;
            while i < j
                invariant
                    i <= j < self.paths.len(),
                    forall|a: int| 0 <= a < i ==> self@.paths[a].0 != self@.paths[j as int].0,
                decreases j - i,
            {
                if same_text(self.paths[i].0.as_str(), self.paths[j].0.as_str()) {
                    assert(self@.paths[i as int].0 == self@.paths[j as int].0);
                    return false;
                }
                i += 1;
            }
            j += 1;
        }
        true
    }

    /// Every operation of the specification with its path and method, in the
    /// order of the document.
    pub fn operations(&self) -> (r: Vec<(&String, Method, &Operation)>)
        ensures
            located_values(r@) == self@.operations(),
    {
        let mut list: Vec<(&String, Method, &Operation)> = Vec::new();
        let mut i: usize = 0;
        assert(located_values(list@) =~= Seq::empty());
        while i < self.paths.len()
            invariant
                i <= self.paths.len(),
                located_values(list@) == self@.operations_upto(i as int),
            decreases self.paths.len() - i,
        {
            let entry = &self.paths[i];
            let methods = entry.1.methods();
            let ghost before = list@;
            let ghost here = located(entry.0@, entry.1@);
            let mut j: usize = 0;
            assert(self@.paths[i as int] == (entry.0@, entry.1@));
            while j < methods.len()
                invariant
                    j <= methods.len(),
                    method_values(methods@) == entry.1@.methods(),
                    here == located(entry.0@, entry.1@),
                    located_values(list@) == located_values(before) + here.take(j as int),
                decreases methods.len() - j,
            {
                let ghost old_list = list@;
                list.push((&entry.0, methods[j].0, methods[j].1));
                proof {
                    assert(method_values(methods@)[j as int] == (
                        methods[j as int].0,
                        methods[j as int].1@,
                    ));
                    assert(located_values(list@) =~= located_values(old_list).push(
                        (entry.0@, methods[j as int].0, methods[j as int].1@),
                    ));
                    assert(here.take(j + 1) =~= here.take(j as int).push(here[j as int]));
                }
                j += 1;
            }
            assert(here.take(j as int) =~= here);
            i += 1;
        }
        list
    }
}

} // verus!
