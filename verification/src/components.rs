//! The nine categories of component: where a specification keeps each, and
//! how a reference to each is followed.

use vstd::prelude::*;
use crate::model::{
    Callback, CallbackView, Example, ExampleView, Header, HeaderView, Link, LinkView, Parameter,
    ParameterView, RequestBody, RequestBodyView, Response, ResponseView, Schema, SchemaView,
    SecurityScheme, SecuritySchemeView, Spec, SpecView,
};
use crate::reference::{ObjectOrReference, RefError, RefOr, RefType};
use crate::resolve::{follow, Component, FromRef};

verus! {

impl Component for Schema {
    open spec fn kind_spec() -> RefType {
        RefType::Schema
    }

    open spec fn table(spec: SpecView) -> Seq<(Seq<char>, RefOr<SchemaView>)> {
        match spec.components {
            Some(components) => components.schemas,
            None => Seq::empty(),
        }
    }

    open spec fn loaded(spec: SpecView) -> Seq<(Seq<char>, Result<SchemaView, Seq<char>>)> {
        spec.documents.schemas
    }

    fn kind() -> (k: RefType) {
        RefType::Schema
    }

    fn components(spec: &Spec) -> (r: Option<&Vec<(String, ObjectOrReference<Schema>)>>) {
        match &spec.components {
            Some(components) => Some(&components.schemas),
            None => None,
        }
    }

    fn documents(spec: &Spec) -> (r: &Vec<(String, Result<Schema, String>)>) {
        &spec.documents.schemas
    }
}

impl FromRef for Schema {
    fn from_ref<'a>(spec: &'a Spec, path: &str) -> (r: Result<&'a Schema, RefError>) {
        follow::<Schema>(spec, path)
    }
}

impl Component for Response {
    open spec fn kind_spec() -> RefType {
        RefType::Response
    }

    open spec fn table(spec: SpecView) -> Seq<(Seq<char>, RefOr<ResponseView>)> {
        match spec.components {
            Some(components) => components.responses,
            None => Seq::empty(),
        }
    }

    open spec fn loaded(spec: SpecView) -> Seq<(Seq<char>, Result<ResponseView, Seq<char>>)> {
        spec.documents.responses
    }

    fn kind() -> (k: RefType) {
        RefType::Response
    }

    fn components(spec: &Spec) -> (r: Option<&Vec<(String, ObjectOrReference<Response>)>>) {
        match &spec.components {
            Some(components) => Some(&components.responses),
            None => None,
        }
    }

    fn documents(spec: &Spec) -> (r: &Vec<(String, Result<Response, String>)>) {
        &spec.documents.responses
    }
}

impl FromRef for Response {
    fn from_ref<'a>(spec: &'a Spec, path: &str) -> (r: Result<&'a Response, RefError>) {
        follow::<Response>(spec, path)
    }
}

impl Component for Parameter {
    open spec fn kind_spec() -> RefType {
        RefType::Parameter
    }

    open spec fn table(spec: SpecView) -> Seq<(Seq<char>, RefOr<ParameterView>)> {
        match spec.components {
            Some(components) => components.parameters,
            None => Seq::empty(),
        }
    }

    open spec fn loaded(spec: SpecView) -> Seq<(Seq<char>, Result<ParameterView, Seq<char>>)> {
        spec.documents.parameters
    }

    fn kind() -> (k: RefType) {
        RefType::Parameter
    }

    fn components(spec: &Spec) -> (r: Option<&Vec<(String, ObjectOrReference<Parameter>)>>) {
        match &spec.components {
            Some(components) => Some(&components.parameters),
            None => None,
        }
    }

    fn documents(spec: &Spec) -> (r: &Vec<(String, Result<Parameter, String>)>) {
        &spec.documents.parameters
    }
}

impl FromRef for Parameter {
    fn from_ref<'a>(spec: &'a Spec, path: &str) -> (r: Result<&'a Parameter, RefError>) {
        follow::<Parameter>(spec, path)
    }
}

impl Component for Example {
    open spec fn kind_spec() -> RefType {
        RefType::Example
    }

    open spec fn table(spec: SpecView) -> Seq<(Seq<char>, RefOr<ExampleView>)> {
        match spec.components {
            Some(components) => components.examples,
            None => Seq::empty(),
        }
    }

    open spec fn loaded(spec: SpecView) -> Seq<(Seq<char>, Result<ExampleView, Seq<char>>)> {
        spec.documents.examples
    }

    fn kind() -> (k: RefType) {
        RefType::Example
    }

    fn components(spec: &Spec) -> (r: Option<&Vec<(String, ObjectOrReference<Example>)>>) {
        match &spec.components {
            Some(components) => Some(&components.examples),
            None => None,
        }
    }

    fn documents(spec: &Spec) -> (r: &Vec<(String, Result<Example, String>)>) {
        &spec.documents.examples
    }
}

impl FromRef for Example {
    fn from_ref<'a>(spec: &'a Spec, path: &str) -> (r: Result<&'a Example, RefError>) {
        follow::<Example>(spec, path)
    }
}

impl Component for RequestBody {
    open spec fn kind_spec() -> RefType {
        RefType::RequestBody
    }

    open spec fn table(spec: SpecView) -> Seq<(Seq<char>, RefOr<RequestBodyView>)> {
        match spec.components {
            Some(components) => components.request_bodies,
            None => Seq::empty(),
        }
    }

    open spec fn loaded(spec: SpecView) -> Seq<(Seq<char>, Result<RequestBodyView, Seq<char>>)> {
        spec.documents.request_bodies
    }

    fn kind() -> (k: RefType) {
        RefType::RequestBody
    }

    fn components(spec: &Spec) -> (r: Option<&Vec<(String, ObjectOrReference<RequestBody>)>>) {
        match &spec.components {
            Some(components) => Some(&components.request_bodies),
            None => None,
        }
    }

    fn documents(spec: &Spec) -> (r: &Vec<(String, Result<RequestBody, String>)>) {
        &spec.documents.request_bodies
    }
}

impl FromRef for RequestBody {
    fn from_ref<'a>(spec: &'a Spec, path: &str) -> (r: Result<&'a RequestBody, RefError>) {
        follow::<RequestBody>(spec, path)
    }
}

impl Component for Header {
    open spec fn kind_spec() -> RefType {
        RefType::Header
    }

    open spec fn table(spec: SpecView) -> Seq<(Seq<char>, RefOr<HeaderView>)> {
        match spec.components {
            Some(components) => components.headers,
            None => Seq::empty(),
        }
    }

    open spec fn loaded(spec: SpecView) -> Seq<(Seq<char>, Result<HeaderView, Seq<char>>)> {
        spec.documents.headers
    }

    fn kind() -> (k: RefType) {
        RefType::Header
    }

    fn components(spec: &Spec) -> (r: Option<&Vec<(String, ObjectOrReference<Header>)>>) {
        match &spec.components {
            Some(components) => Some(&components.headers),
            None => None,
        }
    }

    fn documents(spec: &Spec) -> (r: &Vec<(String, Result<Header, String>)>) {
        &spec.documents.headers
    }
}

impl FromRef for Header {
    fn from_ref<'a>(spec: &'a Spec, path: &str) -> (r: Result<&'a Header, RefError>) {
        follow::<Header>(spec, path)
    }
}

impl Component for SecurityScheme {
    open spec fn kind_spec() -> RefType {
        RefType::SecurityScheme
    }

    open spec fn table(spec: SpecView) -> Seq<(Seq<char>, RefOr<SecuritySchemeView>)> {
        match spec.components {
            Some(components) => components.security_schemes,
            None => Seq::empty(),
        }
    }

    open spec fn loaded(spec: SpecView) -> Seq<(Seq<char>, Result<SecuritySchemeView, Seq<char>>)> {
        spec.documents.security_schemes
    }

    fn kind() -> (k: RefType) {
        RefType::SecurityScheme
    }

    fn components(spec: &Spec) -> (r: Option<&Vec<(String, ObjectOrReference<SecurityScheme>)>>) {
        match &spec.components {
            Some(components) => Some(&components.security_schemes),
            None => None,
        }
    }

    fn documents(spec: &Spec) -> (r: &Vec<(String, Result<SecurityScheme, String>)>) {
        &spec.documents.security_schemes
    }
}

impl FromRef for SecurityScheme {
    fn from_ref<'a>(spec: &'a Spec, path: &str) -> (r: Result<&'a SecurityScheme, RefError>) {
        follow::<SecurityScheme>(spec, path)
    }
}

impl Component for Link {
    open spec fn kind_spec() -> RefType {
        RefType::Link
    }

    open spec fn table(spec: SpecView) -> Seq<(Seq<char>, RefOr<LinkView>)> {
        match spec.components {
            Some(components) => components.links,
            None => Seq::empty(),
        }
    }

    open spec fn loaded(spec: SpecView) -> Seq<(Seq<char>, Result<LinkView, Seq<char>>)> {
        spec.documents.links
    }

    fn kind() -> (k: RefType) {
        RefType::Link
    }

    fn components(spec: &Spec) -> (r: Option<&Vec<(String, ObjectOrReference<Link>)>>) {
        match &spec.components {
            Some(components) => Some(&components.links),
            None => None,
        }
    }

    fn documents(spec: &Spec) -> (r: &Vec<(String, Result<Link, String>)>) {
        &spec.documents.links
    }
}

impl FromRef for Link {
    fn from_ref<'a>(spec: &'a Spec, path: &str) -> (r: Result<&'a Link, RefError>) {
        follow::<Link>(spec, path)
    }
}

impl Component for Callback {
    open spec fn kind_spec() -> RefType {
        RefType::Callback
    }

    open spec fn table(spec: SpecView) -> Seq<(Seq<char>, RefOr<CallbackView>)> {
        match spec.components {
            Some(components) => components.callbacks,
            None => Seq::empty(),
        }
    }

    open spec fn loaded(spec: SpecView) -> Seq<(Seq<char>, Result<CallbackView, Seq<char>>)> {
        spec.documents.callbacks
    }

    fn kind() -> (k: RefType) {
        RefType::Callback
    }

    fn components(spec: &Spec) -> (r: Option<&Vec<(String, ObjectOrReference<Callback>)>>) {
        match &spec.components {
            Some(components) => Some(&components.callbacks),
            None => None,
        }
    }

    fn documents(spec: &Spec) -> (r: &Vec<(String, Result<Callback, String>)>) {
        &spec.documents.callbacks
    }
}

impl FromRef for Callback {
    fn from_ref<'a>(spec: &'a Spec, path: &str) -> (r: Result<&'a Callback, RefError>) {
        follow::<Callback>(spec, path)
    }
}

} // verus!
