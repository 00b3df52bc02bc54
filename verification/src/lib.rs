//! From the specification of an API to the artifacts of a service: type
//! declarations, the interface of the service, and its routing table.

use vstd::prelude::*;

pub mod binding;
pub mod casing;
pub mod components;
pub mod error;
pub mod generate_routing;
pub mod generate_trait;
pub mod generate_types;
pub mod model;
pub mod reference;
pub mod resolve;
pub mod sequence;
pub mod text;

use crate::error::{Failure, FailureView};
use crate::generate_routing::{routing_table, RoutingTable, RoutingTableView};
use crate::generate_trait::{interface, Interface, InterfaceView};
use crate::generate_types::{type_declarations, TypeDecl, TypeDeclView};
use crate::model::{Spec, SpecView};
use crate::sequence::views;

verus! {

/// The three groups of artifacts of one run, under the title of the
/// specification.
#[derive(Clone, Debug, PartialEq, Eq)]
pub struct Generated {
    pub title: String,
    pub types: Vec<TypeDecl>,
    pub traits: Interface,
    pub router: RoutingTable,
}

/// What a `Generated` holds, as plain values.
pub struct GeneratedView {
    pub title: Seq<char>,
    pub types: Seq<TypeDeclView>,
    pub traits: InterfaceView,
    pub router: RoutingTableView,
}

impl View for Generated {
    type V = GeneratedView;

    open spec fn view(&self) -> GeneratedView {
        GeneratedView {
            title: self.title@,
            types: views(self.types@),
            traits: self.traits@,
            router: self.router@,
        }
    }
}

/// The artifacts of a specification: its routing table, its interface and
/// its type declarations; or the first error, looked for in that order.
pub open spec fn generated(spec: SpecView) -> Result<GeneratedView, FailureView> {
    match routing_table(spec) {
        Err(e) => Err(e),
        Ok(router) => match interface(spec) {
            Err(e) => Err(e),
            Ok(traits) => match type_declarations(spec) {
                Err(e) => Err(e),
                Ok(types) => Ok(GeneratedView { title: spec.info.title, types, traits, router }),
            },
        },
    }
}

/// Whether `outcome` is what a run over `spec` gives.
pub open spec fn is_outcome(spec: SpecView, outcome: Result<Generated, Failure>) -> bool {
    match outcome {
        Ok(artifacts) => generated(spec) == Ok::<GeneratedView, FailureView>(artifacts@),
        Err(e) => generated(spec) == Err::<GeneratedView, FailureView>(e@),
    }
}

/// One run: all artifacts of the specification, or the first error and
/// nothing else.
pub fn types(spec: &Spec) -> (r: Result<Generated, Failure>)
    ensures
        is_outcome(spec@, r),
{
    let router = match generate_routing::run(spec) {
        Ok(router) => router,
        Err(e) => {
            return Err(e);
        },
    };
    let traits = match generate_trait::run(spec) {
        Ok(traits) => traits,
        Err(e) => {
            return Err(e);
        },
    };
    match generate_types::run(spec) {
        Ok(types) => Ok(Generated { title: spec.info.title.clone(), types, traits, router }),
        Err(e) => Err(e),
    }
}

/// Two runs over specifications that hold the same give the same: both give
/// the same artifacts, in the same order, or both fail with the same error.
pub proof fn lemma_runs_agree(
    a: &Spec,
    b: &Spec,
    first: Result<Generated, Failure>,
    second: Result<Generated, Failure>,
)
    requires
        a@ == b@,
        is_outcome(a@, first),
        is_outcome(b@, second),
    ensures
        match (first, second) {
            (Ok(x), Ok(y)) => x@ == y@,
            (Err(x), Err(y)) => x@ == y@,
            _ => false,
        },
{
}

} // verus!
