//! Carrying out a binding plan on one request: taking the values of the
//! parameters from what the request holds, and choosing among the attempts at
//! reading its body.

use vstd::prelude::*;
use vstd::string::*;
use crate::generate_routing::{
    BodyBinding, ParameterBinding, ParameterBindingView, ParseAttempt, RoutingFunction,
    RoutingFunctionView,
};
use crate::model::{text_of, text_pairs};
use crate::resolve::{find_key, key_index, key_texts};
use crate::sequence::{
    lemma_try_map_error, lemma_views_push, names_of, try_map, try_map_upto, views,
};

verus! {

/// What a request holds, as far as the bindings read it.
#[derive(Clone, Debug, PartialEq, Eq, Default)]
pub struct Request {
    /// The segments of the path, by the names of the template.
    pub path_variables: Vec<(String, String)>,
    /// The query string as it came, if there is one.
    pub query: Option<String>,
    /// The values of the query string, by name.
    pub query_values: Vec<(String, String)>,
    /// The headers, by name.
    pub headers: Vec<(String, String)>,
    /// The cookies, by name.
    pub cookies: Vec<(String, String)>,
}

/// What a `Request` holds, as plain values.
pub struct RequestView {
    pub path_variables: Seq<(Seq<char>, Seq<char>)>,
    pub query: Option<Seq<char>>,
    pub query_values: Seq<(Seq<char>, Seq<char>)>,
    pub headers: Seq<(Seq<char>, Seq<char>)>,
    pub cookies: Seq<(Seq<char>, Seq<char>)>,
}

impl View for Request {
    type V = RequestView;

    open spec fn view(&self) -> RequestView {
        RequestView {
            path_variables: text_pairs(self.path_variables@),
            query: text_of(self.query),
            query_values: text_pairs(self.query_values@),
            headers: text_pairs(self.headers@),
            cookies: text_pairs(self.cookies@),
        }
    }
}

/// Why a request could not be bound. The request fails before its handler is
/// called.
#[derive(Clone, Debug, PartialEq, Eq)]
pub enum BindError {
    /// The request holds no value for the input of this name.
    MissingValue(String),
    /// No attempt at reading the body succeeded.
    AllBodyParsersFailed,
}

/// What a `BindError` holds, as plain values.
pub enum BindErrorView {
    MissingValue(Seq<char>),
    AllBodyParsersFailed,
}

impl View for BindError {
    type V = BindErrorView;

    open spec fn view(&self) -> BindErrorView {
        match self {
            BindError::MissingValue(name) => BindErrorView::MissingValue(name@),
            BindError::AllBodyParsersFailed => BindErrorView::AllBodyParsersFailed,
        }
    }
}

/// The value of one input, as taken from a request.
#[derive(Clone, Debug, PartialEq, Eq)]
pub enum Bound {
    /// A plain text.
    Text(String),
    /// A text that is still to be read as a value of the type `typ`.
    Structured { typ: String, source: String },
}

/// What a `Bound` holds, as plain values.
pub enum BoundView {
    Text(Seq<char>),
    Structured { typ: Seq<char>, source: Seq<char> },
}

impl View for Bound {
    type V = BoundView;

    open spec fn view(&self) -> BoundView {
        match self {
            Bound::Text(text) => BoundView::Text(text@),
            Bound::Structured { typ, source } => BoundView::Structured {
                typ: typ@,
                source: source@,
            },
        }
    }
}

/// The text under `key` among the named values: that of the first entry of
/// that name.
pub open spec fn value_under(entries: Seq<(Seq<char>, Seq<char>)>, key: Seq<char>) -> Result<
    BoundView,
    BindErrorView,
> {
    let at = key_index(names_of(entries), key, 0);
    if at < entries.len() {
        Ok(BoundView::Text(entries[at].1))
    } else {
        Err(BindErrorView::MissingValue(key))
    }
}

/// The text under `key` among the named values.
pub fn lookup(entries: &Vec<(String, String)>, key: &str) -> (r: Result<Bound, BindError>)
    ensures
        match r {
            Ok(value) => value_under(text_pairs(entries@), key@) == Ok::<BoundView, BindErrorView>(
                value@,
            ),
            Err(e) => value_under(text_pairs(entries@), key@) == Err::<BoundView, BindErrorView>(
                e@,
            ),
        },
{
    assert(names_of(text_pairs(entries@)) =~= key_texts(entries@));
    match find_key(entries, key) {
        Some(at) => Ok(Bound::Text(entries[at].1.clone())),
        None => Err(BindError::MissingValue(crate::text::owned(key))),
    }
}

/// The value that a binding takes from a request. A value that the request
/// does not hold is an error; nothing stands in for it.
pub open spec fn bound(binding: ParameterBindingView, request: RequestView) -> Result<
    BoundView,
    BindErrorView,
> {
    match binding {
        ParameterBindingView::PathVariable { key, variable } => value_under(
            request.path_variables,
            key,
        ),
        ParameterBindingView::QueryValue { key, variable } => value_under(
            request.query_values,
            key,
        ),
        ParameterBindingView::QueryStruct { typ, variable } => match request.query {
            Some(query) => Ok(BoundView::Structured { typ, source: query }),
            None => Err(BindErrorView::MissingValue(variable)),
        },
        ParameterBindingView::Header { key, variable } => value_under(request.headers, key),
        ParameterBindingView::Cookie { key, variable } => value_under(request.cookies, key),
    }
}

impl ParameterBinding {
    /// The value that this binding takes from a request.
    pub fn bind(&self, request: &Request) -> (r: Result<Bound, BindError>)
        ensures
            match r {
                Ok(value) => bound(self@, request@) == Ok::<BoundView, BindErrorView>(value@),
                Err(e) => bound(self@, request@) == Err::<BoundView, BindErrorView>(e@),
            },
    {
        match self {
            ParameterBinding::PathVariable { key, variable } => lookup(
                &request.path_variables,
                key.as_str(),
            ),
            ParameterBinding::QueryValue { key, variable } => lookup(
                &request.query_values,
                key.as_str(),
            ),
            ParameterBinding::QueryStruct { typ, variable } => match &request.query {
                Some(query) => Ok(Bound::Structured { typ: typ.clone(), source: query.clone() }),
                None => Err(BindError::MissingValue(variable.clone())),
            },
            ParameterBinding::Header { key, variable } => lookup(&request.headers, key.as_str()),
            ParameterBinding::Cookie { key, variable } => lookup(&request.cookies, key.as_str()),
        }
    }
}

/// `bound`, as a step over the bindings of a plan.
pub open spec fn per_binding(request: RequestView) -> spec_fn(ParameterBindingView) -> Result<
    BoundView,
    BindErrorView,
> {
    |binding: ParameterBindingView| bound(binding, request)
}

/// The values that a plan takes from a request, in the order of the plan, or
/// the first error.
pub open spec fn bound_all(plan: Seq<ParameterBindingView>, request: RequestView) -> Result<
    Seq<BoundView>,
    BindErrorView,
> {
    try_map(plan, per_binding(request))
}

/// The values that a plan takes from a request.
pub fn bind_parameters(plan: &Vec<ParameterBinding>, request: &Request) -> (r: Result<
    Vec<Bound>,
    BindError,
>)
    ensures
        match r {
            Ok(values) => bound_all(views(plan@), request@) == Ok::<Seq<BoundView>, BindErrorView>(
                views(values@),
            ),
            Err(e) => bound_all(views(plan@), request@) == Err::<Seq<BoundView>, BindErrorView>(e@),
        },
{
    let mut values: Vec<Bound> = Vec::new();
    let ghost step = per_binding(request@);
    let mut i: usize = 0;
    assert(views(values@) =~= Seq::empty());
    while i < plan.len()
        invariant
            i <= plan.len(),
            step == per_binding(request@),
            try_map_upto(views(plan@), step, i as int) == Ok::<Seq<BoundView>, BindErrorView>(
                views(values@),
            ),
        decreases plan.len() - i,
    {
        let value = match plan[i].bind(request) {
            Ok(value) => value,
            Err(e) => {
                proof {
                    lemma_try_map_error(views(plan@), step, i + 1, plan.len() as int);
                }
                return Err(e);
            },
        };
        let ghost before = values@;
        values.push(value);
        proof {
            lemma_views_push(before, value);
        }
        i += 1;
    }
    Ok(values)
}

/// The place of the first attempt at or after `from` that succeeded, or the
/// number of attempts where none did.
pub open spec fn first_true(outcomes: Seq<bool>, from: int) -> int
    decreases outcomes.len() - from,
{
    if from < 0 || from >= outcomes.len() {
        outcomes.len() as int
    } else if outcomes[from] {
        from
    } else {
        first_true(outcomes, from + 1)
    }
}

/// `first_true` finds an attempt that succeeded, and none before it did.
pub proof fn lemma_first_true(outcomes: Seq<bool>, from: int)
    requires
        0 <= from <= outcomes.len(),
    ensures
        from <= first_true(outcomes, from) <= outcomes.len(),
        first_true(outcomes, from) < outcomes.len() ==> outcomes[first_true(outcomes, from)],
        forall|j: int| from <= j < first_true(outcomes, from) ==> !outcomes[j],
    decreases outcomes.len() - from,
{
    if from < outcomes.len() && !outcomes[from] {
        lemma_first_true(outcomes, from + 1);
    }
}

/// The first attempt that succeeded, where `outcomes` tells of each attempt
/// in order whether it succeeded; `AllBodyParsersFailed` exactly if none did.
pub fn first_success(outcomes: &Vec<bool>) -> (r: Result<usize, BindError>)
    ensures
        match r {
            Ok(at) => at < outcomes.len() && at == first_true(outcomes@, 0),
            Err(e) => e@ == BindErrorView::AllBodyParsersFailed && first_true(outcomes@, 0)
                == outcomes.len(),
        },
{
    let mut i: usize = 0;
    while i < outcomes.len()
        invariant
            i <= outcomes.len(),
            first_true(outcomes@, 0) == first_true(outcomes@, i as int),
        decreases outcomes.len() - i,
    {
        if outcomes[i] {
            return Ok(i);
        }
        i += 1;
    }
    Err(BindError::AllBodyParsersFailed)
}

/// The attempt that gives the value of a body with `attempts` attempts,
/// where `outcomes` tells of each attempt in order whether it succeeded: the
/// first that succeeded. An attempt of which `outcomes` does not tell counts
/// as failed.
pub open spec fn accepted(attempts: nat, outcomes: Seq<bool>) -> Result<int, BindErrorView> {
    let at = first_true(outcomes, 0);
    if at < outcomes.len() && at < attempts {
        Ok(at)
    } else {
        Err(BindErrorView::AllBodyParsersFailed)
    }
}

impl BodyBinding {
    /// The attempt whose value the binding takes: the first that succeeded.
    /// An attempt of which `outcomes` does not tell counts as failed.
    pub fn accept<'a>(&'a self, outcomes: &Vec<bool>) -> (r: Result<&'a ParseAttempt, BindError>)
        ensures
            match r {
                Ok(attempt) => accepted(self.attempts.len() as nat, outcomes@) matches Ok(at)
                    && *attempt == self.attempts[at],
                Err(e) => accepted(self.attempts.len() as nat, outcomes@) == Err::<
                    int,
                    BindErrorView,
                >(e@),
            },
    {
        match self.accept_at(outcomes) {
            Ok(at) => Ok(&self.attempts[at]),
            Err(e) => Err(e),
        }
    }

    /// The place of the attempt whose value the binding takes.
    pub fn accept_at(&self, outcomes: &Vec<bool>) -> (r: Result<usize, BindError>)
        ensures
            match r {
                Ok(at) => at < self.attempts.len() && accepted(
                    self.attempts.len() as nat,
                    outcomes@,
                ) == Ok::<int, BindErrorView>(at as int),
                Err(e) => accepted(self.attempts.len() as nat, outcomes@) == Err::<
                    int,
                    BindErrorView,
                >(e@),
            },
    {
        match first_success(outcomes) {
            Ok(at) => if at < self.attempts.len() {
                Ok(at)
            } else {
                Err(BindError::AllBodyParsersFailed)
            },
            Err(e) => Err(e),
        }
    }
}

/// The inputs of one call of a handler: the values of the parameters, in the
/// order of the plan, and for each body binding the place of the attempt that
/// gave its value.
#[derive(Clone, Debug, PartialEq, Eq)]
pub struct Inputs {
    pub parameters: Vec<Bound>,
    pub bodies: Vec<usize>,
}

/// What an `Inputs` holds, as plain values.
pub struct InputsView {
    pub parameters: Seq<BoundView>,
    pub bodies: Seq<int>,
}

/// Places, as plain values.
pub open spec fn places(list: Seq<usize>) -> Seq<int> {
    list.map_values(|place: usize| place as int)
}

impl View for Inputs {
    type V = InputsView;

    open spec fn view(&self) -> InputsView {
        InputsView { parameters: views(self.parameters@), bodies: places(self.bodies@) }
    }
}

/// The outcomes of the attempts of the `k`-th body binding; none where
/// `outcomes` does not tell of it.
pub open spec fn outcomes_of(outcomes: Seq<Seq<bool>>, k: int) -> Seq<bool> {
    if 0 <= k < outcomes.len() {
        outcomes[k]
    } else {
        Seq::empty()
    }
}

/// The places of the attempts that give the values of the first `n` body
/// bindings, or `AllBodyParsersFailed` where one of them has no attempt that
/// succeeded.
pub open spec fn accepted_upto(attempts: Seq<nat>, outcomes: Seq<Seq<bool>>, n: int) -> Result<
    Seq<int>,
    BindErrorView,
>
    decreases n,
{
    if n <= 0 {
        Ok(Seq::empty())
    } else {
        match accepted_upto(attempts, outcomes, n - 1) {
            Err(e) => Err(e),
            Ok(done) => match accepted(attempts[n - 1], outcomes_of(outcomes, n - 1)) {
                Err(e) => Err(e),
                Ok(at) => Ok(done.push(at)),
            },
        }
    }
}

/// An error among the first body bindings is the error of the whole.
pub proof fn lemma_accepted_error(attempts: Seq<nat>, outcomes: Seq<Seq<bool>>, i: int, n: int)
    requires
        i <= n,
        accepted_upto(attempts, outcomes, i) is Err,
    ensures
        accepted_upto(attempts, outcomes, n) == accepted_upto(attempts, outcomes, i),
    decreases n - i,
{
    if i < n {
        lemma_accepted_error(attempts, outcomes, i, n - 1);
    }
}

/// How many attempts each body binding has.
pub open spec fn attempt_counts(function: RoutingFunctionView) -> Seq<nat> {
    function.bodies.map_values(|body: crate::generate_routing::BodyBindingView| body.attempts.len())
}

/// The inputs with which the handler of a request is called, or the error
/// with which the request fails before any handler is called: the parameters
/// are bound first, in the order of the plan, then the bodies.
pub open spec fn bound_request(
    function: RoutingFunctionView,
    request: RequestView,
    outcomes: Seq<Seq<bool>>,
) -> Result<InputsView, BindErrorView> {
    match bound_all(function.parameters, request) {
        Err(e) => Err(e),
        Ok(parameters) => match accepted_upto(
            attempt_counts(function),
            outcomes,
            function.bodies.len() as int,
        ) {
            Err(e) => Err(e),
            Ok(bodies) => Ok(InputsView { parameters, bodies }),
        },
    }
}

impl RoutingFunction {
    /// Binds a request: the inputs for the one call of the handler, or the
    /// error with which the request fails. `outcomes` tells, for each body
    /// binding in order, of each of its attempts whether it succeeded.
    pub fn bind(&self, request: &Request, outcomes: &Vec<Vec<bool>>) -> (r: Result<
        Inputs,
        BindError,
    >)
        ensures
            match r {
                Ok(inputs) => bound_request(self@, request@, outcome_views(outcomes@)) == Ok::<
                    InputsView,
                    BindErrorView,
                >(inputs@),
                Err(e) => bound_request(self@, request@, outcome_views(outcomes@)) == Err::<
                    InputsView,
                    BindErrorView,
                >(e@),
            },
    {
        let parameters = match bind_parameters(&self.parameters, request) {
            Ok(parameters) => parameters,
            Err(e) => {
                return Err(e);
            },
        };
        let mut bodies: Vec<usize> = Vec::new();
        let ghost counts = attempt_counts(self@);
        let none: Vec<bool> = Vec::new();
        let mut k: usize = 0;
        assert(places(bodies@) =~= Seq::empty());
        while k < self.bodies.len()
            invariant
                k <= self.bodies.len(),
                none@.len() == 0,
                counts == attempt_counts(self@),
                bound_all(self@.parameters, request@) == Ok::<Seq<BoundView>, BindErrorView>(
                    views(parameters@),
                ),
                accepted_upto(counts, outcome_views(outcomes@), k as int) == Ok::<
                    Seq<int>,
                    BindErrorView,
                >(places(bodies@)),
            decreases self.bodies.len() - k,
        {
            let given: &Vec<bool> = if k < outcomes.len() {
                &outcomes[k]
            } else {
                &none
            };
            assert(given@ =~= outcomes_of(outcome_views(outcomes@), k as int));
            assert(counts[k as int] == self.bodies[k as int].attempts.len());
            let at = match self.bodies[k].accept_at(given) {
                Ok(at) => at,
                Err(e) => {
                    proof {
                        lemma_accepted_error(
                            counts,
                            outcome_views(outcomes@),
                            k + 1,
                            self.bodies.len() as int,
                        );
                    }
                    return Err(e);
                },
            };
            let ghost before = bodies@;
            bodies.push(at);
            assert(places(bodies@) =~= places(before).push(at as int));
            k += 1;
        }
        Ok(Inputs { parameters, bodies })
    }
}

/// Outcomes, as plain values.
pub open spec fn outcome_views(outcomes: Seq<Vec<bool>>) -> Seq<Seq<bool>> {
    outcomes.map_values(|list: Vec<bool>| list@)
}

} // verus!
