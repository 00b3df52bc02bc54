//! The errors that end a generation run. Every one of them is fatal: a run
//! gives all of its artifacts or none.

use vstd::prelude::*;
use vstd::string::*;
use crate::model::Method;
use crate::reference::{message_of, RefError, RefErrorView};
use crate::text::{joined, owned};

verus! {

/// What went wrong while an operation was read.
#[derive(Clone, Debug, PartialEq)]
pub enum GenerateError {
    /// A reference could not be followed.
    Reference(RefError),
    /// An operation has no identifier.
    MissingOperationId,
    /// An object schema has no title, or an empty one, where it needs a name.
    MissingSchemaTitle,
    /// A query parameter has no schema, or a media type of a request body has
    /// none that can be had.
    MissingSchema,
    /// A schema has no base type.
    MissingSchemaType,
    /// The location of a parameter is none of `path`, `query`, `header` and
    /// `cookie`.
    UnsupportedParameterLocation(String),
    /// No parser is known for this media type of a request body.
    UnsupportedMediaType(String),
}

/// What a `GenerateError` holds, as plain values.
pub enum GenerateErrorView {
    Reference(RefErrorView),
    MissingOperationId,
    MissingSchemaTitle,
    MissingSchema,
    MissingSchemaType,
    UnsupportedParameterLocation(Seq<char>),
    UnsupportedMediaType(Seq<char>),
}

impl View for GenerateError {
    type V = GenerateErrorView;

    open spec fn view(&self) -> GenerateErrorView {
        match self {
            GenerateError::Reference(e) => GenerateErrorView::Reference(e@),
            GenerateError::MissingOperationId => GenerateErrorView::MissingOperationId,
            GenerateError::MissingSchemaTitle => GenerateErrorView::MissingSchemaTitle,
            GenerateError::MissingSchema => GenerateErrorView::MissingSchema,
            GenerateError::MissingSchemaType => GenerateErrorView::MissingSchemaType,
            GenerateError::UnsupportedParameterLocation(location) =>
                GenerateErrorView::UnsupportedParameterLocation(location@),
            GenerateError::UnsupportedMediaType(media_type) =>
                GenerateErrorView::UnsupportedMediaType(media_type@),
        }
    }
}

/// The text of the message for an error.
pub open spec fn error_text(error: GenerateErrorView) -> Seq<char> {
    match error {
        GenerateErrorView::Reference(e) => message_of(e),
        GenerateErrorView::MissingOperationId => "Operation id is not provided"@,
        GenerateErrorView::MissingSchemaTitle => "Schema title is not provided"@,
        GenerateErrorView::MissingSchema => "Schema is not provided"@,
        GenerateErrorView::MissingSchemaType => "Schema type is not provided"@,
        GenerateErrorView::UnsupportedParameterLocation(location) =>
            "Unsupported parameter location: "@ + location,
        GenerateErrorView::UnsupportedMediaType(media_type) => "Unsupported media type: "@
            + media_type,
    }
}

impl GenerateError {
    /// The message for this error.
    pub fn message(&self) -> (r: String)
        ensures
            r@ == error_text(self@),
    {
        match self {
            GenerateError::Reference(e) => e.message(),
            GenerateError::MissingOperationId => owned("Operation id is not provided"),
            GenerateError::MissingSchemaTitle => owned("Schema title is not provided"),
            GenerateError::MissingSchema => owned("Schema is not provided"),
            GenerateError::MissingSchemaType => owned("Schema type is not provided"),
            GenerateError::UnsupportedParameterLocation(location) => joined(
                "Unsupported parameter location: ",
                location.as_str(),
            ),
            GenerateError::UnsupportedMediaType(media_type) => joined(
                "Unsupported media type: ",
                media_type.as_str(),
            ),
        }
    }
}

/// The name of a method, in capitals.
pub open spec fn method_text(method: Method) -> Seq<char> {
    match method {
        Method::Get => "GET"@,
        Method::Put => "PUT"@,
        Method::Post => "POST"@,
        Method::Delete => "DELETE"@,
        Method::Options => "OPTIONS"@,
        Method::Head => "HEAD"@,
        Method::Patch => "PATCH"@,
        Method::Trace => "TRACE"@,
    }
}

impl Method {
    /// The name of the method, in capitals.
    pub fn as_str(&self) -> (r: &'static str)
        ensures
            r@ == method_text(*self),
    {
        match self {
            Method::Get => "GET",
            Method::Put => "PUT",
            Method::Post => "POST",
            Method::Delete => "DELETE",
            Method::Options => "OPTIONS",
            Method::Head => "HEAD",
            Method::Patch => "PATCH",
            Method::Trace => "TRACE",
        }
    }
}

/// The error that ended a run, with the operation in which it came up.
#[derive(Clone, Debug, PartialEq)]
pub struct Failure {
    pub path: String,
    pub method: Method,
    pub error: GenerateError,
}

/// What a `Failure` holds, as plain values.
pub struct FailureView {
    pub path: Seq<char>,
    pub method: Method,
    pub error: GenerateErrorView,
}

impl View for Failure {
    type V = FailureView;

    open spec fn view(&self) -> FailureView {
        FailureView { path: self.path@, method: self.method, error: self.error@ }
    }
}

/// The text of the message for a failure: the method, the path and the
/// message of the error.
pub open spec fn failure_text(failure: FailureView) -> Seq<char> {
    method_text(failure.method) + " "@ + failure.path + ": "@ + error_text(failure.error)
}

impl Failure {
    /// The message for this failure.
    pub fn message(&self) -> (r: String)
        ensures
            r@ == failure_text(self@),
    {
        let head = joined(self.method.as_str(), " ");
        let place = joined(head.as_str(), self.path.as_str());
        let colon = joined(place.as_str(), ": ");
        let cause = self.error.message();
        joined(colon.as_str(), cause.as_str())
    }
}

/// A result of reading one operation, with the operation named where it is an
/// error.
pub open spec fn located_at<T>(
    path: Seq<char>,
    method: Method,
    result: Result<T, GenerateErrorView>,
) -> Result<T, FailureView> {
    match result {
        Ok(value) => Ok(value),
        Err(error) => Err(FailureView { path, method, error }),
    }
}

} // verus!
