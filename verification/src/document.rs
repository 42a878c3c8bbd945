//! The parsed interface description, as far as schema collection reads it.
//! Every list is in document order.

use vstd::prelude::*;
use crate::schema::SchemaRef;

verus! {

/// A pointer to a named component, or the thing itself.
#[derive(Debug, PartialEq, Eq)]
pub enum ReferenceOr<T> {
    Reference(String),
    Item(T),
}

/// A response status: one code, or a range given by its first digit.
#[derive(Clone, Copy, Debug, PartialEq, Eq, Structural)]
pub enum StatusCode {
    Code(u16),
    Range(u16),
}

/// The body of one media type.
#[derive(Debug, PartialEq, Eq)]
pub struct MediaType {
    pub schema: Option<SchemaRef>,
}

/// A response: its bodies by media type.
#[derive(Debug, PartialEq, Eq)]
pub struct Response {
    pub content: Vec<(String, MediaType)>,
}

/// A request body: its bodies by media type.
#[derive(Debug, PartialEq, Eq)]
pub struct RequestBody {
    pub content: Vec<(String, MediaType)>,
}

/// The responses of an operation.
#[derive(Debug, PartialEq, Eq)]
pub struct Responses {
    pub default: Option<ReferenceOr<Response>>,
    pub responses: Vec<(StatusCode, ReferenceOr<Response>)>,
}

/// One operation of a path.
#[derive(Debug, PartialEq, Eq)]
pub struct Operation {
    pub request_body: Option<ReferenceOr<RequestBody>>,
    pub responses: Responses,
}

/// A path: its operations, each under the name of its HTTP method.
#[derive(Debug, PartialEq, Eq)]
pub struct PathItem {
    pub operations: Vec<(String, Operation)>,
}

/// The shared definitions of a document.
#[derive(Debug, PartialEq, Eq)]
pub struct Components {
    pub schemas: Vec<(String, SchemaRef)>,
    pub responses: Vec<(String, ReferenceOr<Response>)>,
    pub request_bodies: Vec<(String, ReferenceOr<RequestBody>)>,
}

/// A parsed document.
#[derive(Debug, PartialEq, Eq)]
pub struct SchemaDocument {
    pub components: Option<Components>,
    pub paths: Vec<(String, ReferenceOr<PathItem>)>,
}

} // verus!
