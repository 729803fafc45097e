//! The ways in which a query fails, and the one reply that reports them all.

use vstd::prelude::*;
use crate::json::{Json, JsonValue};

verus! {

/// Where a failure came from.
#[derive(Clone, Copy, Debug, PartialEq, Eq)]
pub enum ErrorKind {
    /// An address could not be decoded.
    Decode,
    /// The node failed, or said that the query cannot be answered.
    Upstream,
    /// What was asked for does not exist.
    NotFound,
    /// The query did not run to its end.
    Execution,
}

/// A failed query: where the failure came from, and what to tell the client.
#[derive(Debug, PartialEq, Eq)]
pub struct QueryError {
    pub kind: ErrorKind,
    pub message: String,
}

/// What is reported where an address cannot be decoded.
pub const DECODE_FAILED: &'static str = "Error decoding address.";

/// What is reported where a query was cancelled before its end.
pub const QUERY_CANCELLED: &'static str = "The query was cancelled before it completed.";

/// What is reported where a query broke off before its end.
pub const QUERY_ABORTED: &'static str = "The query failed to run to completion.";

/// The status of every reply that reports a failure.
pub const FAILURE_STATUS: u16 = 500;

impl QueryError {
    /// The failure to decode an address.
    pub fn decode() -> (error: QueryError)
        ensures
            error.kind == ErrorKind::Decode,
            error.message@ == DECODE_FAILED@,
    {
        QueryError { kind: ErrorKind::Decode, message: DECODE_FAILED.to_owned() }
    }

    /// A failure of the node, with what it said.
    pub fn upstream(message: String) -> (error: QueryError)
        ensures
            error.kind == ErrorKind::Upstream,
            error.message == message,
    {
        QueryError { kind: ErrorKind::Upstream, message }
    }

    /// The failure to find what was asked for.
    pub fn not_found(message: String) -> (error: QueryError)
        ensures
            error.kind == ErrorKind::NotFound,
            error.message == message,
    {
        QueryError { kind: ErrorKind::NotFound, message }
    }

    /// The failure of a query to run to its end: cancelled, or broken off.
    pub fn execution(cancelled: bool) -> (error: QueryError)
        ensures
            error.kind == ErrorKind::Execution,
            error.message@ == if cancelled {
                QUERY_CANCELLED@
            } else {
                QUERY_ABORTED@
            },
    {
        let message = if cancelled {
            QUERY_CANCELLED.to_owned()
        } else {
            QUERY_ABORTED.to_owned()
        };
        QueryError { kind: ErrorKind::Execution, message }
    }

    /// The text of the failure.
    pub fn to_string(&self) -> (text: String)
        ensures
            text@ == self.message@,
    {
        self.message.clone()
    }
}

/// The reply to a request that failed: a status and a JSON body.
#[derive(Debug, PartialEq, Eq)]
pub struct ErrorResponse {
    pub status: u16,
    pub body: Json,
}

/// A failure on its way to the client.
#[derive(Debug, PartialEq, Eq)]
pub struct MyErrorWrapper(pub QueryError);

/// The body that reports a failure with the text `message`.
pub open spec fn error_body(message: Seq<char>) -> JsonValue {
    JsonValue::Object(seq![("error"@, JsonValue::Text(message))])
}

impl MyErrorWrapper {
    /// The reply that reports the failure: always the same status, and a
    /// body with the text of the failure under the one key `error`.
    pub fn into_response(self) -> (response: ErrorResponse)
        ensures
            response.status == FAILURE_STATUS,
            response.body@ == error_body(self.0.message@),
    {
        let body = Json::object1("error", Json::text(self.0.message));
        ErrorResponse { status: FAILURE_STATUS, body }
    }
}

} // verus!
