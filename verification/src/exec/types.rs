//! The requests that clients send and the responses that they receive.
use vstd::prelude::*;

verus! {

/// A request to the server.
#[derive(Debug)]
pub enum Request {
    /// Calls a query. `id` identifies the request; it is the client's responsibility to
    /// keep it unique (over HTTP it is always `0`).
    Query { id: u32, path: String, input: Option<serde_json::Value> },
    /// Calls a mutation. `id` identifies the request as for a query.
    Mutation { id: u32, path: String, input: Option<serde_json::Value> },
    /// Starts a subscription. `id` identifies the subscription.
    Subscription { id: u32, path: String, input: Option<serde_json::Value> },
    /// Stops the subscription with the given `id`.
    SubscriptionStop { id: u32 },
}

/// An error returned to a client.
#[derive(Debug, PartialEq, Eq)]
pub struct ResponseError {
    pub code: i32,
    pub message: String,
    pub data: Option<serde_json::Value>,
}

/// The body of a response: a successful result, an error, or the notice that the
/// operation is complete.
#[derive(Debug, PartialEq, Eq)]
pub enum ResponseInner {
    Value(serde_json::Value),
    Error(ResponseError),
    Complete,
}

/// A response to the request with identifier `id`.
#[derive(Debug, PartialEq, Eq)]
pub struct Response {
    pub id: u32,
    pub inner: ResponseInner,
}

} // verus!
