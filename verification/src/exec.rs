//! The execution of requests: the wire types, the streams that answer requests, and
//! the routing of a request to its procedure.
pub mod stream;
pub mod stream_or_fut;
pub mod types;
pub mod routing;
