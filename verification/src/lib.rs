//! The verified core of an RPC framework: the routing of a request to its procedure, the
//! plumbing of middleware results, the state machines that turn a procedure's answer
//! into responses, and the bookkeeping of a desktop-window transport.
pub mod exec;
pub mod json;
pub mod layer;
pub mod middleware;
pub mod mw_result;
pub mod resolver_result;
pub mod window_manager;
