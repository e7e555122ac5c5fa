//! The type erasure of a layer's call: a call either starts the layer's own body or fails
//! before it, and a type-erased layer turns the failure into a body of its own.
use vstd::prelude::*;
use crate::exec::stream::{Once, Poll, once_ready_step};

verus! {

/// The body that a type-erased layer's call answers with.
pub enum ErasedBody<S, V, E> {
    /// The body that the layer's call started.
    Body(S),
    /// The call failed: a body that yields `Err` of the error, once, and then ends. The
    /// item is ready at the body's first poll (see `Once::poll_ready`).
    Failed(Once<Result<V, E>>),
}

/// Erases the outcome of a layer's call: a started body is kept as it is; a failure
/// becomes a body that yields the error once.
pub fn erase_call<S, V, E>(r: Result<S, E>) -> (b: ErasedBody<S, V, E>)
    ensures
        match r {
            Ok(s) => b == ErasedBody::<S, V, E>::Body(s),
            Err(e) => b matches ErasedBody::Failed(once) && once@ == Some(Err::<V, E>(e)),
        },
{
    match r {
        Ok(s) => ErasedBody::Body(s),
        Err(e) => ErasedBody::Failed(Once::new(Err(e))),
    }
}

/// The body of a failed call yields the error at its first poll and ends at the next.
pub proof fn law_failed_call_yields_error_once<V, E>(e: E)
    ensures
        ({
            let (after_first, first) = once_ready_step(Some(Err::<V, E>(e)));
            let (after_second, second) = once_ready_step(after_first);
            &&& first == Poll::Ready(Some(Err::<V, E>(e)))
            &&& second == Poll::<Option<Result<V, E>>>::Ready(None)
            &&& after_second is None
        }),
{
}

} // verus!
