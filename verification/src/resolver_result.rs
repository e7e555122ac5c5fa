//! Runtime markers that record which kind of request a resolver layer serves.
use std::marker::PhantomData;
use vstd::prelude::*;

verus! {

/// The kind of a non-streaming request.
#[derive(Clone, Copy, Debug, PartialEq, Eq, Structural)]
pub enum RequestKind {
    Query,
    Mutation,
}

/// A marker for a request (query or mutation) resolver, carrying its kind at runtime.
pub struct RequestLayerMarker<T>(RequestKind, PhantomData<T>);

impl<T> View for RequestLayerMarker<T> {
    type V = RequestKind;

    /// The kind of request that the marker stands for.
    closed spec fn view(&self) -> RequestKind {
        self.0
    }
}

impl<T> RequestLayerMarker<T> {
    /// A marker for requests of the given kind.
    pub fn new(kind: RequestKind) -> (r: Self)
        ensures
            r@ == kind,
    {
        RequestLayerMarker(kind, PhantomData)
    }

    /// The kind of request that this marker stands for.
    pub fn kind(&self) -> (k: RequestKind)
        ensures
            k == self@,
    {
        self.0
    }
}

/// A marker for a streaming (subscription) resolver.
pub struct StreamLayerMarker<T>(PhantomData<T>);

impl<T> StreamLayerMarker<T> {
    /// The one value of this type: the marker carries no state beyond its type.
    pub closed spec fn marker() -> Self {
        StreamLayerMarker(PhantomData)
    }

    /// A new stream marker.
    pub fn new() -> (r: Self)
        ensures
            r == Self::marker(),
    {
        StreamLayerMarker(PhantomData)
    }
}

} // verus!
