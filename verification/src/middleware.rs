//! The kinds of procedures, the context that a request carries through the middleware
//! chain, the building of middleware chains around a resolver, and the values that a
//! layer resolves to.
use std::marker::PhantomData;
use vstd::prelude::*;
use crate::exec::stream::Poll;

verus! {

/// The kind of a procedure.
#[derive(Debug, Clone, Copy, PartialEq, Eq, Structural)]
pub enum ProcedureKind {
    Query,
    Mutation,
    Subscription,
}

/// The name of a procedure kind, as the wire protocol writes it.
pub open spec fn kind_name(kind: ProcedureKind) -> Seq<char> {
    match kind {
        ProcedureKind::Query => "query"@,
        ProcedureKind::Mutation => "mutation"@,
        ProcedureKind::Subscription => "subscription"@,
    }
}

impl ProcedureKind {
    /// The name of this kind: `"query"`, `"mutation"` or `"subscription"`.
    pub fn to_str(&self) -> (s: &'static str)
        ensures
            s@ == kind_name(*self),
    {
        match self {
            ProcedureKind::Query => "query",
            ProcedureKind::Mutation => "mutation",
            ProcedureKind::Subscription => "subscription",
        }
    }
}

/// What a request carries through the middleware chain: the request's identifier, the
/// kind of procedure it calls and the procedure's path.
#[derive(Debug, Clone)]
pub struct RequestContext {
    pub id: u32,
    pub kind: ProcedureKind,
    pub path: String,
}

/// A marker for a middleware layer that has a next layer to hand on to.
pub struct MiddlewareLayerWithNext();

/// Something that builds middleware layers around the layer `T` that comes after them.
pub trait MiddlewareBuilderLike<T>: Sized {
    /// The layer that building around `T` gives.
    type LayerResult;

    /// The layer that building around `next` gives.
    spec fn spec_build(self, next: T) -> Self::LayerResult;

    /// Builds the middleware layers around `next`.
    fn build(self, next: T) -> (r: Self::LayerResult)
        ensures
            r == self.spec_build(next),
    ;
}

/// A middleware builder that may be shared between threads.
pub trait MiddlewareBuilder<T>: MiddlewareBuilderLike<T> + Sync {}

impl<T, B: MiddlewareBuilderLike<T> + Sync> MiddlewareBuilder<T> for B {}

/// The start of every middleware chain: it adds no layer of its own.
pub struct BaseMiddleware<TCtx>(PhantomData<TCtx>);

impl<TCtx> BaseMiddleware<TCtx> {
    /// The one value of this type: the chain base carries no state.
    pub closed spec fn base() -> Self {
        BaseMiddleware(PhantomData)
    }

    /// The base of a middleware chain.
    pub fn new() -> (m: Self)
        ensures
            m == Self::base(),
    {
        BaseMiddleware(PhantomData)
    }
}

impl<TCtx> Default for BaseMiddleware<TCtx> {
    fn default() -> (m: Self)
        ensures
            m == Self::base(),
    {
        Self::new()
    }
}

impl<TCtx, T> MiddlewareBuilderLike<T> for BaseMiddleware<TCtx> {
    type LayerResult = T;

    /// The base adds nothing: the result is `next` itself.
    open spec fn spec_build(self, next: T) -> T {
        next
    }

    fn build(self, next: T) -> (r: T) {
        next
    }
}

/// Two middleware builders one after the other: `middleware` builds around what
/// `middleware2` built around the next layer.
pub struct MiddlewareMerger<M1, M2> {
    pub middleware: M1,
    pub middleware2: M2,
}

impl<T, M1, M2> MiddlewareBuilderLike<T> for MiddlewareMerger<M1, M2> where
    M2: MiddlewareBuilderLike<T>,
    M1: MiddlewareBuilderLike<M2::LayerResult>,
 {
    type LayerResult = M1::LayerResult;

    open spec fn spec_build(self, next: T) -> M1::LayerResult {
        self.middleware.spec_build(self.middleware2.spec_build(next))
    }

    fn build(self, next: T) -> (r: M1::LayerResult) {
        let inner = self.middleware2.build(next);
        self.middleware.build(inner)
    }
}

/// A middleware layer: the middleware `mw`, which hands the request on to `next`.
pub struct MiddlewareLayer<N, MW> {
    pub next: N,
    pub mw: MW,
}

/// What a middleware receives for a request: the request's context, input and request
/// context (and no state of its own).
pub struct MiddlewareContext<C> {
    pub state: (),
    pub ctx: C,
    pub input: serde_json::Value,
    pub req: RequestContext,
}

/// A middleware's call in progress: the handler that the middleware started, and the
/// layer that it hands on to.
pub struct MiddlewareCall<'a, H, N> {
    pub handler: H,
    pub next: &'a N,
}

impl<N, MW> MiddlewareLayer<N, MW> {
    /// Calls the middleware with a request's context, input and request context; the
    /// call hands on to the next layer.
    pub fn call<'a, C, H>(&'a self, ctx: C, input: serde_json::Value, req: RequestContext) -> (r: MiddlewareCall<'a, H, N>) where
        MW: Fn(MiddlewareContext<C>) -> H,

        requires
            call_requires(self.mw, (MiddlewareContext { state: (), ctx, input, req },)),
        ensures
            call_ensures(self.mw, (MiddlewareContext { state: (), ctx, input, req },), r.handler),
            *r.next == self.next,
    {
        let handler = (self.mw)(MiddlewareContext { state: (), ctx, input, req });
        MiddlewareCall { handler, next: &self.next }
    }
}

/// A middleware builder extended with one more middleware, `mw`, which runs after those
/// of `middleware` and before the layer that comes next.
pub struct MiddlewareLayerBuilder<M, MW> {
    pub middleware: M,
    pub mw: MW,
}

impl<T, M, MW> MiddlewareBuilderLike<T> for MiddlewareLayerBuilder<M, MW> where
    M: MiddlewareBuilderLike<MiddlewareLayer<T, MW>>,
 {
    type LayerResult = M::LayerResult;

    open spec fn spec_build(self, next: T) -> M::LayerResult {
        self.middleware.spec_build(MiddlewareLayer { next, mw: self.mw })
    }

    fn build(self, next: T) -> (r: M::LayerResult) {
        self.middleware.build(MiddlewareLayer { next, mw: self.mw })
    }
}

/// What a resolver resolves to: a single value or a stream of values.
pub enum ValueOrStream<S> {
    Value(serde_json::Value),
    Stream(S),
}

/// What a layer resolves to: a value, a stream, or the next layer to call with the
/// context, input and request that it should receive.
pub enum ValueOrStreamOrFut2<'a, M, C, S> {
    Value(serde_json::Value),
    A(&'a M, C, serde_json::Value, RequestContext),
    Stream(S),
}

/// The layer that calls a procedure's resolver.
pub struct ResolverLayer<F> {
    pub func: F,
}

/// The future of a resolver's call, as a layer's future.
pub struct ResolverLayerFut<TFut>(pub TFut);

impl<F> ResolverLayer<F> {
    /// Calls the resolver with the context, input and request context of a request.
    pub fn call<C, TFut>(&self, ctx: C, input: serde_json::Value, req: RequestContext) -> (r: ResolverLayerFut<TFut>) where
        F: Fn(C, serde_json::Value, RequestContext) -> TFut,

        requires
            call_requires(self.func, (ctx, input, req)),
        ensures
            call_ensures(self.func, (ctx, input, req), r.0),
    {
        ResolverLayerFut((self.func)(ctx, input, req))
    }
}

/// The layer output that a resolver's result stands for.
pub open spec fn spec_from_resolved<'a, M, C, S>(v: ValueOrStream<S>) -> ValueOrStreamOrFut2<'a, M, C, S> {
    match v {
        ValueOrStream::Value(x) => ValueOrStreamOrFut2::Value(x),
        ValueOrStream::Stream(s) => ValueOrStreamOrFut2::Stream(s),
    }
}

/// Polls a resolver layer: what the resolver's future gave, as the output of a layer.
/// A value stays a value, a stream stays a stream, an error stays the same error, and a
/// pending future stays pending.
pub fn resolver_layer_poll<'a, M, C, S, E>(polled: Poll<Result<ValueOrStream<S>, E>>) -> (r: Poll<
    Result<ValueOrStreamOrFut2<'a, M, C, S>, E>,
>)
    ensures
        r == match polled {
            Poll::Ready(Ok(v)) => Poll::Ready(Ok(spec_from_resolved::<M, C, S>(v))),
            Poll::Ready(Err(e)) => Poll::Ready(Err(e)),
            Poll::Pending => Poll::Pending,
        },
{
    match polled {
        Poll::Ready(Ok(ValueOrStream::Value(v))) => Poll::Ready(Ok(ValueOrStreamOrFut2::Value(v))),
        Poll::Ready(Ok(ValueOrStream::Stream(s))) => Poll::Ready(Ok(ValueOrStreamOrFut2::Stream(s))),
        Poll::Ready(Err(e)) => Poll::Ready(Err(e)),
        Poll::Pending => Poll::Pending,
    }
}

/// Erases a layer's output into what a type-erased layer resolves to: a value or a
/// stream. A layer output that asks for a further layer call is not resolved here.
pub fn erase_layer_output<'a, M, C, S>(out: ValueOrStreamOrFut2<'a, M, C, S>) -> (r: ValueOrStream<S>)
    requires
        !(out is A),
    ensures
        spec_from_resolved::<M, C, S>(r) == out,
{
    match out {
        ValueOrStreamOrFut2::Value(x) => ValueOrStream::Value(x),
        ValueOrStreamOrFut2::Stream(x) => ValueOrStream::Stream(x),
        ValueOrStreamOrFut2::A(..) => vstd::pervasive::unreached(),
    }
}

/// Distinct kinds have distinct names.
pub proof fn law_kind_names_distinct(a: ProcedureKind, b: ProcedureKind)
    ensures
        kind_name(a) == kind_name(b) ==> a == b,
{
    reveal_strlit("query");
    reveal_strlit("mutation");
    reveal_strlit("subscription");
    if a != b {
        assert(kind_name(a).len() != kind_name(b).len() || kind_name(a)[0] != kind_name(b)[0]);
    }
}

/// A resolver's value or stream comes out of the erased layer as it went in: the layer
/// output that a resolved value stands for determines the value.
pub proof fn law_resolved_output_determines_value<'a, M, C, S>(x: ValueOrStream<S>, y: ValueOrStream<S>)
    ensures
        spec_from_resolved::<M, C, S>(x) == spec_from_resolved::<M, C, S>(y) ==> x == y,
{
}

/// Two builders merged, `first` building around what `second` built.
pub open spec fn merged<M1, M2>(first: M1, second: M2) -> MiddlewareMerger<M1, M2> {
    MiddlewareMerger { middleware: first, middleware2: second }
}

/// A builder extended with the middleware `mw`.
pub open spec fn extended<M, MW>(middleware: M, mw: MW) -> MiddlewareLayerBuilder<M, MW> {
    MiddlewareLayerBuilder { middleware, mw }
}

/// The layer of the middleware `mw` in front of `next`.
pub open spec fn layer_of<N, MW>(next: N, mw: MW) -> MiddlewareLayer<N, MW> {
    MiddlewareLayer { next, mw }
}

/// The base of a chain is a neutral element of merging, on either side.
pub proof fn law_base_is_neutral<TCtx, T, M: MiddlewareBuilderLike<T>>(base: BaseMiddleware<TCtx>, m: M, next: T)
    ensures
        merged(base, m).spec_build(next) == m.spec_build(next),
        merged(m, base).spec_build(next) == m.spec_build(next),
{
}

/// Merging is associative: however three builders are grouped, they build the same layer.
pub proof fn law_merge_associative<T, A, B, C>(a: A, b: B, c: C, next: T) where
    C: MiddlewareBuilderLike<T>,
    B: MiddlewareBuilderLike<C::LayerResult>,
    A: MiddlewareBuilderLike<B::LayerResult>,

    ensures
        merged(merged(a, b), c).spec_build(next) == merged(a, merged(b, c)).spec_build(next),
{
}

/// Middlewares run in the order in which they were added: on the base, a first and a
/// second middleware build the layer of the first, which hands on to the layer of the
/// second, which hands on to `next`.
pub proof fn law_middlewares_run_in_order<TCtx, T, MW1, MW2>(base: BaseMiddleware<TCtx>, first: MW1, second: MW2, next: T)
    ensures
        extended(extended(base, first), second).spec_build(next) == layer_of(layer_of(next, second), first),
{
}

/// The names of the kinds, as the wire protocol writes them.
pub proof fn law_kind_names()
    ensures
        kind_name(ProcedureKind::Query) == "query"@,
        kind_name(ProcedureKind::Mutation) == "mutation"@,
        kind_name(ProcedureKind::Subscription) == "subscription"@,
{
}

/// A resolver's value stays that value and its stream stays that stream in the layer
/// output.
pub proof fn law_resolved_outputs<'a, M, C, S>(x: serde_json::Value, st: S)
    ensures
        spec_from_resolved::<M, C, S>(ValueOrStream::Value(x)) == ValueOrStreamOrFut2::<'a, M, C, S>::Value(x),
        spec_from_resolved::<M, C, S>(ValueOrStream::Stream(st)) == ValueOrStreamOrFut2::<'a, M, C, S>::Stream(st),
{
}

} // verus!
