//! What a middleware hands on to the rest of the chain: the context for the next layer,
//! the input, the request context, and an optional handler for the response.
use vstd::prelude::*;
use crate::middleware::RequestContext;

verus! {

/// A value that a procedure may return.
pub trait Ret: std::fmt::Debug + Send + Sync + 'static {}

impl<T: std::fmt::Debug + Send + Sync + 'static> Ret for T {}

/// A future that resolves to a value that a procedure may return.
pub trait Fut<TRet: Ret>: std::future::Future<Output = TRet> + Send + 'static {}

impl<TRet: Ret, TFut: std::future::Future<Output = TRet> + Send + 'static> Fut<TRet> for TFut {}

/// A function that starts such a future.
pub trait Func<TRet: Ret, TFut: Fut<TRet>>: Fn() -> TFut + Send + Sync + 'static {}

impl<TRet: Ret, TFut: Fut<TRet>, TFunc: Fn() -> TFut + Send + Sync + 'static> Func<TRet, TFut> for TFunc {}

/// A response handler that stands in where a middleware has none.
pub struct Executable2Placeholder {}

/// The result of a middleware: the input and request context passed on, the context for
/// the next layer (which the middleware must have set), and a response handler, if any.
pub struct MwResultWithCtx<TLCtx, TResp> {
    pub input: serde_json::Value,
    pub req: RequestContext,
    pub ctx: Option<TLCtx>,
    pub resp: Option<TResp>,
}

impl<TLCtx, TResp> MwResultWithCtx<TLCtx, TResp> {
    /// The same result with `handler` as its response handler.
    pub open spec fn spec_map<E>(self, handler: E) -> MwResultWithCtx<TLCtx, E> {
        MwResultWithCtx { input: self.input, req: self.req, ctx: self.ctx, resp: Some(handler) }
    }

    /// The parts of the result: the context for the next layer, the input, the request
    /// context and the response handler.
    pub open spec fn parts(self) -> (TLCtx, serde_json::Value, RequestContext, Option<TResp>) {
        (self.ctx->0, self.input, self.req, self.resp)
    }

    /// The same result with `handler` as its response handler.
    pub fn map<E>(self, handler: E) -> (r: MwResultWithCtx<TLCtx, E>)
        ensures
            r == self.spec_map(handler),
            r.input == self.input,
            r.req == self.req,
            r.ctx == self.ctx,
            r.resp == Some(handler),
    {
        MwResultWithCtx { input: self.input, req: self.req, ctx: self.ctx, resp: Some(handler) }
    }

    /// Takes the result apart into the context for the next layer, the input, the request
    /// context and the response handler. The middleware must have set the context.
    pub fn explode(self) -> (r: (TLCtx, serde_json::Value, RequestContext, Option<TResp>))
        requires
            self.ctx is Some,
        ensures
            r == self.parts(),
            r.0 == self.ctx->0,
            r.1 == self.input,
            r.2 == self.req,
            r.3 == self.resp,
    {
        match self.ctx {
            Some(ctx) => (ctx, self.input, self.req, self.resp),
            None => vstd::pervasive::unreached(),
        }
    }
}

/// Takes apart a middleware's result that may have failed: a failure is passed on, a
/// success is taken apart as by `MwResultWithCtx::explode`.
pub fn explode_result<TLCtx, TResp, E>(r: Result<MwResultWithCtx<TLCtx, TResp>, E>) -> (out: Result<
    (TLCtx, serde_json::Value, RequestContext, Option<TResp>),
    E,
>)
    requires
        r matches Ok(res) ==> res.ctx is Some,
    ensures
        out == match r {
            Ok(res) => Ok(res.parts()),
            Err(e) => Err::<(TLCtx, serde_json::Value, RequestContext, Option<TResp>), E>(e),
        },
{
    match r {
        Ok(res) => Ok(res.explode()),
        Err(e) => Err(e),
    }
}

/// Setting a response handler changes nothing but the handler: taking the result apart
/// afterwards gives the same context, input and request context, and the new handler.
pub proof fn law_map_then_explode<TLCtx, TResp, E>(res: MwResultWithCtx<TLCtx, TResp>, handler: E)
    requires
        res.ctx is Some,
    ensures
        res.spec_map(handler).ctx is Some,
        res.spec_map(handler).parts() == (res.parts().0, res.parts().1, res.parts().2, Some(handler)),
{
}

/// Taking a result apart hands back its own context, input, request context and handler;
/// setting a handler keeps the input, request context and context.
pub proof fn law_parts_are_the_fields<TLCtx, TResp, E>(res: MwResultWithCtx<TLCtx, TResp>, handler: E)
    ensures
        res.parts().0 == res.ctx->0,
        res.parts().1 == res.input,
        res.parts().2 == res.req,
        res.parts().3 == res.resp,
        res.spec_map(handler).input == res.input,
        res.spec_map(handler).req == res.req,
        res.spec_map(handler).ctx == res.ctx,
        res.spec_map(handler).resp == Some(handler),
{
}

} // verus!
