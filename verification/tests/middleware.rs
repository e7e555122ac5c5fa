use rspc::exec::stream::Poll;
use rspc::middleware::{
    erase_layer_output, resolver_layer_poll, BaseMiddleware, MiddlewareBuilderLike, MiddlewareContext, MiddlewareLayer,
    MiddlewareLayerBuilder, MiddlewareMerger, ProcedureKind, RequestContext, ResolverLayer, ValueOrStream,
    ValueOrStreamOrFut2,
};
use rspc::mw_result::{explode_result, MwResultWithCtx};
use rspc::resolver_result::{RequestKind, RequestLayerMarker, StreamLayerMarker};
use serde_json::Value;

#[test]
fn procedure_kind_names() {
    assert_eq!(ProcedureKind::Query.to_str(), "query");
    assert_eq!(ProcedureKind::Mutation.to_str(), "mutation");
    assert_eq!(ProcedureKind::Subscription.to_str(), "subscription");
}

#[test]
fn request_markers_keep_their_kind() {
    let q: RequestLayerMarker<u8> = RequestLayerMarker::new(RequestKind::Query);
    assert_eq!(q.kind(), RequestKind::Query);
    let m: RequestLayerMarker<()> = RequestLayerMarker::new(RequestKind::Mutation);
    assert_eq!(m.kind(), RequestKind::Mutation);
    let _s: StreamLayerMarker<String> = StreamLayerMarker::new();
}

#[test]
fn base_middleware_builds_nothing_around_the_layer() {
    let base: BaseMiddleware<()> = BaseMiddleware::new();
    assert_eq!(base.build(41u64), 41);
    let base: BaseMiddleware<()> = Default::default();
    assert_eq!(base.build("layer"), "layer");
}

#[test]
fn middlewares_wrap_in_the_order_added() {
    let chain = MiddlewareLayerBuilder {
        middleware: MiddlewareLayerBuilder { middleware: BaseMiddleware::<()>::new(), mw: "one" },
        mw: "two",
    };
    let layer = chain.build("resolver");
    assert_eq!(layer.mw, "one");
    assert_eq!(layer.next.mw, "two");
    assert_eq!(layer.next.next, "resolver");
}

#[test]
fn merged_builders_compose() {
    let first = MiddlewareLayerBuilder { middleware: BaseMiddleware::<()>::new(), mw: 1u8 };
    let second = MiddlewareLayerBuilder { middleware: BaseMiddleware::<()>::new(), mw: 2u8 };
    let merged = MiddlewareMerger { middleware: first, middleware2: second };
    let layer: MiddlewareLayer<MiddlewareLayer<&str, u8>, u8> = merged.build("next");
    assert_eq!((layer.mw, layer.next.mw, layer.next.next), (1, 2, "next"));
    let neutral = MiddlewareMerger { middleware: BaseMiddleware::<()>::new(), middleware2: BaseMiddleware::<()>::new() };
    assert_eq!(neutral.build(5u32), 5);
}

#[test]
fn resolver_layer_calls_its_resolver() {
    let layer = ResolverLayer { func: |ctx: u32, input: Value, req: RequestContext| (ctx + 1, input, req.path) };
    let fut = layer.call(41, Value::from("x"), RequestContext { id: 1, kind: ProcedureKind::Query, path: "p".into() });
    assert_eq!(fut.0, (42, Value::from("x"), "p".to_string()));
}

#[test]
fn middleware_layer_calls_its_middleware_and_hands_on() {
    let layer = MiddlewareLayer { next: "resolver", mw: |c: MiddlewareContext<u8>| (c.ctx, c.input, c.req.path) };
    let call = layer.call(3, Value::Null, RequestContext { id: 2, kind: ProcedureKind::Mutation, path: "m".into() });
    assert_eq!(call.handler, (3, Value::Null, "m".to_string()));
    assert_eq!(*call.next, "resolver");
}

#[test]
fn merging_is_associative() {
    let mk = |mw: u8| MiddlewareLayerBuilder { middleware: BaseMiddleware::<()>::new(), mw };
    let left = MiddlewareMerger { middleware: MiddlewareMerger { middleware: mk(1), middleware2: mk(2) }, middleware2: mk(3) };
    let right = MiddlewareMerger { middleware: mk(1), middleware2: MiddlewareMerger { middleware: mk(2), middleware2: mk(3) } };
    let l = left.build("r");
    let r = right.build("r");
    assert_eq!((l.mw, l.next.mw, l.next.next.mw, l.next.next.next), (1, 2, 3, "r"));
    assert_eq!((r.mw, r.next.mw, r.next.next.mw, r.next.next.next), (1, 2, 3, "r"));
}

fn req(path: &str) -> RequestContext {
    RequestContext { id: 0, kind: ProcedureKind::Mutation, path: path.to_string() }
}

#[test]
fn resolver_output_becomes_layer_output() {
    let polled: Poll<Result<ValueOrStream<u8>, String>> = Poll::Ready(Ok(ValueOrStream::Value(Value::from(3))));
    match resolver_layer_poll::<(), (), u8, String>(polled) {
        Poll::Ready(Ok(ValueOrStreamOrFut2::Value(v))) => assert_eq!(v, Value::from(3)),
        _ => panic!("expected a value"),
    }
    match resolver_layer_poll::<(), (), u8, String>(Poll::Ready(Ok(ValueOrStream::Stream(9)))) {
        Poll::Ready(Ok(ValueOrStreamOrFut2::Stream(s))) => assert_eq!(s, 9),
        _ => panic!("expected a stream"),
    }
    match resolver_layer_poll::<(), (), u8, String>(Poll::Ready(Err("no".to_string()))) {
        Poll::Ready(Err(e)) => assert_eq!(e, "no"),
        _ => panic!("expected the error"),
    }
    assert!(matches!(resolver_layer_poll::<(), (), u8, String>(Poll::Pending), Poll::Pending));
}

#[test]
fn layer_output_erases_to_value_or_stream() {
    match erase_layer_output::<(), (), u8>(ValueOrStreamOrFut2::Value(Value::Bool(true))) {
        ValueOrStream::Value(v) => assert_eq!(v, Value::Bool(true)),
        ValueOrStream::Stream(_) => panic!("expected a value"),
    }
    match erase_layer_output::<(), (), u8>(ValueOrStreamOrFut2::Stream(4)) {
        ValueOrStream::Stream(s) => assert_eq!(s, 4),
        ValueOrStream::Value(_) => panic!("expected a stream"),
    }
}

#[test]
fn middleware_result_map_and_explode() {
    let res: MwResultWithCtx<u32, ()> = MwResultWithCtx { input: Value::from("in"), req: req("p"), ctx: Some(5), resp: None };
    let mapped = res.map("handler");
    assert_eq!(mapped.resp, Some("handler"));
    let (ctx, input, r, resp) = mapped.explode();
    assert_eq!(ctx, 5);
    assert_eq!(input, Value::from("in"));
    assert_eq!(r.path, "p");
    assert_eq!(r.kind, ProcedureKind::Mutation);
    assert_eq!(resp, Some("handler"));

    let failed: Result<MwResultWithCtx<u32, ()>, &str> = Err("denied");
    assert_eq!(explode_result(failed).err(), Some("denied"));
    let ok: Result<MwResultWithCtx<u32, ()>, &str> =
        Ok(MwResultWithCtx { input: Value::Null, req: req("q"), ctx: Some(1), resp: None });
    let (ctx, input, r, resp) = explode_result(ok).unwrap();
    assert_eq!((ctx, input, r.path.as_str(), resp), (1, Value::Null, "q", None));
}
