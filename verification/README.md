# rspc (verified core)

The verified core of an RPC framework whose procedures (queries, mutations and
subscriptions) are called with JSON input and answer with JSON values or streams.

`src/` is verified with Verus:

- `exec/routing.rs`: procedure tables, the lookup and call of the procedure that a
  request asks for, and the routing of a request by its kind; a request of one kind is
  looked up in that kind's table alone.
- `exec/stream_or_fut.rs`: the state machine that turns a procedure's answer (a stream or
  a single future) into responses, ending a stream with a completion notice.
- `exec/stream.rs`: a stream that yields one future's output and ends.
- `exec/types.rs`: requests and responses.
- `middleware.rs`, `mw_result.rs`, `layer.rs`, `resolver_result.rs`: procedure kinds,
  request contexts, the base of a middleware chain, middleware results and the erasure of
  layer outputs.
- `window_manager.rs`: the windows of a desktop transport and the decoding of their event
  payloads into the JSON of a request or a batch.
- `json.rs`: the calls into `serde_json` that the library makes, as trusted items.

`app/` holds what runs around it: the serde wire forms, `futures` streams that drive the
state machines, and the transport glue that shuts subscriptions down, deserializes the
requests of an event and routes them.
