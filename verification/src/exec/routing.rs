//! The routing of a request to the procedure that serves it: a router holds one table
//! of procedures per kind, and a request for a kind is looked up in that kind's table
//! alone.
use vstd::prelude::*;
use crate::json::{json_is_null, json_null};
use crate::exec::types::Request;
use crate::middleware::{ProcedureKind, RequestContext};

verus! {

/// The procedures of one kind, each under its own path.
///
/// The table is a vector of entries with distinct paths rather than a standard map: the
/// specifications of the standard maps hold only for key types that obey vstd's key
/// model, and `String` is not among them.
pub struct ProcedureMap<P> {
    entries: Vec<(String, P)>,
}

impl<P> ProcedureMap<P> {
    /// No two entries have the same path.
    #[verifier::type_invariant]
    closed spec fn paths_distinct(self) -> bool {
        forall|i: int, j: int|
            0 <= i < j < self.entries@.len() ==> #[trigger] self.entries@[i].0@
                != #[trigger] self.entries@[j].0@
    }

    /// Whether some entry is under `path`.
    closed spec fn has_path(self, path: Seq<char>) -> bool {
        exists|i: int| 0 <= i < self.entries@.len() && #[trigger] self.entries@[i].0@ == path
    }

    /// The procedures by path.
    pub closed spec fn table(self) -> Map<Seq<char>, P> {
        Map::new(
            |path: Seq<char>| self.has_path(path),
            |path: Seq<char>|
                self.entries@[choose|i: int|
                    0 <= i < self.entries@.len() && #[trigger] self.entries@[i].0@ == path].1,
        )
    }
}

impl<P> View for ProcedureMap<P> {
    type V = Map<Seq<char>, P>;

    open spec fn view(&self) -> Map<Seq<char>, P> {
        self.table()
    }
}

impl<P> ProcedureMap<P> {
    /// The entry at `i` is what the table holds under its path.
    proof fn lemma_entry_in_table(self, i: int)
        requires
            self.paths_distinct(),
            0 <= i < self.entries@.len(),
        ensures
            self@.contains_key(self.entries@[i].0@),
            self@[self.entries@[i].0@] == self.entries@[i].1,
    {
        let path = self.entries@[i].0@;
        assert(self.has_path(path));
        let j = choose|j: int| 0 <= j < self.entries@.len() && #[trigger] self.entries@[j].0@ == path;
        if j != i {
            if j < i {
                assert(self.entries@[j].0@ != self.entries@[i].0@);
            } else {
                assert(self.entries@[i].0@ != self.entries@[j].0@);
            }
        }
    }

    /// An empty table.
    pub fn new() -> (m: Self)
        ensures
            m@ == Map::<Seq<char>, P>::empty(),
    {
        let m = ProcedureMap { entries: Vec::new() };
        assert(m@ =~= Map::<Seq<char>, P>::empty());
        m
    }

    /// The position of the entry under `path`, if there is one.
    fn position(&self, path: &String) -> (r: Option<usize>)
        ensures
            match r {
                Some(i) => i < self.entries@.len() && self.entries@[i as int].0@ == path@,
                None => !self@.contains_key(path@),
            },
    {
        let mut i: usize = 0;
        while i < self.entries.len()
            invariant
                i <= self.entries@.len(),
                forall|j: int| 0 <= j < i ==> #[trigger] self.entries@[j].0@ != path@,
            decreases self.entries@.len() - i,
        {
            if self.entries[i].0 == *path {
                return Some(i);
            }
            i = i + 1;
        }
        None
    }

    /// The procedure under `path`, if there is one.
    pub fn get(&self, path: &String) -> (r: Option<&P>)
        ensures
            match r {
                Some(p) => self@.contains_key(path@) && *p == self@[path@],
                None => !self@.contains_key(path@),
            },
    {
        proof {
            use_type_invariant(self);
        }
        match self.position(path) {
            Some(i) => {
                proof {
                    self.lemma_entry_in_table(i as int);
                }
                Some(&self.entries[i].1)
            },
            None => None,
        }
    }
}

impl<P> ProcedureMap<P> {
    /// Puts `procedure` under `path`, in place of the procedure that was there, which is
    /// handed back.
    pub fn insert(&mut self, path: String, procedure: P) -> (r: Option<P>)
        ensures
            final(self)@ == old(self)@.insert(path@, procedure),
            match r {
                Some(p) => old(self)@.contains_key(path@) && p == old(self)@[path@],
                None => !old(self)@.contains_key(path@),
            },
    {
        proof {
            use_type_invariant(&*self);
        }
        let ghost old_self = *self;
        let ghost key = path@;
        let pos = self.position(&path);
        let mut entries: Vec<(String, P)> = Vec::new();
        std::mem::swap(&mut entries, &mut self.entries);
        let r = match pos {
            Some(i) => {
                proof {
                    old_self.lemma_entry_in_table(i as int);
                }
                let mut entry = (path, procedure);
                entries.set_and_swap(i, &mut entry);
                let ghost new_map = ProcedureMap { entries: entries };
                proof {
                    assert(new_map.entries@ == old_self.entries@.update(i as int, (new_map.entries@[i as int].0, procedure)));
                    assert forall|a: int, b: int|
                        0 <= a < b < new_map.entries@.len() implies #[trigger] new_map.entries@[a].0@
                        != #[trigger] new_map.entries@[b].0@ by {
                        assert(old_self.entries@[a].0@ != old_self.entries@[b].0@);
                    }
                    assert(new_map.paths_distinct());
                    assert forall|k: Seq<char>| #[trigger] new_map.has_path(k) == old_self.has_path(k) by {
                        if new_map.has_path(k) {
                            let w = choose|w: int| 0 <= w < new_map.entries@.len() && #[trigger] new_map.entries@[w].0@ == k;
                            assert(old_self.entries@[w].0@ == k);
                        }
                        if old_self.has_path(k) {
                            let w = choose|w: int| 0 <= w < old_self.entries@.len() && #[trigger] old_self.entries@[w].0@ == k;
                            assert(new_map.entries@[w].0@ == k);
                        }
                    }
                    assert forall|k: Seq<char>| #[trigger] new_map.has_path(k) && k != key implies new_map@[k] == old_self@[k] by {
                        let w = choose|w: int| 0 <= w < new_map.entries@.len() && #[trigger] new_map.entries@[w].0@ == k;
                        new_map.lemma_entry_in_table(w);
                        old_self.lemma_entry_in_table(w);
                    }
                    new_map.lemma_entry_in_table(i as int);
                    assert(new_map@ =~= old_self@.insert(key, procedure));
                }
                Some(entry.1)
            },
            None => {
                entries.push((path, procedure));
                let ghost new_map = ProcedureMap { entries: entries };
                proof {
                    let n = old_self.entries@.len() as int;
                    assert forall|a: int, b: int|
                        0 <= a < b < new_map.entries@.len() implies #[trigger] new_map.entries@[a].0@
                        != #[trigger] new_map.entries@[b].0@ by {
                        if b < n {
                            assert(old_self.entries@[a].0@ != old_self.entries@[b].0@);
                        } else {
                            assert(old_self.entries@[a].0@ != key) by {
                                if old_self.entries@[a].0@ == key {
                                    assert(old_self.has_path(key));
                                }
                            }
                        }
                    }
                    assert(new_map.paths_distinct());
                    assert forall|k: Seq<char>| #[trigger] new_map.has_path(k) == (old_self.has_path(k) || k == key) by {
                        if new_map.has_path(k) && k != key {
                            let w = choose|w: int| 0 <= w < new_map.entries@.len() && #[trigger] new_map.entries@[w].0@ == k;
                            assert(old_self.entries@[w].0@ == k);
                        }
                        if old_self.has_path(k) {
                            let w = choose|w: int| 0 <= w < old_self.entries@.len() && #[trigger] old_self.entries@[w].0@ == k;
                            assert(new_map.entries@[w].0@ == k);
                        }
                        if k == key {
                            assert(new_map.entries@[n].0@ == k);
                        }
                    }
                    assert forall|k: Seq<char>| #[trigger] old_self.has_path(k) implies new_map@[k] == old_self@[k] by {
                        let w = choose|w: int| 0 <= w < old_self.entries@.len() && #[trigger] old_self.entries@[w].0@ == k;
                        new_map.lemma_entry_in_table(w);
                        old_self.lemma_entry_in_table(w);
                    }
                    new_map.lemma_entry_in_table(n);
                    assert(new_map@ =~= old_self@.insert(key, procedure));
                }
                None
            },
        };
        self.entries = entries;
        r
    }
}

/// The procedures that a server offers, one table per kind.
pub struct Router<P> {
    pub queries: ProcedureMap<P>,
    pub mutations: ProcedureMap<P>,
    pub subscriptions: ProcedureMap<P>,
}

impl<P> Router<P> {
    /// The table of the procedures of kind `kind`.
    pub open spec fn table_of(self, kind: ProcedureKind) -> Map<Seq<char>, P> {
        match kind {
            ProcedureKind::Query => self.queries@,
            ProcedureKind::Mutation => self.mutations@,
            ProcedureKind::Subscription => self.subscriptions@,
        }
    }

    /// A router that offers no procedure.
    pub fn new() -> (r: Self)
        ensures
            r.queries@ == Map::<Seq<char>, P>::empty(),
            r.mutations@ == Map::<Seq<char>, P>::empty(),
            r.subscriptions@ == Map::<Seq<char>, P>::empty(),
    {
        Router { queries: ProcedureMap::new(), mutations: ProcedureMap::new(), subscriptions: ProcedureMap::new() }
    }

    /// The table of the procedures of kind `kind`.
    pub fn procedures(&self, kind: ProcedureKind) -> (m: &ProcedureMap<P>)
        ensures
            m@ == self.table_of(kind),
    {
        match kind {
            ProcedureKind::Query => &self.queries,
            ProcedureKind::Mutation => &self.mutations,
            ProcedureKind::Subscription => &self.subscriptions,
        }
    }
}

/// What a request asks of a procedure: its identifier, the procedure's path and the
/// input, if any.
#[derive(Debug)]
pub struct RequestData {
    pub id: u32,
    pub path: String,
    pub input: Option<serde_json::Value>,
}

/// Whether `input` is what a procedure receives for a request whose input is
/// `requested`: the request's own input, or JSON `null` where it had none.
pub open spec fn input_for(requested: Option<serde_json::Value>, input: serde_json::Value) -> bool {
    match requested {
        Some(x) => input == x,
        None => json_is_null(input),
    }
}

/// Whether `req` is the request context of a call for the request `id` of a procedure of
/// kind `kind` under `path`.
pub open spec fn context_for(req: RequestContext, id: u32, kind: ProcedureKind, path: Seq<char>) -> bool {
    req.id == id && req.kind == kind && req.path@ == path
}

/// Whether `body` is what `procedure` answered when it was called with the context `ctx`,
/// the input that a request with input `requested` gives, and the request context of a
/// call for the request `id` of kind `kind` under `path`.
pub open spec fn answered<P, C, B>(
    procedure: P,
    ctx: C,
    requested: Option<serde_json::Value>,
    id: u32,
    kind: ProcedureKind,
    path: Seq<char>,
    body: B,
) -> bool where P: Fn(C, serde_json::Value, RequestContext) -> B {
    exists|input: serde_json::Value, req: RequestContext|
        #![trigger call_ensures(procedure, (ctx, input, req), body)]
        input_for(requested, input) && context_for(req, id, kind, path) && call_ensures(
            procedure,
            (ctx, input, req),
            body,
        )
}

/// Whether every call that the request `id` with input `requested` on `procedure` of kind
/// `kind` under `path` may make is one that the procedure accepts.
pub open spec fn callable<P, C, B>(
    procedure: P,
    ctx: C,
    requested: Option<serde_json::Value>,
    id: u32,
    kind: ProcedureKind,
    path: Seq<char>,
) -> bool where P: Fn(C, serde_json::Value, RequestContext) -> B {
    forall|input: serde_json::Value, req: RequestContext|
        #![trigger call_requires(procedure, (ctx, input, req))]
        input_for(requested, input) && context_for(req, id, kind, path) ==> call_requires(
            procedure,
            (ctx, input, req),
        )
}

/// Looks up the procedure of kind `kind` that a request asks for and calls it, once, with
/// the caller's context, the request's input (JSON `null` where it has none) and the
/// request context (the request's identifier, the kind and the path); the result is the body that the procedure answers with. Only the
/// table of that kind is searched; a path that it lacks finds nothing, and nothing is
/// called.
pub fn get_procedure<P, C, B>(router: &Router<P>, ctx: C, data: RequestData, kind: ProcedureKind) -> (r: Option<B>) where
    P: Fn(C, serde_json::Value, RequestContext) -> B,

    requires
        router.table_of(kind).contains_key(data.path@) ==> callable(
            router.table_of(kind)[data.path@],
            ctx,
            data.input,
            data.id,
            kind,
            data.path@,
        ),
    ensures
        r is Some <==> router.table_of(kind).contains_key(data.path@),
        r matches Some(body) ==> answered(
            router.table_of(kind)[data.path@],
            ctx,
            data.input,
            data.id,
            kind,
            data.path@,
            body,
        ),
{
    let RequestData { id, path, input } = data;
    let ghost key = path@;
    let ghost requested = input;
    let req = RequestContext { id, kind, path };
    let procedures = router.procedures(kind);
    match procedures.get(&req.path) {
        None => None,
        Some(procedure) => {
            let input = match input {
                Some(x) => x,
                None => json_null(),
            };
            let ghost args = (ctx, input, req);
            assert(input_for(requested, input) && context_for(req, id, kind, key));
            let body = procedure(ctx, input, req);
            assert(call_ensures(*procedure, args, body));
            Some(body)
        },
    }
}

/// Looks up the query that a request asks for and calls it (see `get_procedure`).
pub fn get_query<P, C, B>(router: &Router<P>, ctx: C, data: RequestData) -> (r: Option<B>) where
    P: Fn(C, serde_json::Value, RequestContext) -> B,

    requires
        router.queries@.contains_key(data.path@) ==> callable(
            router.queries@[data.path@],
            ctx,
            data.input,
            data.id,
            ProcedureKind::Query,
            data.path@,
        ),
    ensures
        r is Some <==> router.queries@.contains_key(data.path@),
        r matches Some(body) ==> answered(
            router.queries@[data.path@],
            ctx,
            data.input,
            data.id,
            ProcedureKind::Query,
            data.path@,
            body,
        ),
{
    get_procedure(router, ctx, data, ProcedureKind::Query)
}

/// Looks up the mutation that a request asks for and calls it (see `get_procedure`).
pub fn get_mutation<P, C, B>(router: &Router<P>, ctx: C, data: RequestData) -> (r: Option<B>) where
    P: Fn(C, serde_json::Value, RequestContext) -> B,

    requires
        router.mutations@.contains_key(data.path@) ==> callable(
            router.mutations@[data.path@],
            ctx,
            data.input,
            data.id,
            ProcedureKind::Mutation,
            data.path@,
        ),
    ensures
        r is Some <==> router.mutations@.contains_key(data.path@),
        r matches Some(body) ==> answered(
            router.mutations@[data.path@],
            ctx,
            data.input,
            data.id,
            ProcedureKind::Mutation,
            data.path@,
            body,
        ),
{
    get_procedure(router, ctx, data, ProcedureKind::Mutation)
}

/// Looks up the subscription that a request asks for and calls it (see `get_procedure`).
pub fn get_subscription<P, C, B>(router: &Router<P>, ctx: C, data: RequestData) -> (r: Option<B>) where
    P: Fn(C, serde_json::Value, RequestContext) -> B,

    requires
        router.subscriptions@.contains_key(data.path@) ==> callable(
            router.subscriptions@[data.path@],
            ctx,
            data.input,
            data.id,
            ProcedureKind::Subscription,
            data.path@,
        ),
    ensures
        r is Some <==> router.subscriptions@.contains_key(data.path@),
        r matches Some(body) ==> answered(
            router.subscriptions@[data.path@],
            ctx,
            data.input,
            data.id,
            ProcedureKind::Subscription,
            data.path@,
            body,
        ),
{
    get_procedure(router, ctx, data, ProcedureKind::Subscription)
}

/// What routing a request came to.
pub enum Routed<B> {
    /// The procedure was found and called: `body` is its answer to the request `id`.
    Answer { id: u32, body: B },
    /// No procedure of the requested kind is under the requested path.
    NotFound { id: u32 },
    /// The request asks to stop the subscription `id`; no procedure is called.
    Stop { id: u32 },
}

/// The kind of procedure that a request calls, if it calls one.
pub open spec fn request_kind(req: Request) -> Option<ProcedureKind> {
    match req {
        Request::Query { .. } => Some(ProcedureKind::Query),
        Request::Mutation { .. } => Some(ProcedureKind::Mutation),
        Request::Subscription { .. } => Some(ProcedureKind::Subscription),
        Request::SubscriptionStop { .. } => None,
    }
}

/// The identifier of a request.
pub open spec fn request_id(req: Request) -> u32 {
    match req {
        Request::Query { id, .. } => id,
        Request::Mutation { id, .. } => id,
        Request::Subscription { id, .. } => id,
        Request::SubscriptionStop { id } => id,
    }
}

/// The path that a request calls (empty for a stop).
pub open spec fn request_path(req: Request) -> Seq<char> {
    match req {
        Request::Query { path, .. } => path@,
        Request::Mutation { path, .. } => path@,
        Request::Subscription { path, .. } => path@,
        Request::SubscriptionStop { .. } => Seq::empty(),
    }
}

/// The input of a request (none for a stop).
pub open spec fn request_input(req: Request) -> Option<serde_json::Value> {
    match req {
        Request::Query { input, .. } => input,
        Request::Mutation { input, .. } => input,
        Request::Subscription { input, .. } => input,
        Request::SubscriptionStop { .. } => None,
    }
}

/// Routes a request: a query, mutation or subscription is looked up in the table of its
/// kind and, when found, called (see `get_procedure`); a stop calls nothing.
pub fn route_request<P, C, B>(router: &Router<P>, ctx: C, req: Request) -> (r: Routed<B>) where
    P: Fn(C, serde_json::Value, RequestContext) -> B,

    requires
        match request_kind(req) {
            Some(kind) => router.table_of(kind).contains_key(request_path(req)) ==> callable(
                router.table_of(kind)[request_path(req)],
                ctx,
                request_input(req),
                request_id(req),
                kind,
                request_path(req),
            ),
            None => true,
        },
    ensures
        match request_kind(req) {
            None => r == Routed::<B>::Stop { id: request_id(req) },
            Some(kind) => match r {
                Routed::Answer { id, body } => id == request_id(req) && router.table_of(
                    kind,
                ).contains_key(request_path(req)) && answered(
                    router.table_of(kind)[request_path(req)],
                    ctx,
                    request_input(req),
                    request_id(req),
                    kind,
                    request_path(req),
                    body,
                ),
                Routed::NotFound { id } => id == request_id(req) && !router.table_of(
                    kind,
                ).contains_key(request_path(req)),
                Routed::Stop { .. } => false,
            },
        },
{
    let (id, path, input, kind) = match req {
        Request::Query { id, path, input } => (id, path, input, ProcedureKind::Query),
        Request::Mutation { id, path, input } => (id, path, input, ProcedureKind::Mutation),
        Request::Subscription { id, path, input } => (id, path, input, ProcedureKind::Subscription),
        Request::SubscriptionStop { id } => return Routed::Stop { id },
    };
    match get_procedure(router, ctx, RequestData { id, path, input }, kind) {
        Some(body) => Routed::Answer { id, body },
        None => Routed::NotFound { id },
    }
}

/// A request calls the procedure of its own kind under its own path, with its own
/// identifier and its own input; a stop calls nothing and keeps its identifier.
pub proof fn law_request_fields_routed(id: u32, path: String, input: Option<serde_json::Value>)
    ensures
        request_kind(Request::Query { id, path, input }) == Some(ProcedureKind::Query),
        request_kind(Request::Mutation { id, path, input }) == Some(ProcedureKind::Mutation),
        request_kind(Request::Subscription { id, path, input }) == Some(ProcedureKind::Subscription),
        request_kind(Request::SubscriptionStop { id }) is None,
        request_id(Request::Query { id, path, input }) == id,
        request_id(Request::Mutation { id, path, input }) == id,
        request_id(Request::Subscription { id, path, input }) == id,
        request_id(Request::SubscriptionStop { id }) == id,
        request_path(Request::Query { id, path, input }) == path@,
        request_path(Request::Mutation { id, path, input }) == path@,
        request_path(Request::Subscription { id, path, input }) == path@,
        request_input(Request::Query { id, path, input }) == input,
        request_input(Request::Mutation { id, path, input }) == input,
        request_input(Request::Subscription { id, path, input }) == input,
{
}

/// A router looks a kind up in that kind's own table.
pub proof fn law_table_of_kind<P>(router: Router<P>)
    ensures
        router.table_of(ProcedureKind::Query) == router.queries@,
        router.table_of(ProcedureKind::Mutation) == router.mutations@,
        router.table_of(ProcedureKind::Subscription) == router.subscriptions@,
{
}

/// A procedure is called with the request's own input when it has one, and with JSON
/// `null` when it has none; its request context carries the request's identifier, the
/// kind and the path, and nothing else is accepted.
pub proof fn law_call_arguments(
    requested: Option<serde_json::Value>,
    input: serde_json::Value,
    req: RequestContext,
    id: u32,
    kind: ProcedureKind,
    path: Seq<char>,
)
    ensures
        requested matches Some(x) ==> (input_for(requested, input) <==> input == x),
        requested is None ==> (input_for(requested, input) <==> json_is_null(input)),
        context_for(req, id, kind, path) <==> (req.id == id && req.kind == kind && req.path@ == path),
{
}

/// What a procedure answered to a call with the request's own input and a request context
/// of the request's identifier, kind and path is an answer to that request; and an answer
/// to a request with an input is what the procedure answered to a call with that very
/// input.
pub proof fn law_answer_is_call_with_request_input<P, C, B>(
    procedure: P,
    ctx: C,
    x: serde_json::Value,
    req: RequestContext,
    id: u32,
    kind: ProcedureKind,
    path: Seq<char>,
    body: B,
) where P: Fn(C, serde_json::Value, RequestContext) -> B
    ensures
        req.id == id && req.kind == kind && req.path@ == path && call_ensures(procedure, (ctx, x, req), body)
            ==> answered(procedure, ctx, Some(x), id, kind, path, body),
        answered(procedure, ctx, Some(x), id, kind, path, body) ==> exists|r: RequestContext|
            #![trigger call_ensures(procedure, (ctx, x, r), body)]
            r.id == id && r.kind == kind && r.path@ == path && call_ensures(procedure, (ctx, x, r), body),
{
    if req.id == id && req.kind == kind && req.path@ == path && call_ensures(procedure, (ctx, x, req), body) {
        assert(input_for(Some(x), x) && context_for(req, id, kind, path));
    }
}

} // verus!
