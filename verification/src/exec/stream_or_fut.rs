//! The state machine that turns the answer to one request (a stream of results, or a
//! single future response) into the responses sent to the client, ending with a
//! completion notice for streams and with the end of the response stream.
use vstd::prelude::*;
use crate::exec::stream::Poll;
use crate::exec::types::{Response, ResponseError, ResponseInner};

verus! {

/// Where the answer to the request with identifier `id` stands.
#[derive(Debug, Clone, Copy, PartialEq, Eq, Structural)]
pub enum StreamOrFut {
    /// A stream of results is being forwarded.
    Stream { id: u32 },
    /// A single response is awaited.
    Future { id: u32 },
    /// The last response has been emitted; the end of the responses is due next.
    PendingDone { id: u32 },
    /// The responses have ended.
    Done { id: u32 },
}

/// What polling the inner stream or future gave the caller before a poll of the
/// state machine.
pub enum InnerPoll {
    /// The inner stream was polled.
    Stream(Poll<Option<Result<serde_json::Value, ResponseError>>>),
    /// The inner future was polled.
    Future(Poll<Response>),
    /// Nothing was polled: there is no inner stream or future any more.
    NotPolled,
}

/// The outcome of one poll: the response (or the end of responses, or nothing yet), and
/// whether the task must be woken to poll again at once.
pub struct PollStep {
    pub item: Poll<Option<Response>>,
    pub wake: bool,
}

impl StreamOrFut {
    /// The identifier of the request that this answer is for.
    pub open spec fn spec_id(self) -> u32 {
        match self {
            StreamOrFut::Stream { id } => id,
            StreamOrFut::Future { id } => id,
            StreamOrFut::PendingDone { id } => id,
            StreamOrFut::Done { id } => id,
        }
    }

    /// The identifier of the request that this answer is for.
    pub fn id(&self) -> (r: u32)
        ensures
            r == self.spec_id(),
    {
        match self {
            StreamOrFut::Stream { id } => *id,
            StreamOrFut::Future { id } => *id,
            StreamOrFut::PendingDone { id } => *id,
            StreamOrFut::Done { id } => *id,
        }
    }

    /// Whether `inner` is what the caller polls in this state: the stream while streaming,
    /// the future while awaiting it, nothing once the last response is out. A state
    /// machine whose responses have ended must not be polled again.
    pub open spec fn accepts(self, inner: InnerPoll) -> bool {
        match self {
            StreamOrFut::Stream { .. } => inner is Stream,
            StreamOrFut::Future { .. } => inner is Future,
            StreamOrFut::PendingDone { .. } => inner is NotPolled,
            StreamOrFut::Done { .. } => false,
        }
    }

    /// The next state and the outcome of a poll in state `self` given `inner`.
    pub open spec fn step(self, inner: InnerPoll) -> (StreamOrFut, PollStep) {
        match (self, inner) {
            (StreamOrFut::Stream { id }, InnerPoll::Stream(Poll::Ready(Some(Ok(v))))) => (
                self,
                PollStep { item: Poll::Ready(Some(Response { id, inner: ResponseInner::Value(v) })), wake: false },
            ),
            (StreamOrFut::Stream { id }, InnerPoll::Stream(Poll::Ready(Some(Err(e))))) => (
                self,
                PollStep { item: Poll::Ready(Some(Response { id, inner: ResponseInner::Error(e) })), wake: false },
            ),
            (StreamOrFut::Stream { id }, InnerPoll::Stream(Poll::Ready(None))) => (
                StreamOrFut::PendingDone { id },
                PollStep { item: Poll::Ready(Some(Response { id, inner: ResponseInner::Complete })), wake: true },
            ),
            (StreamOrFut::Future { id }, InnerPoll::Future(Poll::Ready(resp))) => (
                StreamOrFut::PendingDone { id },
                PollStep { item: Poll::Ready(Some(resp)), wake: true },
            ),
            (StreamOrFut::PendingDone { id }, _) => (
                StreamOrFut::Done { id },
                PollStep { item: Poll::Ready(None), wake: false },
            ),
            _ => (self, PollStep { item: Poll::Pending, wake: false }),
        }
    }

    /// One poll of the responses. A stream's results become responses with this
    /// request's identifier; when the stream ends, a completion response follows; a
    /// future's response is passed on. After the last response the task is woken, and the
    /// next poll ends the responses.
    pub fn poll_next(&mut self, inner: InnerPoll) -> (r: PollStep)
        requires
            old(self).accepts(inner),
        ensures
            (*final(self), r) == old(self).step(inner),
    {
        match (*self, inner) {
            (StreamOrFut::Stream { id }, InnerPoll::Stream(Poll::Ready(Some(r)))) => {
                let inner = match r {
                    Ok(v) => ResponseInner::Value(v),
                    Err(e) => ResponseInner::Error(e),
                };
                PollStep { item: Poll::Ready(Some(Response { id, inner })), wake: false }
            },
            (StreamOrFut::Stream { id }, InnerPoll::Stream(Poll::Ready(None))) => {
                *self = StreamOrFut::PendingDone { id };
                PollStep { item: Poll::Ready(Some(Response { id, inner: ResponseInner::Complete })), wake: true }
            },
            (StreamOrFut::Future { id }, InnerPoll::Future(Poll::Ready(resp))) => {
                *self = StreamOrFut::PendingDone { id };
                PollStep { item: Poll::Ready(Some(resp)), wake: true }
            },
            (StreamOrFut::PendingDone { id }, _) => {
                *self = StreamOrFut::Done { id };
                PollStep { item: Poll::Ready(None), wake: false }
            },
            _ => PollStep { item: Poll::Pending, wake: false },
        }
    }

    /// Bounds on the number of responses still to come: the inner stream's bounds
    /// (`stream_hint`) while streaming, at most one while awaiting a future, none after.
    pub fn size_hint(&self, stream_hint: (usize, Option<usize>)) -> (r: (usize, Option<usize>))
        ensures
            r == match *self {
                StreamOrFut::Stream { .. } => stream_hint,
                StreamOrFut::Future { .. } => (0usize, Some(1usize)),
                _ => (0usize, Some(0usize)),
            },
    {
        match self {
            StreamOrFut::Stream { .. } => stream_hint,
            StreamOrFut::Future { .. } => (0, Some(1)),
            StreamOrFut::PendingDone { .. } => (0, Some(0)),
            StreamOrFut::Done { .. } => (0, Some(0)),
        }
    }
}

/// The outcomes of polling `s` with `polls`, one after the other.
pub open spec fn run(s: StreamOrFut, polls: Seq<InnerPoll>) -> Seq<PollStep>
    decreases polls.len(),
{
    if polls.len() == 0 {
        Seq::empty()
    } else {
        let (next, out) = s.step(polls[0]);
        seq![out] + run(next, polls.drop_first())
    }
}

/// Whether each of `polls` is what the caller polls in the state that it meets.
pub open spec fn accepted(s: StreamOrFut, polls: Seq<InnerPoll>) -> bool
    decreases polls.len(),
{
    polls.len() == 0 || (s.accepts(polls[0]) && accepted(s.step(polls[0]).0, polls.drop_first()))
}

/// A run has one outcome per poll.
proof fn lemma_run_len(s: StreamOrFut, polls: Seq<InnerPoll>)
    ensures
        run(s, polls).len() == polls.len(),
    decreases polls.len(),
{
    if polls.len() > 0 {
        lemma_run_len(s.step(polls[0]).0, polls.drop_first());
    }
}

/// One poll keeps the request's identifier.
pub proof fn law_step_keeps_id(s: StreamOrFut, inner: InnerPoll)
    ensures
        s.step(inner).0.spec_id() == s.spec_id(),
{
}

/// Every response that a stream's answer emits carries the identifier of its request.
pub proof fn law_stream_responses_carry_id(id: u32, polls: Seq<InnerPoll>)
    requires
        accepted(StreamOrFut::Stream { id }, polls),
    ensures
        forall|i: int|
            0 <= i < polls.len() ==> ((#[trigger] run(StreamOrFut::Stream { id }, polls)[i]).item
                matches Poll::Ready(Some(resp)) ==> resp.id == id),
    decreases polls.len(),
{
    let s = StreamOrFut::Stream { id };
    if polls.len() > 0 {
        let (next, out) = s.step(polls[0]);
        let rest = polls.drop_first();
        assert(run(s, polls) == seq![out] + run(next, rest));
        lemma_run_len(next, rest);
        match next {
            StreamOrFut::Stream { .. } => {
                law_stream_responses_carry_id(id, rest);
            },
            _ => {
                law_end_follows_completion(next, rest);
            },
        }
        assert forall|i: int|
            0 <= i < polls.len() implies ((#[trigger] run(s, polls)[i]).item
                matches Poll::Ready(Some(resp)) ==> resp.id == id) by {
            if i > 0 {
                assert(run(s, polls)[i] == run(next, rest)[i - 1]);
            }
        }
    }
}

/// Once the last response is out (the state is past streaming and awaiting), the only
/// outcome that an accepted poll can have is the end of the responses, and nothing is
/// accepted after that.
pub proof fn law_end_follows_completion(s: StreamOrFut, polls: Seq<InnerPoll>)
    requires
        s is PendingDone || s is Done,
        accepted(s, polls),
    ensures
        polls.len() <= 1,
        forall|i: int|
            0 <= i < polls.len() ==> (#[trigger] run(s, polls)[i]).item == Poll::<Option<crate::exec::types::Response>>::Ready(None),
{
    if polls.len() > 0 {
        let (next, out) = s.step(polls[0]);
        assert(next is Done);
        if polls.len() > 1 {
            assert(accepted(next, polls.drop_first()));
            assert(!next.accepts(polls.drop_first()[0]));
        }
        assert(run(next, polls.drop_first()) == Seq::<PollStep>::empty());
        assert(run(s, polls) == seq![out]);
    }
}

/// A poll that wakes the task emits the answer's last response: every later accepted poll
/// ends the responses, and there is at most one.
pub proof fn law_wake_marks_last_response(s: StreamOrFut, polls: Seq<InnerPoll>)
    requires
        accepted(s, polls),
    ensures
        forall|i: int, j: int|
            0 <= i < j < polls.len() && (#[trigger] run(s, polls)[i]).wake ==> j == i + 1
                && (#[trigger] run(s, polls)[j]).item == Poll::<Option<crate::exec::types::Response>>::Ready(None),
    decreases polls.len(),
{
    if polls.len() > 0 {
        let (next, out) = s.step(polls[0]);
        let rest = polls.drop_first();
        assert(run(s, polls) == seq![out] + run(next, rest));
        lemma_run_len(next, rest);
        law_wake_marks_last_response(next, rest);
        if out.wake {
            law_end_follows_completion(next, rest);
        }
        assert forall|i: int, j: int|
            0 <= i < j < polls.len() && (#[trigger] run(s, polls)[i]).wake implies j == i + 1
                && (#[trigger] run(s, polls)[j]).item == Poll::<Option<crate::exec::types::Response>>::Ready(None) by {
            assert(run(s, polls)[j] == run(next, rest)[j - 1]);
            if i > 0 {
                assert(run(s, polls)[i] == run(next, rest)[i - 1]);
            }
        }
    }
}

/// The answer to a request that awaits a single future emits at most one response.
pub proof fn law_future_answers_once(id: u32, polls: Seq<InnerPoll>)
    requires
        accepted(StreamOrFut::Future { id }, polls),
    ensures
        forall|i: int, j: int|
            0 <= i < j < polls.len() && (#[trigger] run(StreamOrFut::Future { id }, polls)[i]).item
                is Ready && (#[trigger] run(StreamOrFut::Future { id }, polls)[j]).item is Ready
                ==> run(StreamOrFut::Future { id }, polls)[j].item == Poll::<Option<crate::exec::types::Response>>::Ready(None),
    decreases polls.len(),
{
    let s = StreamOrFut::Future { id };
    if polls.len() > 0 {
        let (next, out) = s.step(polls[0]);
        let rest = polls.drop_first();
        assert(run(s, polls) == seq![out] + run(next, rest));
        lemma_run_len(next, rest);
        if next is Future {
            law_future_answers_once(id, rest);
        } else {
            law_end_follows_completion(next, rest);
        }
        assert forall|i: int, j: int|
            0 <= i < j < polls.len() && (#[trigger] run(s, polls)[i]).item is Ready
                && (#[trigger] run(s, polls)[j]).item is Ready implies run(s, polls)[j].item
                == Poll::<Option<crate::exec::types::Response>>::Ready(None) by {
            assert(run(s, polls)[j] == run(next, rest)[j - 1]);
            if i > 0 {
                assert(run(s, polls)[i] == run(next, rest)[i - 1]);
            }
        }
    }
}

/// Whether a poll ended the responses.
pub open spec fn is_end(st: PollStep) -> bool {
    st.item == Poll::<Option<Response>>::Ready(None)
}

/// Whether a poll emitted a response.
pub open spec fn is_response(st: PollStep) -> bool {
    st.item is Ready && st.item->Ready_0 is Some
}

/// Whether a poll emitted the completion response of the request `id`.
pub open spec fn is_completion(st: PollStep, id: u32) -> bool {
    st.item == Poll::Ready(Some(Response { id, inner: ResponseInner::Complete }))
}

/// States only advance: streaming or awaiting gives way to the last response, which gives
/// way to the end; nothing goes back.
pub proof fn law_states_advance(s: StreamOrFut, inner: InnerPoll)
    requires
        s.accepts(inner),
    ensures
        ({
            let next = s.step(inner).0;
            ||| next == s
            ||| (s is Stream || s is Future) && next == StreamOrFut::PendingDone { id: s.spec_id() }
            ||| s is PendingDone && next == StreamOrFut::Done { id: s.spec_id() }
        }),
{
}

/// The end of the responses is the last outcome of a run: no poll follows it.
pub proof fn law_end_is_last(s: StreamOrFut, polls: Seq<InnerPoll>)
    requires
        accepted(s, polls),
    ensures
        forall|k: int| 0 <= k < polls.len() && is_end(#[trigger] run(s, polls)[k]) ==> k == polls.len() - 1,
    decreases polls.len(),
{
    if polls.len() > 0 {
        let (next, out) = s.step(polls[0]);
        let rest = polls.drop_first();
        assert(run(s, polls) == seq![out] + run(next, rest));
        lemma_run_len(next, rest);
        law_end_is_last(next, rest);
        if is_end(out) {
            assert(s is PendingDone);
            law_end_follows_completion(s, polls);
        }
        assert forall|k: int| 0 <= k < polls.len() && is_end(#[trigger] run(s, polls)[k]) implies k == polls.len() - 1 by {
            if k > 0 {
                assert(run(s, polls)[k] == run(next, rest)[k - 1]);
            }
        }
    }
}

/// A run of an awaited future that has ended emitted exactly one response.
pub proof fn law_future_run_answers_exactly_once(id: u32, polls: Seq<InnerPoll>, k: int)
    requires
        accepted(StreamOrFut::Future { id }, polls),
        0 <= k < polls.len(),
        is_end(run(StreamOrFut::Future { id }, polls)[k]),
    ensures
        exists|i: int|
            0 <= i < polls.len() && is_response(#[trigger] run(StreamOrFut::Future { id }, polls)[i])
                && forall|j: int|
                0 <= j < polls.len() && is_response(#[trigger] run(StreamOrFut::Future { id }, polls)[j]) ==> j == i,
    decreases polls.len(),
{
    let s = StreamOrFut::Future { id };
    let (next, out) = s.step(polls[0]);
    let rest = polls.drop_first();
    assert(run(s, polls) == seq![out] + run(next, rest));
    lemma_run_len(next, rest);
    if next is Future {
        assert(k > 0);
        assert(run(s, polls)[k] == run(next, rest)[k - 1]);
        law_future_run_answers_exactly_once(id, rest, k - 1);
        let i0 = choose|i: int|
            0 <= i < rest.len() && is_response(#[trigger] run(next, rest)[i])
                && forall|j: int| 0 <= j < rest.len() && is_response(#[trigger] run(next, rest)[j]) ==> j == i;
        assert(is_response(run(s, polls)[i0 + 1]));
        assert forall|j: int| 0 <= j < polls.len() && is_response(#[trigger] run(s, polls)[j]) implies j == i0 + 1 by {
            if j > 0 {
                assert(run(s, polls)[j] == run(next, rest)[j - 1]);
            }
        }
    } else {
        law_end_follows_completion(next, rest);
        assert(is_response(run(s, polls)[0]));
        assert forall|j: int| 0 <= j < polls.len() && is_response(#[trigger] run(s, polls)[j]) implies j == 0 by {
            if j > 0 {
                assert(run(s, polls)[j] == run(next, rest)[j - 1]);
            }
        }
    }
}

/// A run of a stream that has ended emitted its completion response just before the end,
/// and no completion response before that.
pub proof fn law_stream_run_completes_last(id: u32, polls: Seq<InnerPoll>, k: int)
    requires
        accepted(StreamOrFut::Stream { id }, polls),
        0 <= k < polls.len(),
        is_end(run(StreamOrFut::Stream { id }, polls)[k]),
    ensures
        k >= 1,
        k == polls.len() - 1,
        is_completion(run(StreamOrFut::Stream { id }, polls)[k - 1], id),
        forall|j: int| 0 <= j < k - 1 ==> !is_completion(#[trigger] run(StreamOrFut::Stream { id }, polls)[j], id),
    decreases polls.len(),
{
    let s = StreamOrFut::Stream { id };
    let (next, out) = s.step(polls[0]);
    let rest = polls.drop_first();
    assert(run(s, polls) == seq![out] + run(next, rest));
    lemma_run_len(next, rest);
    if next is Stream {
        assert(k > 0);
        assert(run(s, polls)[k] == run(next, rest)[k - 1]);
        law_stream_run_completes_last(id, rest, k - 1);
        assert(!is_completion(out, id));
        assert forall|j: int| 0 <= j < k - 1 implies !is_completion(#[trigger] run(s, polls)[j], id) by {
            if j > 0 {
                assert(run(s, polls)[j] == run(next, rest)[j - 1]);
            }
        }
        assert(run(s, polls)[k - 1] == run(next, rest)[k - 2]);
    } else {
        law_end_follows_completion(next, rest);
        assert(!is_end(out));
        assert(k == 1);
    }
}

/// Whether the `i`-th call of `poll_next` in a sequence of calls was given an accepted
/// poll and went from `states[i]` to `states[i + 1]` with outcome `outs[i]`, as its
/// `ensures` states.
pub open spec fn call_follows(states: Seq<StreamOrFut>, polls: Seq<InnerPoll>, outs: Seq<PollStep>, i: int) -> bool {
    states[i].accepts(polls[i]) && (states[i + 1], outs[i]) == states[i].step(polls[i])
}

/// Successive calls of `poll_next` make a run: where each call was given an accepted
/// poll and left the state that the next call starts from, the outcomes of the calls are
/// the run of the first state, and that run is accepted, so the laws on runs above hold
/// of the calls.
pub proof fn law_successive_polls_form_a_run(
    states: Seq<StreamOrFut>,
    polls: Seq<InnerPoll>,
    outs: Seq<PollStep>,
)
    requires
        states.len() == polls.len() + 1,
        outs.len() == polls.len(),
        forall|i: int| 0 <= i < polls.len() ==> #[trigger] call_follows(states, polls, outs, i),
    ensures
        accepted(states[0], polls),
        run(states[0], polls) == outs,
    decreases polls.len(),
{
    if polls.len() > 0 {
        assert(call_follows(states, polls, outs, 0));
        let (next, out) = states[0].step(polls[0]);
        let rest_states = states.drop_first();
        let rest_polls = polls.drop_first();
        let rest_outs = outs.drop_first();
        assert forall|i: int| 0 <= i < rest_polls.len() implies #[trigger] call_follows(
            rest_states,
            rest_polls,
            rest_outs,
            i,
        ) by {
            assert(call_follows(states, polls, outs, i + 1));
            assert(rest_states[i] == states[i + 1]);
            assert(rest_states[i + 1] == states[i + 2]);
            assert(rest_polls[i] == polls[i + 1]);
            assert(rest_outs[i] == outs[i + 1]);
        }
        law_successive_polls_form_a_run(rest_states, rest_polls, rest_outs);
        assert(rest_states[0] == next);
        assert(run(states[0], polls) == seq![out] + run(next, rest_polls));
        assert(outs =~= seq![outs[0]] + rest_outs);
    }
}

/// What each poll does: a stream's value or error becomes a response with the request's
/// identifier; the end of a stream becomes the completion response and wakes the task; a
/// future's response is passed on unchanged and wakes the task; a pending poll changes
/// nothing and emits nothing; after the last response, the next poll ends the responses.
pub proof fn law_poll_outcomes(id: u32, v: serde_json::Value, e: ResponseError, resp: Response)
    ensures
        (StreamOrFut::Stream { id }).step(InnerPoll::Stream(Poll::Ready(Some(Ok(v))))) == (
            StreamOrFut::Stream { id },
            PollStep { item: Poll::Ready(Some(Response { id, inner: ResponseInner::Value(v) })), wake: false },
        ),
        (StreamOrFut::Stream { id }).step(InnerPoll::Stream(Poll::Ready(Some(Err(e))))) == (
            StreamOrFut::Stream { id },
            PollStep { item: Poll::Ready(Some(Response { id, inner: ResponseInner::Error(e) })), wake: false },
        ),
        (StreamOrFut::Stream { id }).step(InnerPoll::Stream(Poll::Ready(None))) == (
            StreamOrFut::PendingDone { id },
            PollStep { item: Poll::Ready(Some(Response { id, inner: ResponseInner::Complete })), wake: true },
        ),
        (StreamOrFut::Stream { id }).step(InnerPoll::Stream(Poll::Pending)) == (
            StreamOrFut::Stream { id },
            PollStep { item: Poll::<Option<Response>>::Pending, wake: false },
        ),
        (StreamOrFut::Future { id }).step(InnerPoll::Future(Poll::Ready(resp))) == (
            StreamOrFut::PendingDone { id },
            PollStep { item: Poll::Ready(Some(resp)), wake: true },
        ),
        (StreamOrFut::Future { id }).step(InnerPoll::Future(Poll::Pending)) == (
            StreamOrFut::Future { id },
            PollStep { item: Poll::<Option<Response>>::Pending, wake: false },
        ),
        (StreamOrFut::PendingDone { id }).step(InnerPoll::NotPolled) == (
            StreamOrFut::Done { id },
            PollStep { item: Poll::<Option<Response>>::Ready(None), wake: false },
        ),
{
}

/// Which polls each state takes, and the identifier that each state answers for.
pub proof fn law_accepted_polls(id: u32, inner: InnerPoll)
    ensures
        (StreamOrFut::Stream { id }).accepts(inner) <==> inner is Stream,
        (StreamOrFut::Future { id }).accepts(inner) <==> inner is Future,
        (StreamOrFut::PendingDone { id }).accepts(inner) <==> inner is NotPolled,
        !(StreamOrFut::Done { id }).accepts(inner),
        (StreamOrFut::Stream { id }).spec_id() == id,
        (StreamOrFut::Future { id }).spec_id() == id,
        (StreamOrFut::PendingDone { id }).spec_id() == id,
        (StreamOrFut::Done { id }).spec_id() == id,
{
}

} // verus!
