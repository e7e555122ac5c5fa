//! A poll result and a stream that emits a single element and then ends.
use vstd::prelude::*;

verus! {

/// The outcome of polling: ready with a value, or not yet.
#[derive(Debug, PartialEq, Eq)]
pub enum Poll<T> {
    Ready(T),
    Pending,
}

} // verus!

verus! {

/// The size bounds of a body of responses. Polling a body is the caller's work (see
/// `Once`); the bounds on the number of items still to come are known to the body.
pub trait RspcStream {
    /// Bounds on the number of items still to come: by default, nothing is known.
    fn size_hint(&self) -> (r: (usize, Option<usize>))
        default_ensures
            r == (0usize, None::<usize>),
    {
        (0, None)
    }
}

/// A stream that emits the output of a single future and then ends.
///
/// The stream holds the future until it has completed. Polling the future is the
/// caller's work: it polls what `future_mut` hands out and gives the outcome to
/// `poll_next`.
#[derive(Debug)]
pub struct Once<F> {
    future: Option<F>,
}

impl<F> View for Once<F> {
    type V = Option<F>;

    /// The future that is still to complete, if any.
    closed spec fn view(&self) -> Option<F> {
        self.future
    }
}

/// The future left and the outcome after one poll of a once-stream that held `future`,
/// given what polling the future gave.
pub open spec fn once_step<F, V>(future: Option<F>, polled: Option<Poll<V>>) -> (Option<F>, Poll<Option<V>>) {
    match polled {
        None => (future, Poll::Ready(None)),
        Some(Poll::Pending) => (future, Poll::Pending),
        Some(Poll::Ready(v)) => (None, Poll::Ready(Some(v))),
    }
}

/// The output left and the outcome after one poll of a once-stream whose future is
/// complete already, holding its output `value` (as `std::future::ready` does).
pub open spec fn once_ready_step<T>(value: Option<T>) -> (Option<T>, Poll<Option<T>>) {
    match value {
        Some(v) => (None, Poll::Ready(Some(v))),
        None => (None, Poll::Ready(None)),
    }
}

/// The bounds on the number of elements still to come from a once-stream that holds
/// `future`.
pub open spec fn once_size_hint<F>(future: Option<F>) -> (usize, Option<usize>) {
    if future is Some {
        (1usize, Some(1usize))
    } else {
        (0usize, Some(0usize))
    }
}

impl<F> Once<F> {
    /// A stream that will emit the output of `future`.
    pub fn new(future: F) -> (s: Self)
        ensures
            s@ == Some(future),
    {
        Once { future: Some(future) }
    }

    /// Whether the stream has emitted its element and ended.
    pub fn is_terminated(&self) -> (r: bool)
        ensures
            r == (self@ is None),
    {
        self.future.is_none()
    }

    /// The future that is still to complete, for the caller to poll.
    pub fn future_mut(&mut self) -> (r: Option<&mut F>)
        ensures
            match old(self)@ {
                None => final(self)@ is None && r is None,
                Some(f) => r is Some && *r->0 == f && final(self)@ == Some(*final(r->0)),
            },
    {
        self.future.as_mut()
    }

    /// One poll of a once-stream whose future is complete already and holds its output:
    /// the output is yielded at the first poll, and the stream has ended after it.
    pub fn poll_ready(&mut self) -> (r: Poll<Option<F>>)
        ensures
            (final(self)@, r) == once_ready_step(old(self)@),
    {
        match self.future.take() {
            Some(v) => Poll::Ready(Some(v)),
            None => Poll::Ready(None),
        }
    }

    /// One poll of the stream, given what polling its future gave (`None` when the stream
    /// had no future left to poll). A completed future yields its output, once; after
    /// that the stream has ended.
    pub fn poll_next<V>(&mut self, polled: Option<Poll<V>>) -> (r: Poll<Option<V>>)
        requires
            (old(self)@ is Some) == (polled is Some),
        ensures
            (final(self)@, r) == once_step(old(self)@, polled),
    {
        match polled {
            None => Poll::Ready(None),
            Some(Poll::Pending) => Poll::Pending,
            Some(Poll::Ready(v)) => {
                self.future = None;
                Poll::Ready(Some(v))
            },
        }
    }
}

impl<F> RspcStream for Once<F> {
    /// Bounds on the number of elements still to come: exactly one while the future
    /// is pending, none once it has completed.
    fn size_hint(&self) -> (r: (usize, Option<usize>))
        ensures
            r == once_size_hint(self@),
    {
        if self.future.is_some() {
            (1, Some(1))
        } else {
            (0, Some(0))
        }
    }
}

/// Whether a poll of a stream yielded an element.
pub open spec fn yields_element<V>(p: Poll<Option<V>>) -> bool {
    p matches Poll::Ready(Some(_))
}

/// What a once-stream that holds `future` yields over successive polls, where
/// `outcomes[i]` is what its future gives at the `i`-th poll (while it still has one).
pub open spec fn once_run<F, V>(future: Option<F>, outcomes: Seq<Poll<V>>) -> Seq<Poll<Option<V>>>
    decreases outcomes.len(),
{
    if outcomes.len() == 0 {
        Seq::empty()
    } else {
        let polled = if future is Some { Some(outcomes[0]) } else { None };
        let (next, out) = once_step(future, polled);
        seq![out] + once_run(next, outcomes.drop_first())
    }
}

/// A run has one outcome per poll.
proof fn lemma_once_run_len<F, V>(future: Option<F>, outcomes: Seq<Poll<V>>)
    ensures
        once_run(future, outcomes).len() == outcomes.len(),
    decreases outcomes.len(),
{
    if outcomes.len() > 0 {
        let polled = if future is Some { Some(outcomes[0]) } else { None };
        lemma_once_run_len(once_step(future, polled).0, outcomes.drop_first());
    }
}

/// A once-stream that has ended stays ended: every later poll yields the end.
pub proof fn law_once_ended_stays_ended<F, V>(outcomes: Seq<Poll<V>>)
    ensures
        forall|i: int|
            0 <= i < outcomes.len() ==> #[trigger] once_run(None::<F>, outcomes)[i] == Poll::<
                Option<V>,
            >::Ready(None),
    decreases outcomes.len(),
{
    if outcomes.len() > 0 {
        let rest = outcomes.drop_first();
        law_once_ended_stays_ended::<F, V>(rest);
        lemma_once_run_len(None::<F>, rest);
        assert forall|i: int| 0 < i < outcomes.len() implies #[trigger] once_run(None::<F>, outcomes)[i]
            == once_run(None::<F>, rest)[i - 1] by {}
    }
}

/// A once-stream yields at most one element: after it, every poll yields the end.
pub proof fn law_once_yields_at_most_once<F, V>(future: Option<F>, outcomes: Seq<Poll<V>>)
    ensures
        forall|i: int, j: int|
            0 <= i < j < outcomes.len() && yields_element(#[trigger] once_run(future, outcomes)[i])
                ==> #[trigger] once_run(future, outcomes)[j] == Poll::<Option<V>>::Ready(None),
    decreases outcomes.len(),
{
    if outcomes.len() > 0 {
        let polled = if future is Some { Some(outcomes[0]) } else { None };
        let (next, out) = once_step(future, polled);
        let rest = outcomes.drop_first();
        lemma_once_run_len(next, rest);
        law_once_yields_at_most_once(next, rest);
        if out is Ready && out->Ready_0 is Some {
            law_once_ended_stays_ended::<F, V>(rest);
        }
        assert forall|i: int, j: int|
            0 <= i < j < outcomes.len() && yields_element(#[trigger] once_run(future, outcomes)[i])
                implies #[trigger] once_run(future, outcomes)[j] == Poll::<Option<V>>::Ready(None) by {
            assert(once_run(future, outcomes)[j] == once_run(next, rest)[j - 1]);
            if i > 0 {
                assert(once_run(future, outcomes)[i] == once_run(next, rest)[i - 1]);
            }
        }
    }
}

/// A once-stream whose future completes with `v` at the `k`-th poll, after pending
/// until then, yields `v` at that poll.
pub proof fn law_once_yields_output<F, V>(future: F, outcomes: Seq<Poll<V>>, k: int)
    requires
        0 <= k < outcomes.len(),
        outcomes[k] is Ready,
        forall|i: int| 0 <= i < k ==> #[trigger] outcomes[i] is Pending,
    ensures
        once_run(Some(future), outcomes)[k] == Poll::Ready(Some(outcomes[k]->Ready_0)),
    decreases k,
{
    let rest = outcomes.drop_first();
    if k > 0 {
        assert(outcomes[0] is Pending);
        assert forall|i: int| 0 <= i < k - 1 implies #[trigger] rest[i] is Pending by {
            assert(rest[i] == outcomes[i + 1]);
        }
        law_once_yields_output(future, rest, k - 1);
        lemma_once_run_len(Some(future), rest);
        assert(once_run(Some(future), outcomes) == seq![Poll::<Option<V>>::Pending] + once_run(Some(future), rest));
    }
}

/// The size hint counts what is still to come: one element while the future is held,
/// none once it has been yielded.
pub proof fn law_once_size_hint<F, V>(future: F, v: V)
    ensures
        once_size_hint(Some(future)) == (1usize, Some(1usize)),
        once_size_hint(once_step(Some(future), Some(Poll::Ready(v))).0) == (0usize, Some(0usize)),
{
}

/// What each poll of a once-stream does: with its future pending it stays as it was and
/// yields nothing; when the future completes with `v` it yields `v` and gives up the
/// future; without a future it yields the end. A stream whose output is ready yields it
/// at once and then the end.
pub proof fn law_once_poll_outcomes<F, V>(future: F, v: V, out: F)
    ensures
        once_step(Some(future), Some(Poll::<V>::Pending)) == (Some(future), Poll::<Option<V>>::Pending),
        once_step(Some(future), Some(Poll::Ready(v))) == (None::<F>, Poll::Ready(Some(v))),
        once_step(None::<F>, None::<Poll<V>>) == (None::<F>, Poll::<Option<V>>::Ready(None)),
        once_ready_step(Some(out)) == (None::<F>, Poll::Ready(Some(out))),
        once_ready_step(None::<F>) == (None::<F>, Poll::<Option<F>>::Ready(None)),
        once_size_hint(None::<F>) == (0usize, Some(0usize)),
{
}

} // verus!
