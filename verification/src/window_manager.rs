//! The bookkeeping of a desktop-window transport: which windows have a live page, the
//! subscriptions that each of them holds, and how an incoming event payload turns into
//! the JSON of the request or batch of requests that it carries.
//!
//! A window is known by the hash of its label. The subscriptions of a window are held as
//! an opaque value `S` (shared with the tasks that serve them); shutting them down is the
//! caller's work, which the state machine here asks for. Deserializing the requests from
//! their JSON is the caller's work too: a batch is accepted only if every request in it is
//! valid.
use std::collections::HashMap;
use vstd::prelude::*;
use crate::json::{json_as_str, json_from_str, json_is_array, parse_json, value_as_str, value_is_array};

verus! {

broadcast use vstd::std_specs::hash::group_hash_axioms;

/// Why an event payload carries no requests.
#[derive(Debug)]
pub enum PayloadError {
    /// The event came without a payload.
    EmptyPayload,
    /// The payload, or the JSON string that it wraps, is not valid JSON.
    InvalidRequest(serde_json::Error),
}

/// The JSON that an event payload carries: one request, or (a JSON array) a batch of
/// requests, to be deserialized as such.
#[derive(Debug, PartialEq)]
pub enum PayloadRequests {
    Single(serde_json::Value),
    Batch(serde_json::Value),
}

/// A payload may be JSON, or a JSON string whose contents are JSON: unwrap that once.
pub open spec fn unwrap_json_string(v: serde_json::Value) -> Result<
    serde_json::Value,
    serde_json::Error,
> {
    match json_as_str(v) {
        Some(text) => json_from_str(text),
        None => Ok(v),
    }
}

/// A JSON array is a batch of requests; any other value is a single request.
pub open spec fn classify_requests(v: serde_json::Value) -> PayloadRequests {
    if json_is_array(v) {
        PayloadRequests::Batch(v)
    } else {
        PayloadRequests::Single(v)
    }
}

/// The requests that an event payload carries, or why it carries none.
pub open spec fn decoded_payload(payload: Option<Seq<char>>) -> Result<PayloadRequests, PayloadError> {
    match payload {
        None => Err(PayloadError::EmptyPayload),
        Some(text) => match json_from_str(text) {
            Err(e) => Err(PayloadError::InvalidRequest(e)),
            Ok(v) => match unwrap_json_string(v) {
                Err(e) => Err(PayloadError::InvalidRequest(e)),
                Ok(inner) => Ok(classify_requests(inner)),
            },
        },
    }
}

/// The characters of an optional payload.
pub open spec fn payload_text(payload: Option<&str>) -> Option<Seq<char>> {
    match payload {
        Some(text) => Some(text@),
        None => None,
    }
}

/// Turns the payload of a transport event into the JSON of the requests that it carries:
/// the payload is parsed as JSON; a JSON string is parsed once more (once only); an array
/// is a batch, any other value a single request.
pub fn decode_payload(payload: Option<&str>) -> (r: Result<PayloadRequests, PayloadError>)
    ensures
        r == decoded_payload(payload_text(payload)),
        payload matches Some(text) ==> r == decoded_payload(Some(text@)),
        payload is None ==> r == Err::<PayloadRequests, PayloadError>(PayloadError::EmptyPayload),
{
    let text = match payload {
        Some(text) => text,
        None => return Err(PayloadError::EmptyPayload),
    };
    let v = match parse_json(text) {
        Ok(v) => v,
        Err(e) => return Err(PayloadError::InvalidRequest(e)),
    };
    let inner = match value_as_str(&v) {
        Some(s) => match parse_json(s) {
            Ok(inner) => inner,
            Err(e) => return Err(PayloadError::InvalidRequest(e)),
        },
        None => v,
    };
    if value_is_array(&inner) {
        Ok(PayloadRequests::Batch(inner))
    } else {
        Ok(PayloadRequests::Single(inner))
    }
}

} // verus!

verus! {

/// What the transport does when a page has loaded in a window.
#[derive(Debug, Clone, Copy, PartialEq, Eq, Structural)]
pub enum PageLoadAction {
    /// The window had a page already: shut down every subscription that it holds,
    /// and keep its registration (it still listens for requests).
    ShutdownSubscriptions,
    /// The window is new: it has been registered with its fresh subscriptions, and
    /// the transport starts listening for its requests.
    StartListening,
}

/// The windows known after a page load in `window`, whose fresh subscriptions are `fresh`.
pub open spec fn after_page_load<S>(windows: Map<u64, S>, window: u64, fresh: S) -> Map<u64, S> {
    if windows.contains_key(window) {
        windows
    } else {
        windows.insert(window, fresh)
    }
}

/// What the transport does on a page load in `window`.
pub open spec fn page_load_action<S>(windows: Map<u64, S>, window: u64) -> PageLoadAction {
    if windows.contains_key(window) {
        PageLoadAction::ShutdownSubscriptions
    } else {
        PageLoadAction::StartListening
    }
}

/// The windows that have a live page, each with the subscriptions that it holds.
pub struct WindowManager<S> {
    windows: HashMap<u64, S>,
}

impl<S> View for WindowManager<S> {
    type V = Map<u64, S>;

    closed spec fn view(&self) -> Map<u64, S> {
        self.windows@
    }
}

impl<S> WindowManager<S> {
    /// A manager that knows no window.
    pub fn new() -> (m: Self)
        ensures
            m@ == Map::<u64, S>::empty(),
    {
        WindowManager { windows: HashMap::new() }
    }

    /// A page has loaded in the window whose label hashes to `window`. A window seen
    /// before keeps its subscriptions, which the caller shuts down; a new window is
    /// registered with `fresh`.
    pub fn on_page_load(&mut self, window: u64, fresh: S) -> (a: PageLoadAction)
        ensures
            a == page_load_action(old(self)@, window),
            final(self)@ == after_page_load(old(self)@, window, fresh),
            old(self)@.contains_key(window) ==> a == PageLoadAction::ShutdownSubscriptions
                && final(self)@ == old(self)@,
            !old(self)@.contains_key(window) ==> a == PageLoadAction::StartListening
                && final(self)@ == old(self)@.insert(window, fresh),
    {
        if self.windows.contains_key(&window) {
            PageLoadAction::ShutdownSubscriptions
        } else {
            self.windows.insert(window, fresh);
            PageLoadAction::StartListening
        }
    }

    /// The subscriptions of the window whose label hashes to `window`, if it is known.
    pub fn subscriptions(&self, window: u64) -> (r: Option<&S>)
        ensures
            match r {
                Some(s) => self@.contains_key(window) && *s == self@[window],
                None => !self@.contains_key(window),
            },
    {
        self.windows.get(&window)
    }

    /// The window whose label hashes to `window` asks to close: it is forgotten, and its
    /// subscriptions, if it was known, are handed back for the caller to shut down.
    pub fn close_requested(&mut self, window: u64) -> (r: Option<S>)
        ensures
            final(self)@ == old(self)@.remove(window),
            match r {
                Some(s) => old(self)@.contains_key(window) && s == old(self)@[window],
                None => !old(self)@.contains_key(window),
            },
    {
        self.windows.remove(&window)
    }
}

/// A window keeps the subscriptions of its first page load: reloading asks for their
/// shutdown and changes nothing in the registry.
pub proof fn law_reload_keeps_registration<S>(windows: Map<u64, S>, window: u64, first: S, second: S)
    ensures
        ({
            let loaded = after_page_load(windows, window, first);
            &&& loaded.contains_key(window)
            &&& page_load_action(loaded, window) == PageLoadAction::ShutdownSubscriptions
            &&& after_page_load(loaded, window, second) == loaded
        }),
{
}

/// A window that loads a page and then closes hands back the subscriptions it was
/// registered with and is forgotten; the registry is as before, without it.
pub proof fn law_close_after_load<S>(windows: Map<u64, S>, window: u64, fresh: S)
    ensures
        ({
            let loaded = after_page_load(windows, window, fresh);
            &&& loaded[window] == (if windows.contains_key(window) { windows[window] } else { fresh })
            &&& loaded.remove(window) == windows.remove(window)
        }),
{
    let loaded = after_page_load(windows, window, fresh);
    assert(loaded.remove(window) =~= windows.remove(window));
}

/// A page load or a close in one window leaves every other window as it was.
pub proof fn law_windows_independent<S>(windows: Map<u64, S>, window: u64, other: u64, fresh: S)
    requires
        window != other,
    ensures
        after_page_load(windows, window, fresh).contains_key(other) == windows.contains_key(other),
        after_page_load(windows, window, fresh)[other] == windows[other],
        windows.remove(window).contains_key(other) == windows.contains_key(other),
        windows.remove(window)[other] == windows[other],
{
}

/// A payload that wraps its JSON in a JSON string is handled as the wrapped JSON, where
/// that is not itself a string: the same request or batch.
pub proof fn law_string_payload_unwrapped_once(outer: Seq<char>, inner: Seq<char>)
    requires
        json_from_str(outer) matches Ok(v) && json_as_str(v) == Some(inner),
        json_from_str(inner) matches Ok(w) && json_as_str(w) is None,
    ensures
        decoded_payload(Some(outer)) == decoded_payload(Some(inner)),
{
}

/// A string wrapped twice is unwrapped once only: what the payload carries is the JSON
/// string that was wrapped inside, which is not a valid request.
pub proof fn law_twice_wrapped_unwrapped_once(outer: Seq<char>, middle: Seq<char>)
    requires
        json_from_str(outer) matches Ok(v) && json_as_str(v) == Some(middle),
        json_from_str(middle) matches Ok(w) && json_as_str(w) is Some,
    ensures
        decoded_payload(Some(outer)) == Ok::<PayloadRequests, PayloadError>(
            classify_requests(json_from_str(middle)->Ok_0),
        ),
        json_as_str(json_from_str(middle)->Ok_0) is Some,
{
}

/// A payload is a batch exactly when its JSON is an array; anything else is one request.
pub proof fn law_single_or_batch(text: Seq<char>)
    requires
        json_from_str(text) matches Ok(v) && json_as_str(v) is None,
    ensures
        json_is_array(json_from_str(text)->Ok_0) ==> decoded_payload(Some(text)) == Ok::<PayloadRequests, PayloadError>(
            PayloadRequests::Batch(json_from_str(text)->Ok_0),
        ),
        !json_is_array(json_from_str(text)->Ok_0) ==> decoded_payload(Some(text)) == Ok::<PayloadRequests, PayloadError>(
            PayloadRequests::Single(json_from_str(text)->Ok_0),
        ),
{
}

/// A page load in a window not yet known registers it with its fresh subscriptions and
/// starts listening for its requests, whatever other windows are known; a page load in a
/// known window shuts its subscriptions down and changes nothing.
pub proof fn law_page_load_outcome<S>(windows: Map<u64, S>, window: u64, fresh: S)
    ensures
        !windows.contains_key(window) ==> page_load_action(windows, window) == PageLoadAction::StartListening,
        !windows.contains_key(window) ==> after_page_load(windows, window, fresh) == windows.insert(window, fresh),
        windows.contains_key(window) ==> page_load_action(windows, window) == PageLoadAction::ShutdownSubscriptions,
        windows.contains_key(window) ==> after_page_load(windows, window, fresh) == windows,
{
}

/// The whole text of a payload is decoded: a payload's text is all of its characters, and
/// an event without a payload is refused as empty.
pub proof fn law_whole_payload_decoded(text: &str)
    ensures
        payload_text(Some(text)) == Some(text@),
        payload_text(None) is None,
        decoded_payload(None) == Err::<PayloadRequests, PayloadError>(PayloadError::EmptyPayload),
{
}

/// A payload that is not JSON, or that wraps in a JSON string what is not JSON, is refused
/// with serde's own error; JSON that is not a string is one request or, as an array, a
/// batch, as it is.
pub proof fn law_payload_outcomes(text: Seq<char>)
    ensures
        match json_from_str(text) {
            Err(e) => decoded_payload(Some(text)) == Err::<PayloadRequests, PayloadError>(
                PayloadError::InvalidRequest(e),
            ),
            Ok(v) => match json_as_str(v) {
                None => decoded_payload(Some(text)) == Ok::<PayloadRequests, PayloadError>(
                    if json_is_array(v) {
                        PayloadRequests::Batch(v)
                    } else {
                        PayloadRequests::Single(v)
                    },
                ),
                Some(inner) => match json_from_str(inner) {
                    Err(e) => decoded_payload(Some(text)) == Err::<PayloadRequests, PayloadError>(
                        PayloadError::InvalidRequest(e),
                    ),
                    Ok(w) => decoded_payload(Some(text)) == Ok::<PayloadRequests, PayloadError>(
                        if json_is_array(w) {
                            PayloadRequests::Batch(w)
                        } else {
                            PayloadRequests::Single(w)
                        },
                    ),
                },
            },
        },
{
}

} // verus!
