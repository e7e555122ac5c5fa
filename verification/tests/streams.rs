use rspc::exec::stream::{Once, Poll, RspcStream};
use rspc::exec::stream_or_fut::{InnerPoll, StreamOrFut};
use rspc::exec::types::{Response, ResponseError, ResponseInner};
use rspc::layer::{erase_call, ErasedBody};
use serde_json::Value;

#[test]
fn once_yields_its_output_once() {
    let mut once = Once::new("fut");
    assert_eq!(once.size_hint(), (1, Some(1)));
    assert!(!once.is_terminated());
    assert_eq!(once.future_mut().map(|f| *f), Some("fut"));
    assert_eq!(once.poll_next::<u32>(Some(Poll::Pending)), Poll::Pending);
    assert_eq!(once.size_hint(), (1, Some(1)));
    assert_eq!(once.poll_next(Some(Poll::Ready(5u32))), Poll::Ready(Some(5)));
    assert!(once.is_terminated());
    assert_eq!(once.size_hint(), (0, Some(0)));
    assert!(once.future_mut().is_none());
    assert_eq!(once.poll_next::<u32>(None), Poll::Ready(None));
    assert_eq!(once.poll_next::<u32>(None), Poll::Ready(None));
}

fn err(code: i32) -> ResponseError {
    ResponseError { code, message: "boom".into(), data: None }
}

#[test]
fn stream_answer_forwards_items_then_completes() {
    let mut s = StreamOrFut::Stream { id: 4 };
    assert_eq!(s.id(), 4);
    assert_eq!(s.size_hint((2, Some(3))), (2, Some(3)));

    let step = s.poll_next(InnerPoll::Stream(Poll::Pending));
    assert_eq!(step.item, Poll::Pending);
    assert!(!step.wake);
    assert_eq!(s, StreamOrFut::Stream { id: 4 });

    let step = s.poll_next(InnerPoll::Stream(Poll::Ready(Some(Ok(Value::from(1))))));
    assert_eq!(step.item, Poll::Ready(Some(Response { id: 4, inner: ResponseInner::Value(Value::from(1)) })));
    assert!(!step.wake);

    let step = s.poll_next(InnerPoll::Stream(Poll::Ready(Some(Err(err(500))))));
    assert_eq!(step.item, Poll::Ready(Some(Response { id: 4, inner: ResponseInner::Error(err(500)) })));

    let step = s.poll_next(InnerPoll::Stream(Poll::Ready(None)));
    assert_eq!(step.item, Poll::Ready(Some(Response { id: 4, inner: ResponseInner::Complete })));
    assert!(step.wake);
    assert_eq!(s, StreamOrFut::PendingDone { id: 4 });
    assert_eq!(s.size_hint((9, None)), (0, Some(0)));

    let step = s.poll_next(InnerPoll::NotPolled);
    assert_eq!(step.item, Poll::Ready(None));
    assert!(!step.wake);
    assert_eq!(s, StreamOrFut::Done { id: 4 });
    assert_eq!(s.id(), 4);
}

#[test]
fn future_answer_passes_its_response_once() {
    let mut s = StreamOrFut::Future { id: 2 };
    assert_eq!(s.size_hint((9, None)), (0, Some(1)));
    let step = s.poll_next(InnerPoll::Future(Poll::Pending));
    assert_eq!(step.item, Poll::Pending);
    let resp = Response { id: 2, inner: ResponseInner::Value(Value::from("hi")) };
    let step = s.poll_next(InnerPoll::Future(Poll::Ready(Response { id: 2, inner: ResponseInner::Value(Value::from("hi")) })));
    assert_eq!(step.item, Poll::Ready(Some(resp)));
    assert!(step.wake);
    assert_eq!(s, StreamOrFut::PendingDone { id: 2 });
    assert_eq!(s.poll_next(InnerPoll::NotPolled).item, Poll::Ready(None));
    assert_eq!(s, StreamOrFut::Done { id: 2 });
}

#[test]
fn failed_layer_call_yields_its_error_once() {
    match erase_call::<&str, u8, i32>(Err(7)) {
        ErasedBody::Failed(mut once) => {
            assert_eq!(once.size_hint(), (1, Some(1)));
            assert_eq!(once.poll_ready(), Poll::Ready(Some(Err(7))));
            assert_eq!(once.poll_ready(), Poll::Ready(None));
            assert!(once.is_terminated());
        }
        ErasedBody::Body(_) => panic!("expected a failed body"),
    }
    match erase_call::<&str, u8, i32>(Ok("body")) {
        ErasedBody::Body(b) => assert_eq!(b, "body"),
        ErasedBody::Failed(_) => panic!("expected the layer's body"),
    }
}
