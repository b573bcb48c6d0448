use screen_mirror::frame::Frame;
use screen_mirror::stager::{acquire_from, Acquisition, Poll, Stager, StagerAction, BACKOFF_MILLIS};

fn frame() -> Frame {
    Frame::filled(1, 1, (1, 2, 3, 4)).unwrap()
}

#[test]
fn stager_retries_on_pending() {
    let mut s = Stager::new();
    assert_eq!(s.on_poll(Poll::Pending), StagerAction::Retry(BACKOFF_MILLIS));
    assert_eq!(s.on_poll(Poll::Pending), StagerAction::Retry(10));
    assert_eq!(s.retries(), 2);
}

#[test]
fn stager_delivers_frame() {
    let mut s = Stager::new();
    assert_eq!(s.on_poll(Poll::Ready(frame())), StagerAction::Deliver(frame()));
    assert_eq!(s.retries(), 0);
}

#[test]
fn stager_fails_on_hard_error() {
    let mut s = Stager::new();
    s.on_poll(Poll::Pending);
    assert_eq!(s.on_poll(Poll::Failed), StagerAction::Fail);
    assert_eq!(s.retries(), 1);
}

#[test]
fn acquire_counts_retries_before_frame() {
    let polls = vec![Poll::Pending, Poll::Pending, Poll::Pending, Poll::Ready(frame())];
    assert_eq!(acquire_from(polls), Acquisition::Acquired(frame(), 3));
}

#[test]
fn acquire_first_poll_succeeds() {
    assert_eq!(acquire_from(vec![Poll::Ready(frame()), Poll::Failed]), Acquisition::Acquired(frame(), 0));
}

#[test]
fn acquire_propagates_hard_error() {
    let polls = vec![Poll::Pending, Poll::Failed, Poll::Ready(frame())];
    assert_eq!(acquire_from(polls), Acquisition::Failed(1));
}

#[test]
fn acquire_without_frame_is_exhausted() {
    assert_eq!(acquire_from(vec![Poll::Pending, Poll::Pending]), Acquisition::Exhausted(2));
    assert_eq!(acquire_from(Vec::new()), Acquisition::Exhausted(0));
}
