use rotor_server::polling::{OnPollError, PollCursor, PollDecision};

#[test]
fn cursor_starts_at_zero() {
    let c = PollCursor::new(10, OnPollError::Retry);
    assert_eq!(c.offset(), 0);
    assert_eq!(c.messages_per_batch(), 10);
}

#[test]
fn batches_advance_the_offset() {
    let mut c = PollCursor::new(10, OnPollError::Stop);
    assert_eq!(c.on_polled(Some(3)), PollDecision::Handle { first_offset: 0, count: 3 });
    assert_eq!(c.offset(), 3);
    assert_eq!(c.on_polled(Some(10)), PollDecision::Handle { first_offset: 3, count: 10 });
    assert_eq!(c.offset(), 13);
}

#[test]
fn empty_poll_waits() {
    let mut c = PollCursor::new(10, OnPollError::Stop);
    assert_eq!(c.on_polled(Some(0)), PollDecision::Wait);
    assert_eq!(c.offset(), 0);
}

#[test]
fn failed_poll_follows_policy() {
    let mut retry = PollCursor::new(10, OnPollError::Retry);
    retry.on_polled(Some(2));
    assert_eq!(retry.on_polled(None), PollDecision::Wait);
    assert_eq!(retry.offset(), 2);
    let mut stop = PollCursor::new(10, OnPollError::Stop);
    assert_eq!(stop.on_polled(None), PollDecision::Stop);
    assert_eq!(stop.offset(), 0);
}
