use rotor_server::setup::{Setup, SetupAction, STREAM_NOT_FOUND, TOPIC_NOT_FOUND};

#[test]
fn fresh_broker_creates_both() {
    let mut s = Setup::new();
    assert_eq!(s.start(), SetupAction::CreateStream);
    assert_eq!(s.on_created(Some(1)), SetupAction::CreateTopic);
    assert_eq!(s.on_created(Some(7)), SetupAction::Done { stream_id: 1, topic_id: 7 });
}

#[test]
fn existing_stream_and_topic_are_reused() {
    let mut s = Setup::new();
    assert_eq!(s.on_created(None), SetupAction::GetStream);
    assert_eq!(s.on_fetched(Ok(Some(4))), SetupAction::CreateTopic);
    assert_eq!(s.on_created(None), SetupAction::GetTopic);
    assert_eq!(s.on_fetched(Ok(Some(9))), SetupAction::Done { stream_id: 4, topic_id: 9 });
}

#[test]
fn missing_stream_fails() {
    let mut s = Setup::new();
    s.on_created(None);
    assert_eq!(s.on_fetched(Ok(None)), SetupAction::Fail(STREAM_NOT_FOUND));
    assert_eq!(STREAM_NOT_FOUND, "stream not found after create-already-exists");
}

#[test]
fn missing_topic_fails() {
    let mut s = Setup::new();
    s.on_created(Some(2));
    s.on_created(None);
    assert_eq!(s.on_fetched(Ok(None)), SetupAction::Fail(TOPIC_NOT_FOUND));
    assert_eq!(TOPIC_NOT_FOUND, "topic not found after create-already-exists");
}

#[test]
fn failed_fetch_aborts() {
    let mut s = Setup::new();
    s.on_created(None);
    assert_eq!(s.on_fetched(Err(())), SetupAction::Abort);
}
