use rotor_server::framing::frame_header;
use rotor_server::gateway::{GatewaySession, SessionAction, SessionError};

fn expect_read_payload(a: SessionAction) -> usize {
    match a {
        SessionAction::ReadPayload(n) => n,
        _ => panic!("expected a payload read"),
    }
}

#[test]
fn single_message_batches_are_sent_at_once() {
    let mut s = GatewaySession::new(1);
    assert!(matches!(s.start(), SessionAction::ReadHeader));
    let payload = b"{\"x\":1}".to_vec();
    let n = expect_read_payload(s.on_header(Some(frame_header(payload.len()))));
    assert_eq!(n, payload.len());
    match s.on_payload(Some(payload)) {
        SessionAction::Send(batch) => assert_eq!(batch, vec!["{\"x\":1}".to_string()]),
        _ => panic!("expected a batch"),
    }
}

#[test]
fn batches_keep_arrival_order() {
    let mut s = GatewaySession::new(2);
    let n = expect_read_payload(s.on_header(Some([0, 0, 0, 1])));
    assert_eq!(n, 1);
    assert!(matches!(s.on_payload(Some(b"a".to_vec())), SessionAction::ReadHeader));
    let n = expect_read_payload(s.on_header(Some([0, 0, 0, 2])));
    assert_eq!(n, 2);
    match s.on_payload(Some(b"bc".to_vec())) {
        SessionAction::Send(batch) => assert_eq!(batch, vec!["a".to_string(), "bc".to_string()]),
        _ => panic!("expected a batch"),
    }
    expect_read_payload(s.on_header(Some([0, 0, 0, 1])));
    assert!(matches!(s.on_payload(Some(b"d".to_vec())), SessionAction::ReadHeader));
}

#[test]
fn missing_header_closes() {
    let mut s = GatewaySession::new(1);
    assert!(matches!(s.on_header(None), SessionAction::Close));
}

#[test]
fn missing_payload_fails() {
    let mut s = GatewaySession::new(1);
    expect_read_payload(s.on_header(Some([0, 0, 0, 4])));
    assert!(matches!(
        s.on_payload(None),
        SessionAction::Fail(SessionError::PayloadUnreadable)
    ));
}

#[test]
fn invalid_utf8_fails() {
    let mut s = GatewaySession::new(1);
    expect_read_payload(s.on_header(Some([0, 0, 0, 2])));
    assert!(matches!(
        s.on_payload(Some(vec![0xc3, 0x28])),
        SessionAction::Fail(SessionError::InvalidUtf8)
    ));
}

#[test]
fn empty_payload_is_a_message() {
    let mut s = GatewaySession::new(1);
    assert_eq!(expect_read_payload(s.on_header(Some([0, 0, 0, 0]))), 0);
    match s.on_payload(Some(Vec::new())) {
        SessionAction::Send(batch) => assert_eq!(batch, vec![String::new()]),
        _ => panic!("expected a batch"),
    }
}

#[test]
fn multibyte_text_is_kept() {
    let mut s = GatewaySession::new(1);
    let text = "höhe: 12 m";
    expect_read_payload(s.on_header(Some(frame_header(text.len()))));
    match s.on_payload(Some(text.as_bytes().to_vec())) {
        SessionAction::Send(batch) => assert_eq!(batch, vec![text.to_string()]),
        _ => panic!("expected a batch"),
    }
}
