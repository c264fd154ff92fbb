use bytes::Bytes;
use jetstream_ack::{
    new, with_domain, with_prefix, AckError, AckKind, DoubleAck, Envelope, Event, Message,
    Request, Stage,
};

fn message(reply: Option<&str>) -> Message<u32> {
    Message {
        message: Envelope {
            subject: "events".to_string(),
            reply: reply.map(|r| r.to_string()),
            payload: Bytes::from_static(b"data"),
        },
        context: new(7u32),
    }
}

fn expect_publish(r: Result<Request, AckError>, subject: &str, payload: &[u8]) {
    match r {
        Ok(Request::Publish { subject: s, payload: p }) => {
            assert_eq!(s, subject);
            assert_eq!(p.as_ref(), payload);
        }
        _ => panic!("expected a single publish"),
    }
}

#[test]
fn encode_gives_exact_tokens() {
    assert_eq!(AckKind::Ack.encode(), b"+ACK".to_vec());
    assert_eq!(AckKind::Nak.encode(), b"-NAK".to_vec());
    assert_eq!(AckKind::Progress.encode(), b"+WPI".to_vec());
    assert_eq!(AckKind::Next.encode(), b"+NXT".to_vec());
    assert_eq!(AckKind::Term.encode(), b"+TERM".to_vec());
}

#[test]
fn tokens_are_distinct() {
    let kinds = [AckKind::Ack, AckKind::Nak, AckKind::Progress, AckKind::Next, AckKind::Term];
    for (i, a) in kinds.iter().enumerate() {
        for (j, b) in kinds.iter().enumerate() {
            assert_eq!(i == j, a.encode() == b.encode());
        }
    }
}

#[test]
fn to_bytes_holds_the_token() {
    assert_eq!(AckKind::Term.to_bytes().as_ref(), b"+TERM");
    assert_eq!(AckKind::Progress.to_bytes().as_ref(), b"+WPI");
    assert_eq!(AckKind::Ack.to_bytes(), Bytes::from_static(b"+ACK"));
}

#[test]
fn nak_scenario_publishes_once_to_reply() {
    let m = message(Some("_INBOX.abc"));
    expect_publish(m.ack_with(AckKind::Nak), "_INBOX.abc", b"-NAK");
}

#[test]
fn ack_without_reply_is_not_acknowledgeable() {
    let m = message(None);
    assert!(matches!(m.ack(), Err(AckError::NotAcknowledgeable)));
}

#[test]
fn every_operation_without_reply_fails_before_any_call() {
    let m = message(None);
    for kind in [AckKind::Ack, AckKind::Nak, AckKind::Progress, AckKind::Next, AckKind::Term] {
        assert!(matches!(m.ack_with(kind), Err(AckError::NotAcknowledgeable)));
    }
    assert!(matches!(m.double_ack(), Err(AckError::NotAcknowledgeable)));
}

#[test]
fn ack_publishes_ack_token() {
    let m = message(Some("$JS.ACK.events.c.1.2.3"));
    expect_publish(m.ack(), "$JS.ACK.events.c.1.2.3", b"+ACK");
}

#[test]
fn ack_with_term_publishes_term_token() {
    let m = message(Some("reply.subject"));
    expect_publish(m.ack_with(AckKind::Term), "reply.subject", b"+TERM");
    expect_publish(m.ack_with(AckKind::Progress), "reply.subject", b"+WPI");
    expect_publish(m.ack_with(AckKind::Next), "reply.subject", b"+NXT");
}

fn run_to_awaiting(d: &mut DoubleAck, inbox: &str) {
    assert!(matches!(d.request(), Some(Request::NewInbox)));
    d.on_event(Event::Inbox(inbox.to_string()));
    match d.request() {
        Some(Request::Subscribe { subject }) => assert_eq!(subject, inbox),
        _ => panic!("expected the inbox subscription first"),
    }
    d.on_event(Event::Done);
    match d.request() {
        Some(Request::PublishWithReply { subject, reply, payload }) => {
            assert_eq!(subject, "R");
            assert_eq!(reply, inbox);
            assert_eq!(payload.as_ref(), b"+ACK");
        }
        _ => panic!("expected the acknowledgment publish"),
    }
    d.on_event(Event::Done);
    assert!(matches!(d.request(), Some(Request::NextMessage)));
    assert_eq!(d.outcome(), None);
}

#[test]
fn double_ack_confirmed_by_any_reply() {
    let mut d = message(Some("R")).double_ack().unwrap();
    run_to_awaiting(&mut d, "_INBOX.x1");
    d.on_event(Event::Received);
    assert_eq!(d.outcome(), Some(Ok(())));
    assert!(d.request().is_none());
}

#[test]
fn double_ack_closed_subscription_is_confirmation_lost() {
    let mut d = message(Some("R")).double_ack().unwrap();
    run_to_awaiting(&mut d, "_INBOX.x2");
    d.on_event(Event::Closed);
    assert_eq!(d.outcome(), Some(Err(AckError::ConfirmationLost)));
    assert!(d.request().is_none());
}

#[test]
fn double_ack_transport_failure_ends_handshake() {
    let mut d = message(Some("R")).double_ack().unwrap();
    d.on_event(Event::Inbox("_INBOX.x3".to_string()));
    d.on_event(Event::TransportFailed);
    assert_eq!(d.outcome(), Some(Err(AckError::Transport)));
    d.on_event(Event::Received);
    assert_eq!(d.outcome(), Some(Err(AckError::Transport)));
}

#[test]
fn double_ack_ignores_signals_out_of_turn() {
    let mut d = message(Some("R")).double_ack().unwrap();
    d.on_event(Event::Received);
    d.on_event(Event::Done);
    assert!(matches!(d.stage, Stage::NeedInbox));
    d.on_event(Event::Inbox("_INBOX.x4".to_string()));
    d.on_event(Event::Inbox("_INBOX.other".to_string()));
    match &d.stage {
        Stage::Subscribing(i) => assert_eq!(i, "_INBOX.x4"),
        _ => panic!("expected the first inbox to be kept"),
    }
}

#[test]
fn handshakes_sharing_a_context_use_their_own_inboxes() {
    let a = message(Some("R"));
    let b = message(Some("R"));
    let mut da = a.double_ack().unwrap();
    let mut db = b.double_ack().unwrap();
    run_to_awaiting(&mut da, "_INBOX.a");
    run_to_awaiting(&mut db, "_INBOX.b");
    match (&da.stage, &db.stage) {
        (Stage::Awaiting(x), Stage::Awaiting(y)) => assert_ne!(x, y),
        _ => panic!("expected both handshakes to wait"),
    }
}

#[test]
fn contexts_carry_their_prefix() {
    let c = new(1u8);
    assert_eq!(c.prefix, "$JS.API");
    assert_eq!(c.client, 1u8);
    assert_eq!(with_domain(2u8, "hub").prefix, "$JS.hub.API");
    assert_eq!(with_prefix(3u8, "JS.acc@hub.API").prefix, "JS.acc@hub.API");
}

#[test]
fn into_envelope_drops_the_context() {
    let e = message(Some("R")).into_envelope();
    assert_eq!(e.subject, "events");
    assert_eq!(e.reply.as_deref(), Some("R"));
    assert_eq!(e.payload.as_ref(), b"data");
}
