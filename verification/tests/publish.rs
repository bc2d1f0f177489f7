use amqp_tools::cli::Cli;
use amqp_tools::confirm::{classify, BrokerReply, ConfirmOutcome, ReturnedMessage};
use amqp_tools::publisher::{payload_text, PublishRefusal, Publisher};
use amqp_tools::session::{
    normal_close_reason, CloseStep, Link, Session, SessionError, NORMAL_CLOSE_CODE,
};
use lapin::types::{AMQPValue, FieldTable};

fn ready_session() -> Session {
    let mut s = Session::new();
    assert_eq!(s.connect(), Ok(()));
    assert_eq!(s.open_channel(), Ok(()));
    assert_eq!(s.enable_confirms(), Ok(()));
    s
}

fn returned(code: u16, text: &str) -> Option<ReturnedMessage> {
    Some(ReturnedMessage { reply_code: code, reply_text: text.to_string() })
}

#[test]
fn publish_with_headers_is_accepted() {
    let cli = Cli {
        url: "amqp://localhost:5672".to_string(),
        exchange: "ex".to_string(),
        routing_key: Some("rk".to_string()),
        headers: Some(vec!["a=1".to_string(), "b=2".to_string()]),
    };
    let mut session = ready_session();
    let mut publisher = Publisher::new(cli.exchange(), cli.routing_key(), cli.headers());
    let message = publisher.next_message(&mut session).unwrap();
    let mut expected = FieldTable::default();
    expected.insert("a".into(), AMQPValue::LongString("1".into()));
    expected.insert("b".into(), AMQPValue::LongString("2".into()));
    assert_eq!(message.exchange, "ex");
    assert_eq!(message.routing_key, "rk");
    assert_eq!(message.headers, Some(expected));
    assert_eq!(message.payload, b"Hello person #01!".to_vec());
    assert!(message.mandatory);
    let outcome = publisher.resolve(&BrokerReply::Ack { returned: None });
    assert_eq!(outcome, Some(ConfirmOutcome::Accepted));
    assert!(outcome.unwrap().is_accepted());
}

#[test]
fn unroutable_message_is_rejected() {
    let mut session = ready_session();
    let mut publisher = Publisher::new("nowhere".to_string(), String::new(), None);
    let message = publisher.next_message(&mut session).unwrap();
    assert!(message.mandatory);
    assert_eq!(message.headers, None);
    let outcome = publisher
        .resolve(&BrokerReply::Ack { returned: returned(312, "NO_ROUTE") })
        .unwrap();
    assert_eq!(
        outcome,
        ConfirmOutcome::RejectedByBroker { reason: "312 NO_ROUTE".to_string() }
    );
    assert!(!outcome.is_accepted());
}

#[test]
fn classify_each_shape() {
    assert_eq!(classify(&BrokerReply::Ack { returned: None }), ConfirmOutcome::Accepted);
    assert_eq!(
        classify(&BrokerReply::Ack { returned: returned(0, "") }),
        ConfirmOutcome::RejectedByBroker { reason: "0 ".to_string() }
    );
    assert_eq!(
        classify(&BrokerReply::Ack { returned: returned(65535, "gone away") }),
        ConfirmOutcome::RejectedByBroker { reason: "65535 gone away".to_string() }
    );
    assert_eq!(
        classify(&BrokerReply::Nack { returned: None }),
        ConfirmOutcome::RejectedByBroker { reason: "not acknowledged".to_string() }
    );
    assert_eq!(
        classify(&BrokerReply::Nack { returned: returned(312, "NO_ROUTE") }),
        ConfirmOutcome::RejectedByBroker { reason: "not acknowledged".to_string() }
    );
    assert_eq!(classify(&BrokerReply::Other), ConfirmOutcome::Unknown);
}

#[test]
fn only_accepted_counts_as_success() {
    assert!(ConfirmOutcome::Accepted.is_accepted());
    assert!(!ConfirmOutcome::RejectedByBroker { reason: String::new() }.is_accepted());
    assert!(!ConfirmOutcome::Unroutable.is_accepted());
    assert!(!ConfirmOutcome::Unknown.is_accepted());
}

#[test]
fn payload_text_values() {
    assert_eq!(payload_text(0), "Hello person #00!");
    assert_eq!(payload_text(1), "Hello person #01!");
    assert_eq!(payload_text(9), "Hello person #09!");
    assert_eq!(payload_text(10), "Hello person #10!");
    assert_eq!(payload_text(99), "Hello person #99!");
    assert_eq!(payload_text(100), "Hello person #100!");
    assert_eq!(payload_text(u32::MAX), "Hello person #4294967295!");
}

#[test]
fn publishes_are_sequential() {
    let mut session = ready_session();
    let mut publisher = Publisher::new("ex".to_string(), "rk".to_string(), None);
    let first = publisher.next_message(&mut session).unwrap();
    assert_eq!(first.payload, b"Hello person #01!".to_vec());
    assert_eq!(publisher.next_message(&mut session), Err(PublishRefusal::ConfirmPending));
    assert_eq!(publisher.counter, 1);
    assert!(publisher.resolve(&BrokerReply::Nack { returned: None }).is_some());
    let second = publisher.next_message(&mut session).unwrap();
    assert_eq!(second.payload, b"Hello person #02!".to_vec());
    assert_eq!(publisher.counter, 2);
    assert!(session.published);
}

#[test]
fn resolve_without_a_message_in_flight() {
    let mut publisher = Publisher::new("ex".to_string(), "rk".to_string(), None);
    assert_eq!(publisher.resolve(&BrokerReply::Ack { returned: None }), None);
    assert_eq!(publisher.counter, 0);
    assert!(!publisher.pending);
}

#[test]
fn publish_needs_confirm_mode() {
    let mut publisher = Publisher::new("ex".to_string(), "rk".to_string(), None);
    let mut session = Session::new();
    assert_eq!(publisher.next_message(&mut session), Err(PublishRefusal::ChannelNotReady));
    session.connect().unwrap();
    session.open_channel().unwrap();
    assert_eq!(publisher.next_message(&mut session), Err(PublishRefusal::ChannelNotReady));
    session.enable_confirms().unwrap();
    assert!(publisher.next_message(&mut session).is_ok());
    publisher.resolve(&BrokerReply::Other);
    session.close().unwrap();
    assert_eq!(publisher.next_message(&mut session), Err(PublishRefusal::ChannelNotReady));
    assert_eq!(publisher.counter, 1);
}

#[test]
fn counter_stops_at_its_largest_value() {
    let mut session = ready_session();
    let mut publisher = Publisher::new("ex".to_string(), String::new(), None);
    publisher.counter = u32::MAX - 1;
    let m = publisher.next_message(&mut session).unwrap();
    assert_eq!(m.payload, b"Hello person #4294967295!".to_vec());
    publisher.resolve(&BrokerReply::Ack { returned: None });
    let m = publisher.next_message(&mut session).unwrap();
    assert_eq!(m.payload, b"Hello person #4294967295!".to_vec());
    assert_eq!(publisher.counter, u32::MAX);
}

#[test]
fn session_lifecycle() {
    let mut s = Session::new();
    assert!(!s.is_usable());
    assert_eq!(s.open_channel(), Err(SessionError::NotConnected));
    assert_eq!(s.enable_confirms(), Err(SessionError::ChannelNotOpen));
    assert_eq!(s.record_publish(), Err(SessionError::ChannelNotOpen));
    assert_eq!(s.close(), Err(SessionError::NotConnected));
    assert_eq!(s, Session::new());
    assert_eq!(s.connect(), Ok(()));
    assert_eq!(s.connect(), Err(SessionError::AlreadyConnected));
    assert!(!s.is_usable());
    assert_eq!(s.open_channel(), Ok(()));
    assert_eq!(s.open_channel(), Err(SessionError::ChannelAlreadyOpen));
    assert!(s.is_usable());
    assert_eq!(s.enable_confirms(), Ok(()));
    assert_eq!(s.enable_confirms(), Err(SessionError::ConfirmsAlreadyEnabled));
    assert_eq!(s.record_publish(), Ok(()));
    assert_eq!(s.close(), Ok(vec![CloseStep::Channel, CloseStep::Connection]));
    assert_eq!(s.connection, Link::Closed);
    assert_eq!(s.channel, Link::Closed);
    assert_eq!(s.connect(), Err(SessionError::Closed));
    assert_eq!(s.open_channel(), Err(SessionError::Closed));
    assert_eq!(s.record_publish(), Err(SessionError::ChannelNotOpen));
}

#[test]
fn confirms_are_refused_after_a_publish() {
    let mut s = Session::new();
    s.connect().unwrap();
    s.open_channel().unwrap();
    s.record_publish().unwrap();
    assert_eq!(s.enable_confirms(), Err(SessionError::AlreadyPublished));
    assert!(!s.confirms);
}

#[test]
fn close_twice_is_a_no_op() {
    let mut s = ready_session();
    assert_eq!(s.close(), Ok(vec![CloseStep::Channel, CloseStep::Connection]));
    let closed = s;
    assert_eq!(s.close(), Ok(vec![]));
    assert_eq!(s, closed);
}

#[test]
fn close_without_a_channel_closes_the_connection() {
    let mut s = Session::new();
    s.connect().unwrap();
    assert_eq!(s.close(), Ok(vec![CloseStep::Connection]));
    assert_eq!(s.channel, Link::Unopened);
    assert_eq!(s.open_channel(), Err(SessionError::Closed));
}

#[test]
fn normal_close_status() {
    assert_eq!(NORMAL_CLOSE_CODE, 0);
    assert_eq!(normal_close_reason(), "OK");
}
