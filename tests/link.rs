use onebot_v11::api::resp::ApiRespBuilder;
use onebot_v11::connect::pending::CallPoll;
use onebot_v11::connect::session::{Routed, Session, CALL_TIMEOUT_MS};
use onebot_v11::event::Event;
use onebot_v11::connect::link::{Link, LinkAction, LinkEvent, LinkMode, LinkState, RECONNECT_DELAY_MS};

#[test]
fn outbound_retries_after_three_seconds() {
    let mut link = Link::new(LinkMode::Outbound);
    assert_eq!(link.step(LinkEvent::OpenFailed), LinkAction::RetryAfter { delay_ms: 3000 });
    assert_eq!(link.state, LinkState::Connecting);
    assert_eq!(RECONNECT_DELAY_MS, 3000);
}

#[test]
fn reverse_accepts_again_at_once() {
    let mut link = Link::new(LinkMode::Reverse);
    assert_eq!(link.step(LinkEvent::OpenFailed), LinkAction::RetryAfter { delay_ms: 0 });
}

#[test]
fn stream_end_leads_to_reconnect_and_new_read_loop() {
    let mut link = Link::new(LinkMode::Outbound);
    assert!(!link.is_connected());
    assert_eq!(link.step(LinkEvent::Opened), LinkAction::StartReadLoop { generation: 1 });
    assert!(link.is_connected());
    assert_eq!(link.step(LinkEvent::StreamEnded { generation: 1 }), LinkAction::Reconnect);
    assert_eq!(link.state, LinkState::Connecting);
    assert_eq!(link.step(LinkEvent::OpenFailed), LinkAction::RetryAfter { delay_ms: 3000 });
    assert_eq!(link.step(LinkEvent::Opened), LinkAction::StartReadLoop { generation: 2 });
    assert_eq!(link.state, LinkState::Connected { generation: 2 });
}

#[test]
fn stale_stream_end_is_ignored() {
    let mut link = Link::new(LinkMode::Reverse);
    link.step(LinkEvent::Opened);
    link.step(LinkEvent::StreamEnded { generation: 1 });
    link.step(LinkEvent::Opened);
    assert_eq!(link.step(LinkEvent::StreamEnded { generation: 1 }), LinkAction::Ignore);
    assert_eq!(link.state, LinkState::Connected { generation: 2 });
    assert_eq!(link.step(LinkEvent::Opened), LinkAction::Ignore);
}

#[test]
fn reconnect_keeps_calls_and_times_out_stale_ones() {
    let mut link = Link::new(LinkMode::Outbound);
    let mut session = Session::new();
    let first = match link.step(LinkEvent::Opened) {
        LinkAction::StartReadLoop { generation } => generation,
        other => panic!("unexpected {:?}", other),
    };
    assert!(session.begin_call("stale".to_string(), 20, 0));
    assert_eq!(link.step(LinkEvent::StreamEnded { generation: first }), LinkAction::Reconnect);
    assert_eq!(link.step(LinkEvent::Opened), LinkAction::StartReadLoop { generation: first + 1 });
    assert!(session.begin_call("fresh".to_string(), 20, 100));
    let envelope = ApiRespBuilder {
        status: "ok".to_string(),
        retcode: 0,
        data: serde_json::Value::Null,
        echo: Some("fresh".to_string()),
    };
    assert_eq!(session.on_frame(Some(Event::ApiRespBuilder(envelope))), Routed::Resolved);
    assert!(matches!(session.poll_call(&"fresh".to_string(), 200), CallPoll::Ready { .. }));
    assert!(matches!(session.poll_call(&"stale".to_string(), 200), CallPoll::Waiting));
    assert!(matches!(session.poll_call(&"stale".to_string(), CALL_TIMEOUT_MS), CallPoll::TimedOut));
}
