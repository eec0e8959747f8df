use onebot_v11::api::resp::{ApiRespBuilder, ApiRespData, GetLoginInfoResponse};
use onebot_v11::connect::pending::{CallPoll, PendingCalls};
use onebot_v11::connect::session::{CallError, Routed, Session, CALL_TIMEOUT_MS};
use onebot_v11::event::Event;

fn envelope(status: &str, echo: &str) -> ApiRespBuilder {
    ApiRespBuilder {
        status: status.to_string(),
        retcode: if status == "failed" { 100 } else { 0 },
        data: serde_json::Value::Null,
        echo: Some(echo.to_string()),
    }
}

#[test]
fn response_resolves_only_its_own_call() {
    let mut calls = PendingCalls::new();
    assert!(calls.register("aaaa".to_string(), 20, 1000));
    assert!(calls.register("bbbb".to_string(), 21, 1000));
    assert!(calls.resolve(envelope("ok", "aaaa")));
    match calls.poll(&"aaaa".to_string(), 10) {
        CallPoll::Ready { response, resp_type } => {
            assert_eq!(response.echo, Some("aaaa".to_string()));
            assert_eq!(resp_type, 20);
        }
        other => panic!("unexpected {:?}", other),
    }
    assert!(matches!(calls.poll(&"bbbb".to_string(), 10), CallPoll::Waiting));
    assert!(calls.contains(&"bbbb".to_string()));
}

#[test]
fn second_response_for_same_echo_is_ignored() {
    let mut calls = PendingCalls::new();
    assert!(calls.register("e1".to_string(), 4, 1000));
    assert!(calls.resolve(envelope("ok", "e1")));
    assert!(!calls.resolve(envelope("failed", "e1")));
    match calls.poll(&"e1".to_string(), 0) {
        CallPoll::Ready { response, .. } => assert_eq!(response.status, "ok"),
        other => panic!("unexpected {:?}", other),
    }
}

#[test]
fn duplicate_echo_is_refused() {
    let mut calls = PendingCalls::new();
    assert!(calls.register("same".to_string(), 1, 10));
    assert!(!calls.register("same".to_string(), 2, 20));
}

#[test]
fn call_times_out_once_and_is_forgotten() {
    let mut calls = PendingCalls::new();
    assert!(calls.register("slow".to_string(), 1, 500));
    assert!(matches!(calls.poll(&"slow".to_string(), 499), CallPoll::Waiting));
    assert!(matches!(calls.poll(&"slow".to_string(), 500), CallPoll::TimedOut));
    assert!(matches!(calls.poll(&"slow".to_string(), 501), CallPoll::Unknown));
    assert!(!calls.resolve(envelope("ok", "slow")));
}

#[test]
fn cancelled_call_releases_its_entry() {
    let mut calls = PendingCalls::new();
    assert!(calls.register("gone".to_string(), 1, 500));
    calls.cancel(&"gone".to_string());
    assert!(!calls.contains(&"gone".to_string()));
    assert!(!calls.resolve(envelope("ok", "gone")));
}

#[test]
fn session_call_deadline_is_thirty_seconds_later() {
    let mut session = Session::new();
    assert!(session.begin_call("tok".to_string(), 20, 1_000));
    assert!(matches!(session.poll_call(&"tok".to_string(), 1_000 + CALL_TIMEOUT_MS - 1), CallPoll::Waiting));
    assert!(matches!(session.poll_call(&"tok".to_string(), 1_000 + CALL_TIMEOUT_MS), CallPoll::TimedOut));
    assert_eq!(CALL_TIMEOUT_MS, 30_000);
}

#[test]
fn session_deadline_saturates() {
    let mut session = Session::new();
    assert!(session.begin_call("late".to_string(), 1, u64::MAX - 5));
    assert!(matches!(session.poll_call(&"late".to_string(), u64::MAX - 1), CallPoll::Waiting));
    assert!(matches!(session.poll_call(&"late".to_string(), u64::MAX), CallPoll::TimedOut));
}

#[test]
fn session_routes_response_to_waiting_call() {
    let mut session = Session::new();
    assert!(session.begin_call("abc".to_string(), 20, 0));
    let routed = session.on_frame(Some(Event::ApiRespBuilder(envelope("ok", "abc"))));
    assert_eq!(routed, Routed::Resolved);
    assert!(matches!(session.poll_call(&"abc".to_string(), 1), CallPoll::Ready { resp_type: 20, .. }));
}

#[test]
fn build_gives_exactly_one_outcome() {
    let data = ApiRespData::GetLoginInfoResponse(GetLoginInfoResponse {
        user_id: 42,
        nickname: "bot".to_string(),
    });
    let ok = envelope("ok", "x").build(Some(data)).unwrap();
    assert_eq!(ok.status, "ok");
    assert_eq!(ok.echo, Some("x".to_string()));
    assert!(matches!(ok.data, ApiRespData::GetLoginInfoResponse(GetLoginInfoResponse { user_id: 42, .. })));

    let failed = envelope("failed", "x").build(Some(ApiRespData::NoResponse(None)));
    assert_eq!(failed.unwrap_err(), CallError::Failed { retcode: 100 });

    let undecodable = envelope("ok", "x").build(None);
    assert_eq!(undecodable.unwrap_err(), CallError::Decode);

    let queued = envelope("async", "x").build(Some(ApiRespData::NoResponse(None))).unwrap();
    assert_eq!(queued.status, "async");
}

#[test]
fn envelope_failure_flag() {
    assert!(envelope("failed", "x").is_failed());
    assert!(!envelope("ok", "x").is_failed());
    assert!(!envelope("Failed", "x").is_failed());
}
