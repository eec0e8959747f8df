use onebot_v11::connect::ws_reverse::{Handshake, HandshakeRequest, ReverseWsConfig};
use onebot_v11::connect::WsType;

fn config(token: Option<&str>) -> ReverseWsConfig {
    ReverseWsConfig {
        host: "0.0.0.0".to_string(),
        port: 6700,
        suffix: "onebot/v11".to_string(),
        access_token: token.map(|t| t.to_string()),
    }
}

fn request(path: &str, auth: Option<&str>) -> HandshakeRequest {
    HandshakeRequest {
        path: path.to_string(),
        self_id: Some("123456".to_string()),
        client_role: Some("Event".to_string()),
        authorization: auth.map(|a| a.to_string()),
    }
}

#[test]
fn wrong_path_is_not_found() {
    let cfg = config(Some("s3cret"));
    assert_eq!(cfg.check_handshake(request("/onebot/v12", Some("Bearer s3cret"))), Handshake::NotFound);
    assert_eq!(cfg.check_handshake(request("/", None)), Handshake::NotFound);
}

#[test]
fn wrong_token_is_unauthorized() {
    let cfg = config(Some("s3cret"));
    assert_eq!(cfg.check_handshake(request("/onebot/v11", Some("Bearer other"))), Handshake::Unauthorized);
    assert_eq!(cfg.check_handshake(request("/onebot/v11", Some("s3cret"))), Handshake::Unauthorized);
    assert_eq!(cfg.check_handshake(request("/onebot/v11", None)), Handshake::Unauthorized);
}

#[test]
fn matching_request_is_accepted_with_identity() {
    let cfg = config(Some("s3cret"));
    assert_eq!(
        cfg.check_handshake(request("/ws/onebot/v11/", Some("Bearer s3cret"))),
        Handshake::Accepted { bot_id: Some("123456".to_string()), role: Some(WsType::Event) }
    );
}

#[test]
fn no_secret_needs_no_header() {
    let cfg = config(None);
    let mut req = request("/onebot/v11//", None);
    req.client_role = Some("UNIVERSAL".to_string());
    req.self_id = None;
    assert_eq!(cfg.check_handshake(req), Handshake::Accepted { bot_id: None, role: Some(WsType::Universal) });
    let mut req = request("/onebot/v11", None);
    req.client_role = None;
    assert_eq!(
        cfg.check_handshake(req),
        Handshake::Accepted { bot_id: Some("123456".to_string()), role: None }
    );
}

#[test]
fn header_without_secret_is_unauthorized() {
    let cfg = config(None);
    assert_eq!(cfg.check_handshake(request("/onebot/v11", Some("Bearer x"))), Handshake::Unauthorized);
}

#[test]
fn reverse_defaults_and_bind_address() {
    let cfg = ReverseWsConfig::default();
    assert_eq!(cfg.host, "127.0.0.1");
    assert_eq!(cfg.port, 8080);
    assert_eq!(cfg.suffix, "onebot/v11");
    assert_eq!(cfg.access_token, None);
    assert_eq!(cfg.bind_address(), "127.0.0.1:8080");
    assert_eq!(config(None).bind_address(), "0.0.0.0:6700");
}

#[test]
fn role_names_ignore_case() {
    assert_eq!(WsType::from_str("API"), WsType::Api);
    assert_eq!(WsType::from_str("event"), WsType::Event);
    assert_eq!(WsType::from_str("Universal"), WsType::Universal);
    assert_eq!(WsType::from_str("anything"), WsType::Universal);
    assert_eq!(WsType::from_lowercase("API"), WsType::Universal);
}
