use onebot_v11::api::payload::{ApiPayload, DeleteMsg, GetLoginInfo};
use onebot_v11::api::resp::{ApiRespData, DeleteMsgResponse};
use onebot_v11::connect::http::{finish_reply, plan_reply, HttpCallApiError, HttpConfig, HttpReply};

#[test]
fn http_statuses_map_to_named_errors() {
    assert_eq!(HttpCallApiError::from_status(401), HttpCallApiError::Unauthorized);
    assert_eq!(HttpCallApiError::from_status(403), HttpCallApiError::InvaildToken);
    assert_eq!(HttpCallApiError::from_status(406), HttpCallApiError::ContentTypeNotSupported);
    assert_eq!(HttpCallApiError::from_status(400), HttpCallApiError::InvalidRequestBody);
    assert_eq!(HttpCallApiError::from_status(404), HttpCallApiError::ApiNotFound);
    assert_eq!(HttpCallApiError::from_status(500), HttpCallApiError::UnKnown);
    assert_eq!(plan_reply(404, Some("ok".to_string()), "raw".to_string()), Err(HttpCallApiError::ApiNotFound));
}

#[test]
fn http_failed_status_is_a_call_error() {
    let raw = "{\"status\":\"failed\",\"retcode\":1400}".to_string();
    let r = plan_reply(200, Some("failed".to_string()), raw.clone());
    assert_eq!(r, Err(HttpCallApiError::CallFailed { raw: raw.clone() }));
    assert_eq!(plan_reply(200, None, raw.clone()), Err(HttpCallApiError::CallFailed { raw }));
}

#[test]
fn http_ok_and_async_statuses() {
    assert_eq!(plan_reply(200, Some("ok".to_string()), String::new()), Ok(HttpReply::Decode));
    assert_eq!(plan_reply(200, Some("async".to_string()), String::new()), Ok(HttpReply::NoData));
}

#[test]
fn http_finish_reply() {
    let ok = finish_reply(
        "ok".to_string(),
        "0".to_string(),
        Some(ApiRespData::DeleteMsgResponse(DeleteMsgResponse)),
        "raw".to_string(),
    )
    .unwrap();
    assert_eq!(ok.status, "ok");
    assert_eq!(ok.retcode, "0");
    assert_eq!(ok.data, ApiRespData::DeleteMsgResponse(DeleteMsgResponse));
    let bad = finish_reply("ok".to_string(), "0".to_string(), None, "raw".to_string());
    assert_eq!(bad.unwrap_err(), HttpCallApiError::Decode { raw: "raw".to_string() });
}

#[test]
fn http_url_for_call() {
    let cfg = HttpConfig::default();
    assert_eq!(cfg.host, "127.0.0.1");
    assert_eq!(cfg.port, 8080);
    assert_eq!(cfg.access_token, None);
    let call = ApiPayload::DeleteMsg(DeleteMsg { message_id: 7 });
    assert_eq!(cfg.url_for(&call), "http://127.0.0.1:8080/delete_msg");
    let other = HttpConfig { host: "example.org".to_string(), port: 0, access_token: None };
    assert_eq!(other.url_for(&ApiPayload::GetLoginInfo(GetLoginInfo {})), "http://example.org:0/get_login_info");
    let wide = HttpConfig { host: "h".to_string(), port: 65535, access_token: None };
    assert_eq!(wide.url_for(&call), "http://h:65535/delete_msg");
}
