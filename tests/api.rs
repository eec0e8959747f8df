use onebot_v11::api::payload::{
    ApiPayload, DelGroupFileFolder, DeleteMsg, SendGroupForwardMsg, SendPrivateMsg,
    SetGroupAddRequest,
};
use onebot_v11::connect::ws::WsConfig;
use onebot_v11::connect::{WsApiPayload, WsType, ECHO_LEN};
use onebot_v11::event::notice::{FriendInputStatusChangeEvent, InputStatus};
use onebot_v11::message::segment::{ContactType, ImageData, TextData};
use onebot_v11::MessageSegment;

#[test]
fn response_kinds_and_endpoints() {
    let send = ApiPayload::SendPrivateMsg(SendPrivateMsg {
        user_id: 1,
        message: vec![MessageSegment::text("hi".to_string())],
        auto_escape: false,
    });
    assert_eq!(send.to_resp_type(), 1);
    assert_eq!(send.endpoint(), "send_private_msg");
    let delete = ApiPayload::DeleteMsg(DeleteMsg { message_id: 3 });
    assert_eq!(delete.to_resp_type(), 4);
    assert_eq!(delete.endpoint(), "delete_msg");
    let folder = ApiPayload::DelGroupFileFolder(DelGroupFileFolder {
        group_id: 5,
        folder_id: "f".to_string(),
    });
    assert_eq!(folder.to_resp_type(), 54);
    assert_eq!(folder.endpoint(), "del_group_file_folder");
    let request = ApiPayload::SetGroupAddRequest(SetGroupAddRequest {
        flag: "x".to_string(),
        sub_type: "add".to_string(),
        approve: true,
        reason: None,
    });
    assert_eq!(request.to_resp_type(), 19);
    assert_eq!(request.endpoint(), "set_group_add_request");
    let forward = ApiPayload::SendGroupForwardMsg(SendGroupForwardMsg { group_id: 1, messages: vec![] });
    assert_eq!(forward.to_resp_type(), 55);
    assert_eq!(forward.endpoint(), "send_group_forward_msg");
}

#[test]
fn call_frame_has_fresh_alphanumeric_echo() {
    let call = ApiPayload::DeleteMsg(DeleteMsg { message_id: 3 });
    let a = WsApiPayload::new(&call, serde_json::Value::Null);
    let b = WsApiPayload::new(&call, serde_json::Value::Bool(true));
    assert_eq!(a.action, "delete_msg");
    assert_eq!(b.params, serde_json::Value::Bool(true));
    assert_eq!(a.echo.chars().count(), ECHO_LEN);
    assert!(a.echo.chars().all(|c| c.is_ascii_alphanumeric()));
    assert_eq!(b.echo.len(), 10);
    assert_ne!(a.echo, b.echo);
}

#[test]
fn input_status_of_event() {
    let mut e = FriendInputStatusChangeEvent {
        time: 0,
        self_id: 1,
        post_type: "notice".to_string(),
        notice_type: "notify".to_string(),
        sub_type: "input_status".to_string(),
        status_text: "typing...".to_string(),
        event_type: 1,
        user_id: 2,
    };
    assert_eq!(e.to_status(), InputStatus::Start);
    e.event_type = 2;
    assert_eq!(e.to_status(), InputStatus::Typing);
    e.status_text = String::new();
    assert_eq!(e.to_status(), InputStatus::Cleared);
}

#[test]
fn ws_config_default_and_url() {
    let cfg = WsConfig::default();
    assert_eq!(cfg.host, "127.0.0.1");
    assert_eq!(cfg.port, 8081);
    assert_eq!(cfg.type_, WsType::Universal);
    assert_eq!(cfg.url(), "ws://127.0.0.1:8081");
    let event = WsConfig { type_: WsType::Event, port: 6700, ..WsConfig::default() };
    assert_eq!(event.url(), "ws://127.0.0.1:6700/event");
    let api = WsConfig { type_: WsType::Api, ..WsConfig::default() };
    assert_eq!(api.url(), "ws://127.0.0.1:8081/api");
}

#[test]
fn segment_builders() {
    assert_eq!(
        MessageSegment::text("hello".to_string()),
        MessageSegment::Text { data: TextData { text: "hello".to_string() } }
    );
    assert_eq!(
        MessageSegment::image("a.png".to_string(), None, Some("flash".to_string()), Some(true), Some(false), Some(5)),
        MessageSegment::Image {
            data: ImageData {
                file: "a.png".to_string(),
                type_: Some("flash".to_string()),
                summary: None,
                url: None,
                cache: Some(1),
                proxy: Some(0),
                timeout: Some(5),
            }
        }
    );
    match MessageSegment::file("/tmp/f".to_string(), Some("f".to_string())) {
        MessageSegment::File { data } => {
            assert_eq!(data.file, "/tmp/f");
            assert_eq!(data.name, Some("f".to_string()));
            assert!(data.path.is_empty() && data.file_id.is_empty() && data.file_size.is_empty());
            assert_eq!(data.url, None);
        }
        other => panic!("unexpected {:?}", other),
    }
    match MessageSegment::rps() {
        MessageSegment::Rps { data } => assert_eq!(data, serde_json::Value::Object(serde_json::Map::new())),
        other => panic!("unexpected {:?}", other),
    }
    match MessageSegment::contact(ContactType::QQ, "9".to_string()) {
        MessageSegment::Contact { data } => assert_eq!(data.type_, ContactType::QQ),
        other => panic!("unexpected {:?}", other),
    }
    match MessageSegment::custom_node(5, "n".to_string(), vec![MessageSegment::face("1".to_string())]) {
        MessageSegment::CustomNode { data } => {
            assert_eq!(data.uin, Some(5));
            assert_eq!(data.content.len(), 1);
        }
        other => panic!("unexpected {:?}", other),
    }
    assert!(matches!(MessageSegment::anonymous(Some(true)), MessageSegment::Anonymous { data } if data.ignore == Some(1)));
}
