use onebot_v11::api::resp::ApiRespBuilder;
use onebot_v11::connect::session::{Routed, Session};
use onebot_v11::event::meta::{Lifecycle, Meta};
use onebot_v11::event::{Event, FrameError, FrameHeader, FrameKind, Tag};

fn header(post_type: Tag) -> FrameHeader {
    FrameHeader {
        post_type,
        message_type: None,
        meta_event_type: None,
        notice_type: None,
        sub_type: None,
        request_type: None,
    }
}

fn text(s: &str) -> Option<String> {
    Some(s.to_string())
}

fn lifecycle(time: i64) -> Event {
    Event::Meta(Meta::Lifecycle(Lifecycle {
        time,
        self_id: 10001,
        post_type: "meta_event".to_string(),
        meta_event_type: "lifecycle".to_string(),
        sub_type: "connect".to_string(),
    }))
}

#[test]
fn frame_without_category_is_a_response() {
    assert_eq!(header(Tag::Missing).classify(), Ok(FrameKind::Response));
}

#[test]
fn frame_with_non_text_category_is_invalid() {
    assert_eq!(header(Tag::NotText).classify(), Err(FrameError::InvalidPostType));
}

#[test]
fn frame_with_unknown_category_is_invalid() {
    let h = header(Tag::Text("weather".to_string()));
    assert_eq!(h.classify(), Err(FrameError::InvalidPostType));
}

#[test]
fn message_frames_split_by_message_type() {
    let mut h = header(Tag::Text("message".to_string()));
    h.message_type = text("private");
    assert_eq!(h.classify(), Ok(FrameKind::PrivateMessage));
    h.message_type = text("group");
    assert_eq!(h.classify(), Ok(FrameKind::GroupMessage));
    h.message_type = text("channel");
    assert_eq!(h.classify(), Err(FrameError::InvalidMessageType));
    h.message_type = None;
    assert_eq!(h.classify(), Err(FrameError::InvalidMessageType));
}

#[test]
fn meta_frames_split_by_meta_event_type() {
    let mut h = header(Tag::Text("meta_event".to_string()));
    h.meta_event_type = text("lifecycle");
    assert_eq!(h.classify(), Ok(FrameKind::Lifecycle));
    h.meta_event_type = text("heartbeat");
    assert_eq!(h.classify(), Ok(FrameKind::Heartbeat));
    h.meta_event_type = text("pulse");
    assert_eq!(h.classify(), Err(FrameError::InvalidMetaEventType));
}

#[test]
fn notice_frames_split_by_notice_type() {
    let mut h = header(Tag::Text("notice".to_string()));
    let cases = [
        ("group_upload", FrameKind::GroupFileUpload),
        ("group_admin", FrameKind::GroupAdminChange),
        ("group_decrease", FrameKind::GroupMemberDecrease),
        ("group_increase", FrameKind::GroupMemberIncrease),
        ("group_ban", FrameKind::GroupBan),
        ("friend_add", FrameKind::FriendAdd),
        ("group_recall", FrameKind::GroupMessageRecall),
        ("friend_recall", FrameKind::FriendMessageRecall),
        ("essence", FrameKind::GroupEssenceMessageChange),
        ("group_card", FrameKind::GroupCardChange),
    ];
    for (name, kind) in cases {
        h.notice_type = text(name);
        assert_eq!(h.classify(), Ok(kind));
    }
    h.notice_type = text("group_move");
    assert_eq!(h.classify(), Err(FrameError::InvalidNoticeType));
}

#[test]
fn notify_notices_split_by_sub_type() {
    let mut h = header(Tag::Text("notice".to_string()));
    h.notice_type = text("notify");
    let cases = [
        ("poke", FrameKind::GroupPoke),
        ("lucky_king", FrameKind::GroupLuckyKing),
        ("honor", FrameKind::GroupMemberHonorChange),
        ("input_status", FrameKind::FriendInputStatusChange),
    ];
    for (name, kind) in cases {
        h.sub_type = text(name);
        assert_eq!(h.classify(), Ok(kind));
    }
    h.sub_type = text("title");
    assert_eq!(h.classify(), Err(FrameError::InvalidNotifySubType));
    h.sub_type = None;
    assert_eq!(h.classify(), Err(FrameError::InvalidNotifySubType));
}

#[test]
fn request_frames_split_by_request_type() {
    let mut h = header(Tag::Text("request".to_string()));
    h.request_type = text("friend");
    assert_eq!(h.classify(), Ok(FrameKind::FriendRequest));
    h.request_type = text("group");
    assert_eq!(h.classify(), Ok(FrameKind::GroupRequest));
    h.request_type = text("Group");
    assert_eq!(h.classify(), Err(FrameError::InvalidRequestType));
}

#[test]
fn malformed_frame_is_dropped_and_next_one_delivered() {
    let mut session = Session::new();
    let sub = session.events.subscribe();
    let mut sub = sub;
    assert_eq!(session.on_frame(None), Routed::Dropped);
    assert_eq!(session.events.published(), 0);
    assert_eq!(session.on_frame(Some(lifecycle(1))), Routed::Published);
    assert_eq!(session.events.recv(&mut sub), Some(&lifecycle(1)));
    assert_eq!(session.events.recv(&mut sub), None);
}

#[test]
fn response_for_no_call_is_discarded() {
    let mut session = Session::new();
    let env = ApiRespBuilder {
        status: "ok".to_string(),
        retcode: 0,
        data: serde_json::Value::Null,
        echo: Some("nobody".to_string()),
    };
    assert_eq!(session.on_frame(Some(Event::ApiRespBuilder(env))), Routed::Discarded);
    let without_echo = ApiRespBuilder {
        status: "ok".to_string(),
        retcode: 0,
        data: serde_json::Value::Null,
        echo: None,
    };
    assert_eq!(session.on_frame(Some(Event::ApiRespBuilder(without_echo))), Routed::Discarded);
    assert_eq!(session.events.published(), 0);
    assert_eq!(session.on_frame(Some(lifecycle(2))), Routed::Published);
}
