//! Inbound frames: the event categories and the classifier that tells events
//! from call responses.
pub mod message;
pub mod meta;
pub mod notice;
pub mod request;

use vstd::prelude::*;
use crate::api::resp::ApiRespBuilder;
use self::message::Message;
use self::meta::Meta;
use self::notice::Notice;
use self::request::Request;
use crate::text::same_text;

verus! {

/// One classified inbound frame: an event of one of the four categories, or
/// the response envelope of a call.
#[derive(Debug, PartialEq, Eq)]
pub enum Event {
    Message(Message),
    Meta(Meta),
    Notice(Notice),
    Request(Request),
    ApiRespBuilder(ApiRespBuilder),
}

/// The category field of a frame as found: absent or null, a string, or
/// something else.
#[derive(Clone, Debug, PartialEq, Eq)]
pub enum Tag {
    Missing,
    Text(String),
    NotText,
}

/// The discriminator fields of one inbound frame, read from the generic
/// document before any typed decoding. A field that is not a string is `None`.
#[derive(Clone, Debug, PartialEq, Eq)]
pub struct FrameHeader {
    pub post_type: Tag,
    pub message_type: Option<String>,
    pub meta_event_type: Option<String>,
    pub notice_type: Option<String>,
    pub sub_type: Option<String>,
    pub request_type: Option<String>,
}

/// What a frame is to be decoded as.
#[derive(Clone, Copy, Debug, PartialEq, Eq)]
pub enum FrameKind {
    Response,
    PrivateMessage,
    GroupMessage,
    Lifecycle,
    Heartbeat,
    GroupFileUpload,
    GroupAdminChange,
    GroupMemberDecrease,
    GroupMemberIncrease,
    GroupBan,
    FriendAdd,
    GroupMessageRecall,
    FriendMessageRecall,
    GroupEssenceMessageChange,
    GroupCardChange,
    GroupPoke,
    GroupLuckyKing,
    GroupMemberHonorChange,
    FriendInputStatusChange,
    FriendRequest,
    GroupRequest,
}

/// Why a frame could not be classified; the frame is dropped.
#[derive(Clone, Copy, Debug, PartialEq, Eq)]
pub enum FrameError {
    InvalidPostType,
    InvalidMessageType,
    InvalidMetaEventType,
    InvalidNoticeType,
    InvalidNotifySubType,
    InvalidRequestType,
}

/// The field holds exactly the string `name`.
pub open spec fn names(field: Option<String>, name: Seq<char>) -> bool {
    field.is_some() && field.unwrap()@ == name
}

pub open spec fn message_kind(h: FrameHeader) -> Result<FrameKind, FrameError> {
    if names(h.message_type, "private"@) {
        Ok(FrameKind::PrivateMessage)
    } else if names(h.message_type, "group"@) {
        Ok(FrameKind::GroupMessage)
    } else {
        Err(FrameError::InvalidMessageType)
    }
}

pub open spec fn meta_kind(h: FrameHeader) -> Result<FrameKind, FrameError> {
    if names(h.meta_event_type, "lifecycle"@) {
        Ok(FrameKind::Lifecycle)
    } else if names(h.meta_event_type, "heartbeat"@) {
        Ok(FrameKind::Heartbeat)
    } else {
        Err(FrameError::InvalidMetaEventType)
    }
}

pub open spec fn notify_kind(h: FrameHeader) -> Result<FrameKind, FrameError> {
    if names(h.sub_type, "poke"@) {
        Ok(FrameKind::GroupPoke)
    } else if names(h.sub_type, "lucky_king"@) {
        Ok(FrameKind::GroupLuckyKing)
    } else if names(h.sub_type, "honor"@) {
        Ok(FrameKind::GroupMemberHonorChange)
    } else if names(h.sub_type, "input_status"@) {
        Ok(FrameKind::FriendInputStatusChange)
    } else {
        Err(FrameError::InvalidNotifySubType)
    }
}

pub open spec fn notice_kind(h: FrameHeader) -> Result<FrameKind, FrameError> {
    let t = h.notice_type;
    if names(t, "group_upload"@) {
        Ok(FrameKind::GroupFileUpload)
    } else if names(t, "group_admin"@) {
        Ok(FrameKind::GroupAdminChange)
    } else if names(t, "group_decrease"@) {
        Ok(FrameKind::GroupMemberDecrease)
    } else if names(t, "group_increase"@) {
        Ok(FrameKind::GroupMemberIncrease)
    } else if names(t, "group_ban"@) {
        Ok(FrameKind::GroupBan)
    } else if names(t, "friend_add"@) {
        Ok(FrameKind::FriendAdd)
    } else if names(t, "group_recall"@) {
        Ok(FrameKind::GroupMessageRecall)
    } else if names(t, "friend_recall"@) {
        Ok(FrameKind::FriendMessageRecall)
    } else if names(t, "essence"@) {
        Ok(FrameKind::GroupEssenceMessageChange)
    } else if names(t, "group_card"@) {
        Ok(FrameKind::GroupCardChange)
    } else if names(t, "notify"@) {
        notify_kind(h)
    } else {
        Err(FrameError::InvalidNoticeType)
    }
}

pub open spec fn request_kind(h: FrameHeader) -> Result<FrameKind, FrameError> {
    if names(h.request_type, "friend"@) {
        Ok(FrameKind::FriendRequest)
    } else if names(h.request_type, "group"@) {
        Ok(FrameKind::GroupRequest)
    } else {
        Err(FrameError::InvalidRequestType)
    }
}

/// The classification rule: a frame without a category is a call response;
/// otherwise the category picks the event family and a family-specific field
/// picks the concrete event.
pub open spec fn frame_kind(h: FrameHeader) -> Result<FrameKind, FrameError> {
    match h.post_type {
        Tag::Missing => Ok(FrameKind::Response),
        Tag::NotText => Err(FrameError::InvalidPostType),
        Tag::Text(p) => {
            if p@ == "message"@ {
                message_kind(h)
            } else if p@ == "meta_event"@ {
                meta_kind(h)
            } else if p@ == "notice"@ {
                notice_kind(h)
            } else if p@ == "request"@ {
                request_kind(h)
            } else {
                Err(FrameError::InvalidPostType)
            }
        },
    }
}

fn is_named(field: &Option<String>, name: &str) -> (r: bool)
    ensures
        r == names(*field, name@),
{
    match field {
        Some(s) => same_text(s.as_str(), name),
        None => false,
    }
}

impl FrameHeader {
    /// Decides what the frame is, or why it is not a frame of this protocol.
    pub fn classify(&self) -> (r: Result<FrameKind, FrameError>)
        ensures
            r == frame_kind(*self),
    {
        match &self.post_type {
            Tag::Missing => Ok(FrameKind::Response),
            Tag::NotText => Err(FrameError::InvalidPostType),
            Tag::Text(p) => {
                let p = p.as_str();
                if same_text(p, "message") {
                    if is_named(&self.message_type, "private") {
                        Ok(FrameKind::PrivateMessage)
                    } else if is_named(&self.message_type, "group") {
                        Ok(FrameKind::GroupMessage)
                    } else {
                        Err(FrameError::InvalidMessageType)
                    }
                } else if same_text(p, "meta_event") {
                    if is_named(&self.meta_event_type, "lifecycle") {
                        Ok(FrameKind::Lifecycle)
                    } else if is_named(&self.meta_event_type, "heartbeat") {
                        Ok(FrameKind::Heartbeat)
                    } else {
                        Err(FrameError::InvalidMetaEventType)
                    }
                } else if same_text(p, "notice") {
                    self.classify_notice()
                } else if same_text(p, "request") {
                    if is_named(&self.request_type, "friend") {
                        Ok(FrameKind::FriendRequest)
                    } else if is_named(&self.request_type, "group") {
                        Ok(FrameKind::GroupRequest)
                    } else {
                        Err(FrameError::InvalidRequestType)
                    }
                } else {
                    Err(FrameError::InvalidPostType)
                }
            },
        }
    }

    fn classify_notice(&self) -> (r: Result<FrameKind, FrameError>)
        ensures
            r == notice_kind(*self),
    {
        let t = &self.notice_type;
        if is_named(t, "group_upload") {
            Ok(FrameKind::GroupFileUpload)
        } else if is_named(t, "group_admin") {
            Ok(FrameKind::GroupAdminChange)
        } else if is_named(t, "group_decrease") {
            Ok(FrameKind::GroupMemberDecrease)
        } else if is_named(t, "group_increase") {
            Ok(FrameKind::GroupMemberIncrease)
        } else if is_named(t, "group_ban") {
            Ok(FrameKind::GroupBan)
        } else if is_named(t, "friend_add") {
            Ok(FrameKind::FriendAdd)
        } else if is_named(t, "group_recall") {
            Ok(FrameKind::GroupMessageRecall)
        } else if is_named(t, "friend_recall") {
            Ok(FrameKind::FriendMessageRecall)
        } else if is_named(t, "essence") {
            Ok(FrameKind::GroupEssenceMessageChange)
        } else if is_named(t, "group_card") {
            Ok(FrameKind::GroupCardChange)
        } else if is_named(t, "notify") {
            let s = &self.sub_type;
            if is_named(s, "poke") {
                Ok(FrameKind::GroupPoke)
            } else if is_named(s, "lucky_king") {
                Ok(FrameKind::GroupLuckyKing)
            } else if is_named(s, "honor") {
                Ok(FrameKind::GroupMemberHonorChange)
            } else if is_named(s, "input_status") {
                Ok(FrameKind::FriendInputStatusChange)
            } else {
                Err(FrameError::InvalidNotifySubType)
            }
        } else {
            Err(FrameError::InvalidNoticeType)
        }
    }
}

} // verus!
