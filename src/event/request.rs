//! Request events: friend and group requests.
use vstd::prelude::*;

verus! {

#[derive(Clone, Debug, PartialEq, Eq)]
pub enum Request {
    FriendRequestEvent(FriendRequestEvent),
    GroupRequestEvent(GroupRequestEvent),
}

// 加好友请求事件
#[derive(Clone, Debug, PartialEq, Eq)]
pub struct FriendRequestEvent {
    pub time: i64,            // 事件发生的时间戳
    pub self_id: i64,         // 收到事件的机器人 QQ 号
    pub post_type: String,    // 上报类型
    pub request_type: String, // 请求类型
    pub user_id: i64,         // 发送请求的 QQ 号
    pub comment: String,      // 验证信息
    pub flag: String,         // 请求 flag，在调用处理请求的 API 时需要传入
}

// 加群请求/邀请事件
#[derive(Clone, Debug, PartialEq, Eq)]
pub struct GroupRequestEvent {
    pub time: i64,            // 事件发生的时间戳
    pub self_id: i64,         // 收到事件的机器人 QQ 号
    pub post_type: String,    // 上报类型
    pub request_type: String, // 请求类型
    pub sub_type: String,     // 请求子类型，分别表示加群请求、邀请登录号入群
    pub group_id: i64,        // 群号
    pub user_id: i64,         // 发送请求的 QQ 号
    pub comment: String,      // 验证信息
    pub flag: String,         // 请求 flag，在调用处理请求的 API 时需要传入
}

} // verus!
