//! What each call is called on the wire and how its response decodes.
use vstd::prelude::*;
use crate::api::payload::ApiPayload;

verus! {

/// The response-kind tag of a call: it selects the shape that the data of
/// the call's response decodes into.
pub open spec fn resp_type_of(p: &ApiPayload) -> u8 {
    match p {
        ApiPayload::SendPrivateMsg(_) => 1,
        ApiPayload::SendGroupMsg(_) => 2,
        ApiPayload::SendMsg(_) => 3,
        ApiPayload::DeleteMsg(_) => 4,
        ApiPayload::GetMsg(_) => 5,
        ApiPayload::GetForwardMsg(_) => 6,
        ApiPayload::SendLike(_) => 7,
        ApiPayload::SetGroupKick(_) => 8,
        ApiPayload::SetGroupBan(_) => 9,
        ApiPayload::SetGroupAnonymousBan(_) => 10,
        ApiPayload::SetGroupWholeBan(_) => 11,
        ApiPayload::SetGroupAdmin(_) => 12,
        ApiPayload::SetGroupAnonymous(_) => 13,
        ApiPayload::SetGroupCard(_) => 14,
        ApiPayload::SetGroupName(_) => 15,
        ApiPayload::SetGroupLeave(_) => 16,
        ApiPayload::SetGroupSpecialTitle(_) => 17,
        ApiPayload::SetFriendAddRequest(_) => 18,
        ApiPayload::SetGroupAddRequest(_) => 19,
        ApiPayload::GetLoginInfo(_) => 20,
        ApiPayload::GetStrangerInfo(_) => 21,
        ApiPayload::GetFriendList(_) => 22,
        ApiPayload::GetGroupInfo(_) => 23,
        ApiPayload::GetGroupList(_) => 24,
        ApiPayload::GetGroupMemberInfo(_) => 25,
        ApiPayload::GetGroupMemberList(_) => 26,
        ApiPayload::GetGroupHonorInfo(_) => 27,
        ApiPayload::GetCookies(_) => 28,
        ApiPayload::GetCsrfToken(_) => 29,
        ApiPayload::GetCredentials(_) => 30,
        ApiPayload::GetRecord(_) => 31,
        ApiPayload::GetImage(_) => 32,
        ApiPayload::CanSendImage(_) => 33,
        ApiPayload::CanSendRecord(_) => 34,
        ApiPayload::GetStatus(_) => 35,
        ApiPayload::GetVersionInfo(_) => 36,
        ApiPayload::SetRestart(_) => 37,
        ApiPayload::CleanCache(_) => 38,
        ApiPayload::SetQQAvatar(_) => 39,
        ApiPayload::GetGroupSystemMsg(_) => 40,
        ApiPayload::GetFile(_) => 41,
        ApiPayload::ForwardFriendSingleMsg(_) => 42,
        ApiPayload::ForwardGroupSingleMsg(_) => 43,
        ApiPayload::SetMsgEmojiLike(_) => 44,
        ApiPayload::MarkPrivateMsgAsRead(_) => 45,
        ApiPayload::MarkGroupMsgAsRead(_) => 46,
        ApiPayload::GetRobotUinRange(_) => 47,
        ApiPayload::SetOnlineStatus(_) => 48,
        ApiPayload::GetFriendsWithCategory(_) => 49,
        ApiPayload::GetGroupFileCount(_) => 50,
        ApiPayload::GetGroupFileList(_) => 51,
        ApiPayload::SetGroupFileFolder(_) => 52,
        ApiPayload::DelGroupFile(_) => 53,
        ApiPayload::DelGroupFileFolder(_) => 54,
        ApiPayload::SendGroupForwardMsg(_) => 55,
        ApiPayload::SendPrivateForwardMsg(_) => 56,
    }
}

/// The action name of a call, which is also its HTTP endpoint.
pub open spec fn endpoint_of(p: &ApiPayload) -> Seq<char> {
    match p {
        ApiPayload::SendPrivateMsg(_) => "send_private_msg"@,
        ApiPayload::SendGroupMsg(_) => "send_group_msg"@,
        ApiPayload::SendMsg(_) => "send_msg"@,
        ApiPayload::DeleteMsg(_) => "delete_msg"@,
        ApiPayload::GetMsg(_) => "get_msg"@,
        ApiPayload::GetForwardMsg(_) => "get_forward_msg"@,
        ApiPayload::SendLike(_) => "send_like"@,
        ApiPayload::SetGroupKick(_) => "set_group_kick"@,
        ApiPayload::SetGroupBan(_) => "set_group_ban"@,
        ApiPayload::SetGroupAnonymousBan(_) => "set_group_anonymous_ban"@,
        ApiPayload::SetGroupWholeBan(_) => "set_group_whole_ban"@,
        ApiPayload::SetGroupAdmin(_) => "set_group_admin"@,
        ApiPayload::SetGroupAnonymous(_) => "set_group_anonymous"@,
        ApiPayload::SetGroupCard(_) => "set_group_card"@,
        ApiPayload::SetGroupName(_) => "set_group_name"@,
        ApiPayload::SetGroupLeave(_) => "set_group_leave"@,
        ApiPayload::SetGroupSpecialTitle(_) => "set_group_special_title"@,
        ApiPayload::SetFriendAddRequest(_) => "set_friend_add_request"@,
        ApiPayload::SetGroupAddRequest(_) => "set_group_add_request"@,
        ApiPayload::GetLoginInfo(_) => "get_login_info"@,
        ApiPayload::GetStrangerInfo(_) => "get_stranger_info"@,
        ApiPayload::GetFriendList(_) => "get_friend_list"@,
        ApiPayload::GetGroupInfo(_) => "get_group_info"@,
        ApiPayload::GetGroupList(_) => "get_group_list"@,
        ApiPayload::GetGroupMemberInfo(_) => "get_group_member_info"@,
        ApiPayload::GetGroupMemberList(_) => "get_group_member_list"@,
        ApiPayload::GetGroupHonorInfo(_) => "get_group_honor_info"@,
        ApiPayload::GetCookies(_) => "get_cookies"@,
        ApiPayload::GetCsrfToken(_) => "get_csrf_token"@,
        ApiPayload::GetCredentials(_) => "get_credentials"@,
        ApiPayload::GetRecord(_) => "get_record"@,
        ApiPayload::GetImage(_) => "get_image"@,
        ApiPayload::CanSendImage(_) => "can_send_image"@,
        ApiPayload::CanSendRecord(_) => "can_send_record"@,
        ApiPayload::GetStatus(_) => "get_status"@,
        ApiPayload::GetVersionInfo(_) => "get_version_info"@,
        ApiPayload::SetRestart(_) => "set_restart"@,
        ApiPayload::CleanCache(_) => "clean_cache"@,
        ApiPayload::SetQQAvatar(_) => "set_qq_avatar"@,
        ApiPayload::GetGroupSystemMsg(_) => "get_group_system_msg"@,
        ApiPayload::GetFile(_) => "get_file"@,
        ApiPayload::ForwardFriendSingleMsg(_) => "forward_friend_single_msg"@,
        ApiPayload::ForwardGroupSingleMsg(_) => "forward_group_single_msg"@,
        ApiPayload::SetMsgEmojiLike(_) => "set_msg_emoji_like"@,
        ApiPayload::MarkPrivateMsgAsRead(_) => "mark_private_msg_as_read"@,
        ApiPayload::MarkGroupMsgAsRead(_) => "mark_group_msg_as_read"@,
        ApiPayload::GetRobotUinRange(_) => "get_robot_uin_range"@,
        ApiPayload::SetOnlineStatus(_) => "set_online_status"@,
        ApiPayload::GetFriendsWithCategory(_) => "get_friends_with_category"@,
        ApiPayload::GetGroupFileCount(_) => "get_group_file_count"@,
        ApiPayload::GetGroupFileList(_) => "get_group_file_list"@,
        ApiPayload::SetGroupFileFolder(_) => "set_group_file_folder"@,
        ApiPayload::DelGroupFile(_) => "del_group_file"@,
        ApiPayload::DelGroupFileFolder(_) => "del_group_file_folder"@,
        ApiPayload::SendGroupForwardMsg(_) => "send_group_forward_msg"@,
        ApiPayload::SendPrivateForwardMsg(_) => "send_private_forward_msg"@,
    }
}

impl ApiPayload {
    /// The response-kind tag of this call.
    pub fn to_resp_type(&self) -> (r: u8)
        ensures
            r == resp_type_of(self),
    {
        match self {
            ApiPayload::SendPrivateMsg(_) => 1,
            ApiPayload::SendGroupMsg(_) => 2,
            ApiPayload::SendMsg(_) => 3,
            ApiPayload::DeleteMsg(_) => 4,
            ApiPayload::GetMsg(_) => 5,
            ApiPayload::GetForwardMsg(_) => 6,
            ApiPayload::SendLike(_) => 7,
            ApiPayload::SetGroupKick(_) => 8,
            ApiPayload::SetGroupBan(_) => 9,
            ApiPayload::SetGroupAnonymousBan(_) => 10,
            ApiPayload::SetGroupWholeBan(_) => 11,
            ApiPayload::SetGroupAdmin(_) => 12,
            ApiPayload::SetGroupAnonymous(_) => 13,
            ApiPayload::SetGroupCard(_) => 14,
            ApiPayload::SetGroupName(_) => 15,
            ApiPayload::SetGroupLeave(_) => 16,
            ApiPayload::SetGroupSpecialTitle(_) => 17,
            ApiPayload::SetFriendAddRequest(_) => 18,
            ApiPayload::SetGroupAddRequest(_) => 19,
            ApiPayload::GetLoginInfo(_) => 20,
            ApiPayload::GetStrangerInfo(_) => 21,
            ApiPayload::GetFriendList(_) => 22,
            ApiPayload::GetGroupInfo(_) => 23,
            ApiPayload::GetGroupList(_) => 24,
            ApiPayload::GetGroupMemberInfo(_) => 25,
            ApiPayload::GetGroupMemberList(_) => 26,
            ApiPayload::GetGroupHonorInfo(_) => 27,
            ApiPayload::GetCookies(_) => 28,
            ApiPayload::GetCsrfToken(_) => 29,
            ApiPayload::GetCredentials(_) => 30,
            ApiPayload::GetRecord(_) => 31,
            ApiPayload::GetImage(_) => 32,
            ApiPayload::CanSendImage(_) => 33,
            ApiPayload::CanSendRecord(_) => 34,
            ApiPayload::GetStatus(_) => 35,
            ApiPayload::GetVersionInfo(_) => 36,
            ApiPayload::SetRestart(_) => 37,
            ApiPayload::CleanCache(_) => 38,
            ApiPayload::SetQQAvatar(_) => 39,
            ApiPayload::GetGroupSystemMsg(_) => 40,
            ApiPayload::GetFile(_) => 41,
            ApiPayload::ForwardFriendSingleMsg(_) => 42,
            ApiPayload::ForwardGroupSingleMsg(_) => 43,
            ApiPayload::SetMsgEmojiLike(_) => 44,
            ApiPayload::MarkPrivateMsgAsRead(_) => 45,
            ApiPayload::MarkGroupMsgAsRead(_) => 46,
            ApiPayload::GetRobotUinRange(_) => 47,
            ApiPayload::SetOnlineStatus(_) => 48,
            ApiPayload::GetFriendsWithCategory(_) => 49,
            ApiPayload::GetGroupFileCount(_) => 50,
            ApiPayload::GetGroupFileList(_) => 51,
            ApiPayload::SetGroupFileFolder(_) => 52,
            ApiPayload::DelGroupFile(_) => 53,
            ApiPayload::DelGroupFileFolder(_) => 54,
            ApiPayload::SendGroupForwardMsg(_) => 55,
            ApiPayload::SendPrivateForwardMsg(_) => 56,
        }
    }

    /// The action name of this call.
    pub fn endpoint(&self) -> (r: String)
        ensures
            r@ == endpoint_of(self),
    {
        let name = match self {
            ApiPayload::SendPrivateMsg(_) => "send_private_msg",
            ApiPayload::SendGroupMsg(_) => "send_group_msg",
            ApiPayload::SendMsg(_) => "send_msg",
            ApiPayload::DeleteMsg(_) => "delete_msg",
            ApiPayload::GetMsg(_) => "get_msg",
            ApiPayload::GetForwardMsg(_) => "get_forward_msg",
            ApiPayload::SendLike(_) => "send_like",
            ApiPayload::SetGroupKick(_) => "set_group_kick",
            ApiPayload::SetGroupBan(_) => "set_group_ban",
            ApiPayload::SetGroupAnonymousBan(_) => "set_group_anonymous_ban",
            ApiPayload::SetGroupWholeBan(_) => "set_group_whole_ban",
            ApiPayload::SetGroupAdmin(_) => "set_group_admin",
            ApiPayload::SetGroupAnonymous(_) => "set_group_anonymous",
            ApiPayload::SetGroupCard(_) => "set_group_card",
            ApiPayload::SetGroupName(_) => "set_group_name",
            ApiPayload::SetGroupLeave(_) => "set_group_leave",
            ApiPayload::SetGroupSpecialTitle(_) => "set_group_special_title",
            ApiPayload::SetFriendAddRequest(_) => "set_friend_add_request",
            ApiPayload::SetGroupAddRequest(_) => "set_group_add_request",
            ApiPayload::GetLoginInfo(_) => "get_login_info",
            ApiPayload::GetStrangerInfo(_) => "get_stranger_info",
            ApiPayload::GetFriendList(_) => "get_friend_list",
            ApiPayload::GetGroupInfo(_) => "get_group_info",
            ApiPayload::GetGroupList(_) => "get_group_list",
            ApiPayload::GetGroupMemberInfo(_) => "get_group_member_info",
            ApiPayload::GetGroupMemberList(_) => "get_group_member_list",
            ApiPayload::GetGroupHonorInfo(_) => "get_group_honor_info",
            ApiPayload::GetCookies(_) => "get_cookies",
            ApiPayload::GetCsrfToken(_) => "get_csrf_token",
            ApiPayload::GetCredentials(_) => "get_credentials",
            ApiPayload::GetRecord(_) => "get_record",
            ApiPayload::GetImage(_) => "get_image",
            ApiPayload::CanSendImage(_) => "can_send_image",
            ApiPayload::CanSendRecord(_) => "can_send_record",
            ApiPayload::GetStatus(_) => "get_status",
            ApiPayload::GetVersionInfo(_) => "get_version_info",
            ApiPayload::SetRestart(_) => "set_restart",
            ApiPayload::CleanCache(_) => "clean_cache",
            ApiPayload::SetQQAvatar(_) => "set_qq_avatar",
            ApiPayload::GetGroupSystemMsg(_) => "get_group_system_msg",
            ApiPayload::GetFile(_) => "get_file",
            ApiPayload::ForwardFriendSingleMsg(_) => "forward_friend_single_msg",
            ApiPayload::ForwardGroupSingleMsg(_) => "forward_group_single_msg",
            ApiPayload::SetMsgEmojiLike(_) => "set_msg_emoji_like",
            ApiPayload::MarkPrivateMsgAsRead(_) => "mark_private_msg_as_read",
            ApiPayload::MarkGroupMsgAsRead(_) => "mark_group_msg_as_read",
            ApiPayload::GetRobotUinRange(_) => "get_robot_uin_range",
            ApiPayload::SetOnlineStatus(_) => "set_online_status",
            ApiPayload::GetFriendsWithCategory(_) => "get_friends_with_category",
            ApiPayload::GetGroupFileCount(_) => "get_group_file_count",
            ApiPayload::GetGroupFileList(_) => "get_group_file_list",
            ApiPayload::SetGroupFileFolder(_) => "set_group_file_folder",
            ApiPayload::DelGroupFile(_) => "del_group_file",
            ApiPayload::DelGroupFileFolder(_) => "del_group_file_folder",
            ApiPayload::SendGroupForwardMsg(_) => "send_group_forward_msg",
            ApiPayload::SendPrivateForwardMsg(_) => "send_private_forward_msg",
        };
        String::from_str(name)
    }
}

} // verus!
