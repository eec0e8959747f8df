//! The content model: the segments a message is made of.
use vstd::prelude::*;
use crate::json::empty_object;

verus! {

#[derive(Debug, PartialEq, Eq)]
pub enum MessageSegment {
    // 文本
    Text { data: TextData },
    // qq表情
    Face { data: FaceData },
    // qq商店表情
    Mface { data: MfaceData },
    // @
    At { data: AtData },
    // 图片
    Image { data: ImageData },
    // 语音
    Record { data: RecordData },
    // 视频
    Video { data: VideoData },
    // 文件
    File { data: File },
    // 猜拳魔法表情
    Rps {
        // 发: {}
        data: serde_json::Value,
    },
    // 掷骰子魔法表情
    Dice {
        // 发: {}
        data: serde_json::Value,
    },
    // 窗口抖动（戳一戳）
    Shake {
        // 发: {}
        data: serde_json::Value,
    },
    // 戳一戳
    Poke { data: PokeData },
    // 匿名发消息
    Anonymous { data: AnonymousData },
    // 分享
    Share { data: ShareData },
    // 推荐好友或群
    Contact { data: ContactData },
    // 位置
    Location { data: LocationData },
    // 音乐分享
    Music { data: MusicData },
    // 自定义音乐分享
    CustomMusic { data: CustomMusicData },
    // 回复
    Reply { data: ReplyData },
    // 合并转发
    Forward { data: ForwardData },
    // 合并转发节点
    Node { data: NodeData },
    // 合并转发自定义节点
    CustomNode { data: CustomNodeData },
    // xml消息
    Xml { data: XmlData },
    // json消息
    Json { data: JsonData },
}

#[derive(Clone, Debug, PartialEq, Eq)]
pub struct TextData {
    // 文本内容
    pub text: String,
}

#[derive(Clone, Debug, PartialEq, Eq)]
pub struct FaceData {
    // QQ 表情的 ID
    pub id: String,
}

#[derive(Clone, Debug, PartialEq, Eq)]
pub struct ImageData {
    // 图片文件名, 使用收到的图片文件名直接发送
    // 绝对路径，例如 file:///C:\\Users\Richard\Pictures\1.png，格式使用 file URI
    // 网络 URL，例如 http://i1.piimg.com/567571/fdd6e7b6d93f1ef0.jpg
    // Base64 编码，例如 base64://iVBORw0KGgoAAAANSUhEUgAAABQAAAAVCAIAAADJt1n/AAAAKElEQVQ4EWPk5+RmIBcwkasRpG9UM4mhNxpgowFGMARGEwnBIEJVAAAdBgBNAZf+QAAAAABJRU5ErkJggg==
    pub file: String,

    // 图片类型, flash 表示闪照, 无此参数表示普通图片
    pub type_: Option<String>,

    // 发: 自定义图片预览信息
    pub summary: Option<String>,

    // 收
    // 图片 URL
    pub url: Option<String>,

    // 发
    // 可选0 1, 只在通过网络 URL 发送时有效, 表示是否使用已缓存的文件, 默认 1
    pub cache: Option<u8>,

    // 发
    // 可选0 1, 只在通过网络 URL 发送时有效，表示是否通过代理下载文件（需通过环境变量或配置文件配置代理），默认 1
    pub proxy: Option<u8>,

    // 发
    // 只在通过网络 URL 发送时有效，单位秒，表示下载网络文件的超时时间，默认不超时
    pub timeout: Option<u32>,
}

#[derive(Clone, Debug, PartialEq, Eq)]
pub struct RecordData {
    // 语音文件名, 使用收到的语音文件名直接发送
    // 以下为来自图片消息段的参考
    // 绝对路径，例如 file:///C:\\Users\Richard\Pictures\1.png，格式使用 file URI
    // 网络 URL，例如 http://i1.piimg.com/567571/fdd6e7b6d93f1ef0.jpg
    // Base64 编码，例如 base64://iVBORw0KGgoAAAANSUhEUgAAABQAAAAVCAIAAADJt1n/AAAAKElEQVQ4EWPk5+RmIBcwkasRpG9UM4mhNxpgowFGMARGEwnBIEJVAAAdBgBNAZf+QAAAAABJRU5ErkJggg==
    pub file: String,

    // 发送时可选，默认 0，设置为 1 表示变声
    pub magic: Option<u8>,

    // 收
    // 语音 URL
    pub url: Option<String>,

    // 发
    // 只在通过网络 URL 发送时有效，表示是否使用已缓存的文件，默认 1
    pub cache: Option<u8>,

    // 发
    // 只在通过网络 URL 发送时有效，表示是否通过代理下载文件（需通过环境变量或配置文件配置代理），默认 1
    pub proxy: Option<u8>,

    // 发
    // 只在通过网络 URL 发送时有效，单位秒，表示下载网络文件的超时时间 ，默认不超时
    pub timeout: Option<u32>,
}

#[derive(Clone, Debug, PartialEq, Eq)]
pub struct VideoData {
    // 视频文件名, 使用收到的视频文件名直接发送
    // 以下为来自图片消息段的参考
    // 绝对路径，例如 file:///C:\\Users\Richard\Pictures\1.png，格式使用 file URI
    // 网络 URL，例如 http://i1.piimg.com/567571/fdd6e7b6d93f1ef0.jpg
    // Base64 编码，例如 base64://iVBORw0KGgoAAAANSUhEUgAAABQAAAAVCAIAAADJt1n/AAAAKElEQVQ4EWPk5+RmIBcwkasRpG9UM4mhNxpgowFGMARGEwnBIEJVAAAdBgBNAZf+QAAAAABJRU5ErkJggg==
    pub file: String,

    // 收
    // 视频 URL
    pub url: Option<String>,

    // 发
    // 只在通过网络 URL 发送时有效，表示是否使用已缓存的文件，默认 1
    pub cache: Option<u8>,

    // 发
    // 只在通过网络 URL 发送时有效，表示是否通过代理下载文件（需通过环境变量或配置文件配置代理），默认 1
    pub proxy: Option<u8>,

    // 发
    // 只在通过网络 URL 发送时有效，单位秒，表示下载网络文件的超时时间 ，默认不超时
    pub timeout: Option<u32>,
}

#[derive(Clone, Debug, PartialEq, Eq)]
pub struct AtData {
    // @的 QQ 号，all 表示全体成员
    pub qq: String,
}

#[derive(Clone, Debug, PartialEq, Eq)]
pub struct PokeData {
    // 类型，见 Mirai 的 PokeMessage 类
    pub type_: String,
    // ID
    pub id: String,
}

#[derive(Clone, Debug, PartialEq, Eq)]
pub struct AnonymousData {
    // 可选，表示无法匿名时是否继续发送
    pub ignore: Option<u8>,
}

#[derive(Clone, Debug, PartialEq, Eq)]
pub struct ShareData {
    // URL
    pub url: String,
    // 标题
    pub title: String,
    // 发送时可选，内容描述
    pub content: Option<String>,
    // 发送时可选，图片 URL
    pub image: Option<String>,
}

#[derive(Clone, Debug, PartialEq, Eq)]
pub enum ContactType {
    Group,
    QQ,
}

#[derive(Clone, Debug, PartialEq, Eq)]
pub struct ContactData {
    // group 或 qq
    pub type_: ContactType,
    // 被推荐人的 QQ 号或被推荐群的群号
    pub id: String,
}

#[derive(Clone, Debug, PartialEq, Eq)]
pub struct LocationData {
    // 纬度
    pub lat: String,
    // 经度
    pub lon: String,
    // 发送时可选，标题
    pub title: Option<String>,
    // 发送时可选，内容描述
    pub content: Option<String>,
}

#[derive(Clone, Debug, PartialEq, Eq)]
pub struct MusicData {
    // 分别表示使用 QQ 音乐、网易云音乐、虾米音乐
    pub type_: String,
    // 歌曲 ID
    pub id: String,
}

#[derive(Clone, Debug, PartialEq, Eq)]
pub struct CustomMusicData {
    // 表示音乐自定义分享
    pub type_: String,
    // 点击后跳转目标 URL
    pub url: String,
    // 音乐 URL
    pub audio: String,
    // 标题
    pub title: String,
    // 发送时可选，内容描述
    pub content: Option<String>,
    // 发送时可选，图片 URL
    pub image: Option<String>,
}

#[derive(Clone, Debug, PartialEq, Eq)]
pub struct ReplyData {
    // 回复时引用的消息 ID
    pub id: String,
}

#[derive(Clone, Debug, PartialEq, Eq)]
pub struct ForwardData {
    pub id: String,
}

// 合并转发节点
#[derive(Clone, Debug, PartialEq, Eq)]
pub struct NodeData {
    // 转发的消息 ID
    pub id: String,
}

// 自定义合并转发节点
// 非obv11定义，而是适用于lagrand/gocq/llonebot/NapCat
#[derive(Debug, PartialEq, Eq)]
pub struct CustomNodeData {
    // 自定义昵称(已失效)
    pub name: Option<String>,
    // 自定义qq号(已失效)
    pub uin: Option<i64>,
    // 自定义内容
    pub content: Vec<MessageSegment>,
}

#[derive(Clone, Debug, PartialEq, Eq)]
pub struct XmlData {
    // XML 内容
    pub data: String,
}

#[derive(Clone, Debug, PartialEq, Eq)]
pub struct JsonData {
    // JSON 内容
    pub data: String,
}

// onebot_v11某些变体的实现，如llonebot/NapCat
#[derive(Clone, Debug, PartialEq, Eq)]
pub struct MfaceData {
    pub summary: String,
    pub url: String,
    pub emoji_id: String,
    pub emoji_package_id: String,
    pub key: String,
}

// onebot_v11某些变体的实现，如llonebot/NapCat
#[derive(Clone, Debug, PartialEq, Eq)]
pub struct File {
    // 收: 文件名称 发： 文件路径
    pub file: String,
    // 发: 自定义文件名称
    pub name: Option<String>,
    // 收
    // 文件路径
    pub path: String,
    // 收
    // 文件 URL
    pub url: Option<String>,
    // 收
    // 文件 ID
    pub file_id: String,
    // 收
    // 文件大小
    pub file_size: String,
}

/// How an optional yes/no switch is written on the wire: `1` or `0`.
pub open spec fn flag(b: Option<bool>) -> Option<u8> {
    match b {
        Some(true) => Some(1u8),
        Some(false) => Some(0u8),
        None => None,
    }
}

fn flag_of(b: Option<bool>) -> (r: Option<u8>)
    ensures
        r == flag(b),
{
    match b {
        Some(true) => Some(1),
        Some(false) => Some(0),
        None => None,
    }
}

impl MessageSegment {
    /// Plain text.
    pub fn text(text: String) -> (r: Self)
        ensures
            r == (MessageSegment::Text { data: TextData { text } }),
    {
        MessageSegment::Text { data: TextData { text } }
    }

    /// A built-in face, by id.
    pub fn face(id: String) -> (r: Self)
        ensures
            r == (MessageSegment::Face { data: FaceData { id } }),
    {
        MessageSegment::Face { data: FaceData { id } }
    }

    /// A sticker from the sticker store.
    pub fn mface(
        summary: String,
        url: String,
        emoji_id: String,
        emoji_package_id: String,
        key: String,
    ) -> (r: Self)
        ensures
            r == (MessageSegment::Mface {
                data: MfaceData { summary, url, emoji_id, emoji_package_id, key },
            }),
    {
        MessageSegment::Mface { data: MfaceData { summary, url, emoji_id, emoji_package_id, key } }
    }

    /// A mention of a user (`all` for everyone).
    pub fn at(qq: String) -> (r: Self)
        ensures
            r == (MessageSegment::At { data: AtData { qq } }),
    {
        MessageSegment::At { data: AtData { qq } }
    }

    /// An image with default options.
    pub fn easy_image(file: String, summary: Option<String>) -> (r: Self)
        ensures
            r == (MessageSegment::Image {
                data: ImageData {
                    file,
                    type_: None,
                    summary,
                    url: None,
                    cache: None,
                    proxy: None,
                    timeout: None,
                },
            }),
    {
        MessageSegment::Image {
            data: ImageData {
                file,
                type_: None,
                summary,
                url: None,
                cache: None,
                proxy: None,
                timeout: None,
            },
        }
    }

    /// An image; the switches are sent as `1` or `0`.
    pub fn image(
        file: String,
        summary: Option<String>,
        type_: Option<String>,
        cache: Option<bool>,
        proxy: Option<bool>,
        timeout: Option<u32>,
    ) -> (r: Self)
        ensures
            r == (MessageSegment::Image {
                data: ImageData {
                    file,
                    type_,
                    summary,
                    url: None,
                    cache: flag(cache),
                    proxy: flag(proxy),
                    timeout,
                },
            }),
    {
        MessageSegment::Image {
            data: ImageData {
                file,
                type_,
                summary,
                url: None,
                cache: flag_of(cache),
                proxy: flag_of(proxy),
                timeout,
            },
        }
    }

    /// A voice recording; the switches are sent as `1` or `0`.
    pub fn record(
        file: String,
        magic: Option<bool>,
        url: Option<String>,
        cache: Option<bool>,
        proxy: Option<bool>,
        timeout: Option<u32>,
    ) -> (r: Self)
        ensures
            r == (MessageSegment::Record {
                data: RecordData {
                    file,
                    magic: flag(magic),
                    url,
                    cache: flag(cache),
                    proxy: flag(proxy),
                    timeout,
                },
            }),
    {
        MessageSegment::Record {
            data: RecordData {
                file,
                magic: flag_of(magic),
                url,
                cache: flag_of(cache),
                proxy: flag_of(proxy),
                timeout,
            },
        }
    }

    /// A video; the switches are sent as `1` or `0`.
    pub fn video(
        file: String,
        url: Option<String>,
        cache: Option<bool>,
        proxy: Option<bool>,
        timeout: Option<u32>,
    ) -> (r: Self)
        ensures
            r == (MessageSegment::Video {
                data: VideoData { file, url, cache: flag(cache), proxy: flag(proxy), timeout },
            }),
    {
        MessageSegment::Video {
            data: VideoData { file, url, cache: flag_of(cache), proxy: flag_of(proxy), timeout },
        }
    }

    /// A file to send; the fields only received are left empty.
    pub fn file(file: String, name: Option<String>) -> (r: Self)
        ensures
            r is File,
            r->File_data.file == file,
            r->File_data.name == name,
            r->File_data.path@ == Seq::<char>::empty(),
            r->File_data.url.is_none(),
            r->File_data.file_id@ == Seq::<char>::empty(),
            r->File_data.file_size@ == Seq::<char>::empty(),
    {
        MessageSegment::File {
            data: File {
                file,
                name,
                path: String::new(),
                url: None,
                file_id: String::new(),
                file_size: String::new(),
            },
        }
    }

    /// A poke of the given kind.
    pub fn poke(type_: String, id: String) -> (r: Self)
        ensures
            r == (MessageSegment::Poke { data: PokeData { type_, id } }),
    {
        MessageSegment::Poke { data: PokeData { type_, id } }
    }

    /// Send anonymously; `ignore` says whether to send anyway when that is not possible.
    pub fn anonymous(ignore: Option<bool>) -> (r: Self)
        ensures
            r == (MessageSegment::Anonymous { data: AnonymousData { ignore: flag(ignore) } }),
    {
        MessageSegment::Anonymous { data: AnonymousData { ignore: flag_of(ignore) } }
    }

    /// A recommended user or group.
    pub fn contact(type_: ContactType, id: String) -> (r: Self)
        ensures
            r == (MessageSegment::Contact { data: ContactData { type_, id } }),
    {
        MessageSegment::Contact { data: ContactData { type_, id } }
    }

    /// A song shared from a music platform.
    pub fn music(type_: String, id: String) -> (r: Self)
        ensures
            r == (MessageSegment::Music { data: MusicData { type_, id } }),
    {
        MessageSegment::Music { data: MusicData { type_, id } }
    }

    /// A song shared with custom details.
    pub fn music_custom(
        type_: String,
        url: String,
        audio: String,
        title: String,
        content: Option<String>,
        image: Option<String>,
    ) -> (r: Self)
        ensures
            r == (MessageSegment::CustomMusic {
                data: CustomMusicData { type_, url, audio, title, content, image },
            }),
    {
        MessageSegment::CustomMusic {
            data: CustomMusicData { type_, url, audio, title, content, image },
        }
    }

    /// A reply to the message with this id.
    pub fn reply(id: String) -> (r: Self)
        ensures
            r == (MessageSegment::Reply { data: ReplyData { id } }),
    {
        MessageSegment::Reply { data: ReplyData { id } }
    }

    /// A forwarded message bundle, by id.
    pub fn forward(id: String) -> (r: Self)
        ensures
            r == (MessageSegment::Forward { data: ForwardData { id } }),
    {
        MessageSegment::Forward { data: ForwardData { id } }
    }

    /// A forward node that refers to an existing message.
    pub fn node(id: String) -> (r: Self)
        ensures
            r == (MessageSegment::Node { data: NodeData { id } }),
    {
        MessageSegment::Node { data: NodeData { id } }
    }

    /// A forward node with its own content and no custom sender.
    pub fn easy_custom_node(content: Vec<MessageSegment>) -> (r: Self)
        ensures
            r == (MessageSegment::CustomNode {
                data: CustomNodeData { name: None, uin: None, content },
            }),
    {
        MessageSegment::CustomNode { data: CustomNodeData { name: None, uin: None, content } }
    }

    /// A forward node with its own content and sender.
    pub fn custom_node(uin: i64, name: String, content: Vec<MessageSegment>) -> (r: Self)
        ensures
            r == (MessageSegment::CustomNode {
                data: CustomNodeData { name: Some(name), uin: Some(uin), content },
            }),
    {
        MessageSegment::CustomNode {
            data: CustomNodeData { name: Some(name), uin: Some(uin), content },
        }
    }

    /// Rock-paper-scissors.
    pub fn rps() -> (r: Self)
        ensures
            r is Rps,
    {
        MessageSegment::Rps { data: empty_object() }
    }

    /// A rolled die.
    pub fn dice() -> (r: Self)
        ensures
            r is Dice,
    {
        MessageSegment::Dice { data: empty_object() }
    }

    /// A window shake.
    pub fn shake() -> (r: Self)
        ensures
            r is Shake,
    {
        MessageSegment::Shake { data: empty_object() }
    }

    /// A shared link.
    pub fn share(url: String, title: String, content: Option<String>, image: Option<String>) -> (r:
        Self)
        ensures
            r == (MessageSegment::Share { data: ShareData { url, title, content, image } }),
    {
        MessageSegment::Share { data: ShareData { url, title, content, image } }
    }

    /// A location.
    pub fn location(lat: String, lon: String, title: Option<String>, content: Option<String>) -> (r:
        Self)
        ensures
            r == (MessageSegment::Location { data: LocationData { lat, lon, title, content } }),
    {
        MessageSegment::Location { data: LocationData { lat, lon, title, content } }
    }
}

} // verus!
