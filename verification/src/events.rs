//! The platform-independent event model: what the evaluation pipeline
//! reads of an incoming update. The surrounding program maps the
//! platform's native update type onto these plain values; every text
//! surface an attacker could use (display names, body, caption, embedded
//! link targets, forwarding-source names) appears here explicitly.

use vstd::prelude::*;

verus! {

/// An acting user: the numeric identity enforcement targets, and the
/// displayed name the identity rules are tested against.
#[derive(Debug)]
pub struct UserInfo {
    pub id: u64,
    pub full_name: String,
}

impl UserInfo {
    /// An equal copy.
    pub fn duplicate(&self) -> (r: UserInfo)
        ensures
            r == *self,
    {
        UserInfo { id: self.id, full_name: self.full_name.clone() }
    }
}

/// The chat an event happened in.
#[derive(Debug)]
pub struct ChatInfo {
    pub id: i64,
    pub title: Option<String>,
}

/// The text-bearing shape of a common message's media.
#[derive(Debug)]
pub enum MediaBody {
    /// A plain text message, with its body.
    Text(String),
    /// A sticker: carries no text of its own and is expected, so its
    /// absence of text is not reported.
    Sticker,
    /// Any other media kind: its caption is the content text; without a
    /// caption the media kind is unsupported and reported as such.
    Other,
}

/// An ordinary posted or edited message.
#[derive(Debug)]
pub struct CommonMessage {
    pub media: MediaBody,
    pub caption: Option<String>,
    /// Target URLs of entities that display one text over a different
    /// link, in entity order.
    pub link_targets: Vec<String>,
    /// The original sender, when the message was forwarded from a user.
    pub forward_from_user: Option<UserInfo>,
    /// The source chat's title, when the message was forwarded from a chat.
    pub forward_from_chat_title: Option<String>,
}

/// What a message event carries.
#[derive(Debug)]
pub enum MessageDetail {
    /// A membership-join service message, with the joining members.
    NewChatMembers(Vec<UserInfo>),
    /// An ordinary message.
    Common(CommonMessage),
}

/// One message-like event.
#[derive(Debug)]
pub struct MessageEvent {
    pub chat: ChatInfo,
    pub message_id: i32,
    pub sender: Option<UserInfo>,
    pub detail: MessageDetail,
}

/// An incoming update: a new message, an edited message, or anything else,
/// which the engine ignores.
#[derive(Debug)]
pub enum UpdateEvent {
    Message(MessageEvent),
    EditedMessage(MessageEvent),
    Other,
}

/// The message a new or edited-message update carries.
pub open spec fn event_of(u: UpdateEvent) -> Option<MessageEvent> {
    match u {
        UpdateEvent::Message(m) => Some(m),
        UpdateEvent::EditedMessage(m) => Some(m),
        UpdateEvent::Other => None,
    }
}

/// The content text of a common message: the body of a text message, else
/// the caption, else nothing.
pub open spec fn content_text_of(c: CommonMessage) -> Option<Seq<char>> {
    match c.media {
        MediaBody::Text(t) => Some(t@),
        _ => match c.caption {
            Some(cap) => Some(cap@),
            None => None,
        },
    }
}

/// Picks the content text of a common message, as [`content_text_of`]
/// describes.
pub fn content_text(c: &CommonMessage) -> (r: Option<String>)
    ensures
        r matches Some(t) ==> content_text_of(*c) == Some(t@),
        r is None <==> content_text_of(*c) is None,
{
    match &c.media {
        MediaBody::Text(t) => Some(t.clone()),
        _ => match &c.caption {
            Some(cap) => Some(cap.clone()),
            None => None,
        },
    }
}

} // verus!
