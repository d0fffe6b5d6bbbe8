use vstd::prelude::*;

verus! {

/// The bot's own identity, as `getMe` reports it.
#[derive(Debug)]
pub struct UserResponse {
    pub id: i64,
    pub is_bot: bool,
    pub first_name: String,
    pub last_name: Option<String>,
    pub username: Option<String>,
    pub language_code: Option<String>,
    pub is_premium: Option<bool>,
    pub added_to_attachment_menu: Option<bool>,
    pub can_join_groups: Option<bool>,
    pub can_read_all_group_messages: Option<bool>,
    pub supports_inline_queries: Option<bool>,
}

/// One entry of a `getUpdates` batch: the update's cursor id and the event
/// it carries.
#[derive(Debug, Clone)]
pub struct UpdateResponse {
    pub update_id: i64,
    pub event: UpdateEvent,
}

/// The sender block of an inbound message.
#[derive(Debug, Clone, Copy, PartialEq, Eq, Structural)]
pub struct FromBlock {
    pub id: u64,
}

/// The chat block of an inbound message.
#[derive(Debug, Clone, Copy, PartialEq, Eq, Structural)]
pub struct ChatBlock {
    pub id: u64,
}

/// An inbound chat message: its id, who sent it, where, and its text.
#[derive(Debug, Clone)]
pub struct Message {
    pub message_id: u64,
    pub from: FromBlock,
    pub chat: ChatBlock,
    pub text: String,
}

/// An inbound chat event; only plain messages are understood today.
#[derive(Debug, Clone)]
pub enum UpdateEvent {
    Message(Message),
}

/// The reply target attached to an outbound message.
#[derive(Debug, Clone, Copy, PartialEq, Eq, Structural)]
pub struct ReplyParameters {
    pub message_id: u64,
}

/// An outbound `sendMessage` payload.
#[derive(Debug)]
pub struct MessageRequest {
    pub chat_id: u64,
    pub text: String,
    pub reply_parameters: Option<ReplyParameters>,
}

impl MessageRequest {
    /// A `sendMessage` payload for `chat_id` holding `text`, replying to
    /// `reply_to` when one is given.
    pub fn new(chat_id: u64, text: String, reply_to: Option<u64>) -> (r: Self)
        ensures
            r.chat_id == chat_id,
            r.text == text,
            r.reply_parameters == match reply_to {
                None => None::<ReplyParameters>,
                Some(id) => Some((ReplyParameters { message_id: id })),
            },
    {
        let reply_params = match reply_to {
            None => None,
            Some(id) => Some(ReplyParameters { message_id: id }),
        };
        MessageRequest { chat_id, text, reply_parameters: reply_params }
    }
}

/// An outbound `editMessageText` payload.
#[derive(Debug)]
pub struct EditMessageRequest {
    pub chat_id: u64,
    pub message_id: u64,
    pub text: String,
}

/// The chat actions the bot can announce.
pub struct Action {}

impl Action {
    pub const TYPING: &'static str = "typing";
}

/// An outbound `sendChatAction` payload.
#[derive(Debug)]
pub struct ActionRequest {
    pub chat_id: u64,
    pub action: String,
}

} // verus!
