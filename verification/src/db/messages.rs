//! The rows of the event log: one for each update, under the update's number.

use crate::decimal::{decimal_text, format_i64, format_u64, signed_text};
use crate::update::{clone_opt_text, opt_text, TgMessage, Update, UpdateKind, UpdateKindView, UpdateView};
use vstd::prelude::*;
use vstd::string::StringExecFns;

verus! {

/// The row that records one update.
#[derive(Debug)]
pub struct Message {
    pub update_id: i32,
    pub chat_id: Option<i64>,
    pub message_id: Option<i32>,
    pub kind: String,
    pub from_id: Option<u64>,
    pub content: Option<String>,
    pub raw: Option<String>,
}

/// A `Message` as plain values.
pub struct MessageView {
    pub update_id: i32,
    pub chat_id: Option<i64>,
    pub message_id: Option<i32>,
    pub kind: Seq<char>,
    pub from_id: Option<u64>,
    pub content: Option<Seq<char>>,
    pub raw: Option<Seq<char>>,
}

impl View for Message {
    type V = MessageView;

    open spec fn view(&self) -> MessageView {
        MessageView {
            update_id: self.update_id,
            chat_id: self.chat_id,
            message_id: self.message_id,
            kind: self.kind@,
            from_id: self.from_id,
            content: opt_text(self.content),
            raw: opt_text(self.raw),
        }
    }
}

impl Clone for Message {
    fn clone(&self) -> (copy: Self)
        ensures
            copy@ == self@,
    {
        Message {
            update_id: self.update_id,
            chat_id: self.chat_id,
            message_id: self.message_id,
            kind: self.kind.clone(),
            from_id: self.from_id,
            content: clone_opt_text(&self.content),
            raw: clone_opt_text(&self.raw),
        }
    }
}

/// The views of a run of rows, in its order.
pub open spec fn row_views(rows: Seq<Message>) -> Seq<MessageView> {
    rows.map_values(|m: Message| m@)
}

impl UpdateKindView {
    /// The tag under which the log records the kind.
    pub open spec fn name(self) -> Seq<char> {
        match self {
            UpdateKindView::Message(_) => "Message"@,
            UpdateKindView::EditedMessage(_) => "EditedMessage"@,
            UpdateKindView::ChannelPost(_) => "ChannelPost"@,
            UpdateKindView::EditedChannelPost(_) => "EditedChannelPost"@,
            UpdateKindView::InlineQuery => "InlineQuery"@,
            UpdateKindView::ChosenInlineResult => "ChosenInlineResult"@,
            UpdateKindView::CallbackQuery => "CallbackQuery"@,
            UpdateKindView::ShippingQuery => "ShippingQuery"@,
            UpdateKindView::PreCheckoutQuery => "PreCheckoutQuery"@,
            UpdateKindView::Poll => "Poll"@,
            UpdateKindView::PollAnswer => "PollAnswer"@,
            UpdateKindView::MyChatMember => "MyChatMember"@,
            UpdateKindView::ChatMember => "ChatMember"@,
            UpdateKindView::ChatJoinRequest => "ChatJoinRequest"@,
            UpdateKindView::Error => "Error"@,
        }
    }
}

/// The tag under which the log records the kind of an update.
pub fn upd_kind_to_string(kind: &UpdateKind) -> (name: &'static str)
    ensures
        name@ == kind@.name(),
{
    match kind {
        UpdateKind::Message(_) => "Message",
        UpdateKind::EditedMessage(_) => "EditedMessage",
        UpdateKind::ChannelPost(_) => "ChannelPost",
        UpdateKind::EditedChannelPost(_) => "EditedChannelPost",
        UpdateKind::InlineQuery => "InlineQuery",
        UpdateKind::ChosenInlineResult => "ChosenInlineResult",
        UpdateKind::CallbackQuery => "CallbackQuery",
        UpdateKind::ShippingQuery => "ShippingQuery",
        UpdateKind::PreCheckoutQuery => "PreCheckoutQuery",
        UpdateKind::Poll => "Poll",
        UpdateKind::PollAnswer => "PollAnswer",
        UpdateKind::MyChatMember => "MyChatMember",
        UpdateKind::ChatMember => "ChatMember",
        UpdateKind::ChatJoinRequest => "ChatJoinRequest",
        UpdateKind::Error => "Error",
    }
}

/// What the log keeps of a message: its chat, its number, the sender's number
/// and the text.
pub fn parse_message(msg: &TgMessage) -> (parts: (
    Option<i64>,
    Option<i32>,
    Option<u64>,
    Option<String>,
))
    ensures
        parts.0 == Some(msg.chat_id),
        parts.1 == Some(msg.id),
        parts.2 == match msg@.from {
            Some(user) => Some(user.id),
            None => None,
        },
        opt_text(parts.3) == msg@.text,
{
    let from_id = match &msg.from {
        Some(user) => Some(user.id),
        None => None,
    };
    (Some(msg.chat_id), Some(msg.id), from_id, clone_opt_text(&msg.text))
}

/// What the log keeps of an update that carries no message: nothing.
pub fn parse_unknown() -> (parts: (Option<i64>, Option<i32>, Option<u64>, Option<String>))
    ensures
        parts.0 is None,
        parts.1 is None,
        parts.2 is None,
        parts.3 is None,
{
    (None, None, None, None)
}

impl UpdateView {
    /// The row that records the update: its number, the tag of its kind, what
    /// it was received as and, where it carries a message, the message's chat,
    /// number, sender and text.
    pub open spec fn row(self) -> MessageView {
        match self.kind.message() {
            Some(m) => MessageView {
                update_id: self.id,
                chat_id: Some(m.chat_id),
                message_id: Some(m.id),
                kind: self.kind.name(),
                from_id: match m.from {
                    Some(user) => Some(user.id),
                    None => None,
                },
                content: m.text,
                raw: self.raw,
            },
            None => MessageView {
                update_id: self.id,
                chat_id: None,
                message_id: None,
                kind: self.kind.name(),
                from_id: None,
                content: None,
                raw: self.raw,
            },
        }
    }
}

impl Message {
    /// The row that records `update`.
    pub fn from(update: &Update) -> (row: Self)
        ensures
            row@ == update@.row(),
    {
        let (chat_id, message_id, from_id, content) = match &update.kind {
            UpdateKind::Message(message) => parse_message(message),
            UpdateKind::EditedMessage(message) => parse_message(message),
            UpdateKind::ChannelPost(message) => parse_message(message),
            UpdateKind::EditedChannelPost(message) => parse_message(message),
            UpdateKind::InlineQuery => parse_unknown(),
            UpdateKind::ChosenInlineResult => parse_unknown(),
            UpdateKind::CallbackQuery => parse_unknown(),
            UpdateKind::ShippingQuery => parse_unknown(),
            UpdateKind::PreCheckoutQuery => parse_unknown(),
            UpdateKind::Poll => parse_unknown(),
            UpdateKind::PollAnswer => parse_unknown(),
            UpdateKind::MyChatMember => parse_unknown(),
            UpdateKind::ChatMember => parse_unknown(),
            UpdateKind::ChatJoinRequest => parse_unknown(),
            UpdateKind::Error => parse_unknown(),
        };
        Message {
            update_id: update.id,
            chat_id,
            message_id,
            kind: String::from_str(upd_kind_to_string(&update.kind)),
            from_id,
            content,
            raw: clone_opt_text(&update.raw),
        }
    }
}

/// The values that the insert statement binds for a row, in the order of its
/// parameters.
#[derive(Debug)]
pub struct InsertValues {
    pub update_id: i32,
    pub kind: String,
    /// The chat's number, as decimal text.
    pub chat_id: Option<String>,
    pub message_id: Option<i32>,
    /// The sender's number, as decimal text.
    pub from_id: Option<String>,
    pub content: Option<String>,
    pub raw: Option<String>,
}

/// `InsertValues` as plain values.
pub struct InsertValuesView {
    pub update_id: i32,
    pub kind: Seq<char>,
    pub chat_id: Option<Seq<char>>,
    pub message_id: Option<i32>,
    pub from_id: Option<Seq<char>>,
    pub content: Option<Seq<char>>,
    pub raw: Option<Seq<char>>,
}

impl View for InsertValues {
    type V = InsertValuesView;

    open spec fn view(&self) -> InsertValuesView {
        InsertValuesView {
            update_id: self.update_id,
            kind: self.kind@,
            chat_id: opt_text(self.chat_id),
            message_id: self.message_id,
            from_id: opt_text(self.from_id),
            content: opt_text(self.content),
            raw: opt_text(self.raw),
        }
    }
}

impl MessageView {
    /// The values to bind for the row: the numbers of the chat and of the
    /// sender as decimal text, everything else as it is.
    pub open spec fn insert_values(self) -> InsertValuesView {
        InsertValuesView {
            update_id: self.update_id,
            kind: self.kind,
            chat_id: match self.chat_id {
                Some(chat) => Some(signed_text(chat as int)),
                None => None,
            },
            message_id: self.message_id,
            from_id: match self.from_id {
                Some(user) => Some(decimal_text(user as nat)),
                None => None,
            },
            content: self.content,
            raw: self.raw,
        }
    }
}

impl Message {
    /// The values that the insert statement binds for the row.
    pub fn insert_values(&self) -> (values: InsertValues)
        ensures
            values@ == self@.insert_values(),
    {
        let chat_id = match self.chat_id {
            Some(chat) => Some(format_i64(chat)),
            None => None,
        };
        let from_id = match self.from_id {
            Some(user) => Some(format_u64(user)),
            None => None,
        };
        InsertValues {
            update_id: self.update_id,
            kind: self.kind.clone(),
            chat_id,
            message_id: self.message_id,
            from_id,
            content: clone_opt_text(&self.content),
            raw: clone_opt_text(&self.raw),
        }
    }
}

} // verus!
