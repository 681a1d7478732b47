//! Updates of the messaging platform, held as plain values.
//!
//! Only what the pipeline reads is kept: the update's number and kind and, for
//! the four kinds that carry a message, its chat, number, sender and text.

use vstd::prelude::*;

verus! {

/// The view of an optional string.
pub open spec fn opt_text(text: Option<String>) -> Option<Seq<char>> {
    match text {
        Some(t) => Some(t@),
        None => None,
    }
}

/// Copies an optional string.
pub fn clone_opt_text(text: &Option<String>) -> (copy: Option<String>)
    ensures
        opt_text(copy) == opt_text(*text),
{
    match text {
        Some(t) => Some(t.clone()),
        None => None,
    }
}

/// The sender of a message.
#[derive(Debug)]
pub struct User {
    pub id: u64,
    pub first_name: String,
    pub last_name: Option<String>,
}

/// A `User` as plain values.
pub struct UserView {
    pub id: u64,
    pub first_name: Seq<char>,
    pub last_name: Option<Seq<char>>,
}

impl View for User {
    type V = UserView;

    open spec fn view(&self) -> UserView {
        UserView {
            id: self.id,
            first_name: self.first_name@,
            last_name: opt_text(self.last_name),
        }
    }
}

impl Clone for User {
    fn clone(&self) -> (copy: Self)
        ensures
            copy@ == self@,
    {
        User {
            id: self.id,
            first_name: self.first_name.clone(),
            last_name: clone_opt_text(&self.last_name),
        }
    }
}

impl UserView {
    /// The first name and, where there is a last name, a space and the last
    /// name.
    pub open spec fn full_name(self) -> Seq<char> {
        match self.last_name {
            Some(last) => self.first_name + seq![' '] + last,
            None => self.first_name,
        }
    }
}

/// `teloxide::types::User::full_name` on a user with the names of `user`: the
/// first name alone where there is no last name, else both with one space
/// between them.
#[verifier::external_body]
fn platform_full_name(user: &User) -> (name: String)
    ensures
        name@ == user@.full_name(),
{
    let platform_user = teloxide::types::User {
        id: teloxide::types::UserId(user.id),
        is_bot: false,
        first_name: user.first_name.clone(),
        last_name: user.last_name.clone(),
        username: None,
        language_code: None,
        is_premium: false,
        added_to_attachment_menu: false,
    };
    platform_user.full_name()
}

impl User {
    /// The name under which the user is shown.
    pub fn full_name(&self) -> (name: String)
        ensures
            name@ == self@.full_name(),
    {
        platform_full_name(self)
    }
}

/// The view of an optional sender.
pub open spec fn opt_user(user: Option<User>) -> Option<UserView> {
    match user {
        Some(u) => Some(u@),
        None => None,
    }
}

/// A message of a chat.
#[derive(Debug)]
pub struct TgMessage {
    /// The message's number within its chat.
    pub id: i32,
    /// The chat that the message was sent to.
    pub chat_id: i64,
    /// The sender; channel posts have none.
    pub from: Option<User>,
    /// The text; a message of another medium has none.
    pub text: Option<String>,
}

/// A `TgMessage` as plain values.
pub struct TgMessageView {
    pub id: i32,
    pub chat_id: i64,
    pub from: Option<UserView>,
    pub text: Option<Seq<char>>,
}

impl View for TgMessage {
    type V = TgMessageView;

    open spec fn view(&self) -> TgMessageView {
        TgMessageView {
            id: self.id,
            chat_id: self.chat_id,
            from: opt_user(self.from),
            text: opt_text(self.text),
        }
    }
}

impl Clone for TgMessage {
    fn clone(&self) -> (copy: Self)
        ensures
            copy@ == self@,
    {
        let from = match &self.from {
            Some(u) => Some(u.clone()),
            None => None,
        };
        TgMessage { id: self.id, chat_id: self.chat_id, from, text: clone_opt_text(&self.text) }
    }
}

/// What an update reports. The first four kinds carry a message; of the others
/// the pipeline records the kind alone.
#[derive(Debug)]
pub enum UpdateKind {
    Message(TgMessage),
    EditedMessage(TgMessage),
    ChannelPost(TgMessage),
    EditedChannelPost(TgMessage),
    InlineQuery,
    ChosenInlineResult,
    CallbackQuery,
    ShippingQuery,
    PreCheckoutQuery,
    Poll,
    PollAnswer,
    MyChatMember,
    ChatMember,
    ChatJoinRequest,
    Error,
}

/// An `UpdateKind` as plain values.
pub enum UpdateKindView {
    Message(TgMessageView),
    EditedMessage(TgMessageView),
    ChannelPost(TgMessageView),
    EditedChannelPost(TgMessageView),
    InlineQuery,
    ChosenInlineResult,
    CallbackQuery,
    ShippingQuery,
    PreCheckoutQuery,
    Poll,
    PollAnswer,
    MyChatMember,
    ChatMember,
    ChatJoinRequest,
    Error,
}

impl View for UpdateKind {
    type V = UpdateKindView;

    open spec fn view(&self) -> UpdateKindView {
        match self {
            UpdateKind::Message(m) => UpdateKindView::Message(m@),
            UpdateKind::EditedMessage(m) => UpdateKindView::EditedMessage(m@),
            UpdateKind::ChannelPost(m) => UpdateKindView::ChannelPost(m@),
            UpdateKind::EditedChannelPost(m) => UpdateKindView::EditedChannelPost(m@),
            UpdateKind::InlineQuery => UpdateKindView::InlineQuery,
            UpdateKind::ChosenInlineResult => UpdateKindView::ChosenInlineResult,
            UpdateKind::CallbackQuery => UpdateKindView::CallbackQuery,
            UpdateKind::ShippingQuery => UpdateKindView::ShippingQuery,
            UpdateKind::PreCheckoutQuery => UpdateKindView::PreCheckoutQuery,
            UpdateKind::Poll => UpdateKindView::Poll,
            UpdateKind::PollAnswer => UpdateKindView::PollAnswer,
            UpdateKind::MyChatMember => UpdateKindView::MyChatMember,
            UpdateKind::ChatMember => UpdateKindView::ChatMember,
            UpdateKind::ChatJoinRequest => UpdateKindView::ChatJoinRequest,
            UpdateKind::Error => UpdateKindView::Error,
        }
    }
}

impl UpdateKindView {
    /// The message that the kind carries, if it carries one.
    pub open spec fn message(self) -> Option<TgMessageView> {
        match self {
            UpdateKindView::Message(m) => Some(m),
            UpdateKindView::EditedMessage(m) => Some(m),
            UpdateKindView::ChannelPost(m) => Some(m),
            UpdateKindView::EditedChannelPost(m) => Some(m),
            _ => None,
        }
    }
}

/// One update as the long poll delivers it.
#[derive(Debug)]
pub struct Update {
    /// The update's number: unique, and rising from one update to the next.
    pub id: i32,
    pub kind: UpdateKind,
    /// The update as it was received, kept only under verbose diagnostics.
    pub raw: Option<String>,
}

/// An `Update` as plain values.
pub struct UpdateView {
    pub id: i32,
    pub kind: UpdateKindView,
    pub raw: Option<Seq<char>>,
}

impl View for Update {
    type V = UpdateView;

    open spec fn view(&self) -> UpdateView {
        UpdateView { id: self.id, kind: self.kind@, raw: opt_text(self.raw) }
    }
}

/// The views of a batch of updates, in its order.
pub open spec fn update_views(updates: Seq<Update>) -> Seq<UpdateView> {
    updates.map_values(|u: Update| u@)
}

} // verus!
