//! The long poll's request.

use vstd::prelude::*;

verus! {

/// A kind of update that a long poll may ask for.
#[derive(Clone, Copy, Debug, PartialEq, Eq, Structural)]
pub enum AllowedUpdate {
    Message,
    EditedMessage,
    ChannelPost,
    EditedChannelPost,
    InlineQuery,
    ChosenInlineResult,
    CallbackQuery,
    ShippingQuery,
    PreCheckoutQuery,
    Poll,
    PollAnswer,
    MyChatMember,
    ChatMember,
    ChatJoinRequest,
}

/// One long poll: from which update on, for how many seconds at most, and for
/// which kinds of update.
#[derive(Debug)]
pub struct UpdateRequest {
    /// The first update to deliver; `None` asks for whatever is waiting.
    pub offset: Option<i64>,
    /// How many seconds the platform may hold the request open.
    pub timeout: u32,
    pub allowed_updates: Vec<AllowedUpdate>,
}

/// An `UpdateRequest` as plain values.
pub struct UpdateRequestView {
    pub offset: Option<i64>,
    pub timeout: u32,
    pub allowed_updates: Seq<AllowedUpdate>,
}

impl View for UpdateRequest {
    type V = UpdateRequestView;

    open spec fn view(&self) -> UpdateRequestView {
        UpdateRequestView {
            offset: self.offset,
            timeout: self.timeout,
            allowed_updates: self.allowed_updates@,
        }
    }
}

/// Every kind of update that the platform delivers on request.
pub open spec fn every_kind() -> Seq<AllowedUpdate> {
    seq![
        AllowedUpdate::Message,
        AllowedUpdate::EditedMessage,
        AllowedUpdate::ChannelPost,
        AllowedUpdate::EditedChannelPost,
        AllowedUpdate::InlineQuery,
        AllowedUpdate::ChosenInlineResult,
        AllowedUpdate::CallbackQuery,
        AllowedUpdate::ShippingQuery,
        AllowedUpdate::PreCheckoutQuery,
        AllowedUpdate::Poll,
        AllowedUpdate::PollAnswer,
        AllowedUpdate::MyChatMember,
        AllowedUpdate::ChatMember,
        AllowedUpdate::ChatJoinRequest,
    ]
}

/// The long poll that starts at `offset`, waits `lp_timeout` seconds at most
/// and asks for every kind of update.
pub open spec fn poll_request(lp_timeout: u32, offset: Option<i64>) -> UpdateRequestView {
    UpdateRequestView { offset, timeout: lp_timeout, allowed_updates: every_kind() }
}

/// The request of the next long poll.
pub fn prepare_update_request(lp_timeout: u32, offset: Option<i64>) -> (request: UpdateRequest)
    ensures
        request@ == poll_request(lp_timeout, offset),
{
    let allowed_updates = vec![
        AllowedUpdate::Message,
        AllowedUpdate::EditedMessage,
        AllowedUpdate::ChannelPost,
        AllowedUpdate::EditedChannelPost,
        AllowedUpdate::InlineQuery,
        AllowedUpdate::ChosenInlineResult,
        AllowedUpdate::CallbackQuery,
        AllowedUpdate::ShippingQuery,
        AllowedUpdate::PreCheckoutQuery,
        AllowedUpdate::Poll,
        AllowedUpdate::PollAnswer,
        AllowedUpdate::MyChatMember,
        AllowedUpdate::ChatMember,
        AllowedUpdate::ChatJoinRequest,
    ];
    assert(allowed_updates@ =~= every_kind());
    UpdateRequest { offset, timeout: lp_timeout, allowed_updates }
}

} // verus!
