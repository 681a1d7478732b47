//! The members of the chat, as far as the bot has seen them.

use crate::update::{clone_opt_text, opt_text};
use std::collections::HashMap;
use vstd::prelude::*;
use vstd::std_specs::cmp::PartialEqSpecImpl;

verus! {

/// Tells whether two optional strings hold the same text.
pub fn same_opt_text(a: &Option<String>, b: &Option<String>) -> (same: bool)
    ensures
        same == (opt_text(*a) == opt_text(*b)),
{
    match (a, b) {
        (Some(x), Some(y)) => *x == *y,
        (None, None) => true,
        _ => false,
    }
}

/// A member of the chat: the platform's number for the user, and a name if
/// one is known.
#[derive(Debug)]
pub struct ChatMember {
    pub id: u64,
    pub name: Option<String>,
}

/// A `ChatMember` as plain values.
pub struct ChatMemberView {
    pub id: u64,
    pub name: Option<Seq<char>>,
}

impl View for ChatMember {
    type V = ChatMemberView;

    open spec fn view(&self) -> ChatMemberView {
        ChatMemberView { id: self.id, name: opt_text(self.name) }
    }
}

impl Clone for ChatMember {
    fn clone(&self) -> (copy: Self)
        ensures
            copy@ == self@,
    {
        ChatMember { id: self.id, name: clone_opt_text(&self.name) }
    }
}

impl PartialEq for ChatMember {
    fn eq(&self, other: &Self) -> (same: bool) {
        self.id == other.id && same_opt_text(&self.name, &other.name)
    }
}

impl PartialEqSpecImpl for ChatMember {
    open spec fn obeys_eq_spec() -> bool {
        true
    }

    open spec fn eq_spec(&self, other: &Self) -> bool {
        self@ == other@
    }
}

/// What `ChatData::update_user` found.
#[derive(Debug)]
pub enum ChannelUserUpdateResult {
    /// The member was not known before.
    NewEntry,
    /// The member was known with other data: this is the earlier state.
    Update(ChatMember),
    /// The member was known with the same data.
    NoChanges,
}

/// A `ChannelUserUpdateResult` as plain values.
pub enum ChannelUserUpdateResultView {
    NewEntry,
    Update(ChatMemberView),
    NoChanges,
}

impl View for ChannelUserUpdateResult {
    type V = ChannelUserUpdateResultView;

    open spec fn view(&self) -> ChannelUserUpdateResultView {
        match self {
            ChannelUserUpdateResult::NewEntry => ChannelUserUpdateResultView::NewEntry,
            ChannelUserUpdateResult::Update(m) => ChannelUserUpdateResultView::Update(m@),
            ChannelUserUpdateResult::NoChanges => ChannelUserUpdateResultView::NoChanges,
        }
    }
}

impl PartialEq for ChannelUserUpdateResult {
    fn eq(&self, other: &Self) -> (same: bool) {
        match (self, other) {
            (ChannelUserUpdateResult::NewEntry, ChannelUserUpdateResult::NewEntry) => true,
            (ChannelUserUpdateResult::Update(a), ChannelUserUpdateResult::Update(b)) => *a == *b,
            (ChannelUserUpdateResult::NoChanges, ChannelUserUpdateResult::NoChanges) => true,
            _ => false,
        }
    }
}

impl PartialEqSpecImpl for ChannelUserUpdateResult {
    open spec fn obeys_eq_spec() -> bool {
        true
    }

    open spec fn eq_spec(&self, other: &Self) -> bool {
        self@ == other@
    }
}

/// What recording `user` reports of a chat whose members are `members`.
pub open spec fn update_outcome(
    members: Map<u64, ChatMemberView>,
    user: ChatMemberView,
) -> ChannelUserUpdateResultView {
    if !members.contains_key(user.id) {
        ChannelUserUpdateResultView::NewEntry
    } else if members[user.id] == user {
        ChannelUserUpdateResultView::NoChanges
    } else {
        ChannelUserUpdateResultView::Update(members[user.id])
    }
}

/// A chat and its known members, each under the member's number.
pub struct ChatData {
    id: i64,
    users: HashMap<u64, ChatMember>,
}

impl ChatData {
    /// The chat's number.
    pub closed spec fn chat_id(&self) -> i64 {
        self.id
    }

    /// The known members, by number.
    pub closed spec fn members(&self) -> Map<u64, ChatMemberView> {
        self.users@.map_values(|m: ChatMember| m@)
    }

    /// A chat of which no member is known yet.
    pub fn new(chat_id: i64) -> (chat: Self)
        ensures
            chat.chat_id() == chat_id,
            chat.members() == Map::<u64, ChatMemberView>::empty(),
    {
        let chat = ChatData { id: chat_id, users: HashMap::new() };
        assert(chat.members() =~= Map::<u64, ChatMemberView>::empty());
        chat
    }

    /// The chat's number.
    pub fn id(&self) -> (id: i64)
        ensures
            id == self.chat_id(),
    {
        self.id
    }

    /// How many members are known.
    pub fn len(&self) -> (n: usize)
        ensures
            n == self.members().len(),
            self.members().dom().finite(),
    {
        broadcast use vstd::std_specs::hash::group_hash_axioms;

        assert(self.members().dom() =~= self.users@.dom());
        self.users.len()
    }

    /// The member with the number `user_id`, if one is known.
    pub fn get(&self, user_id: u64) -> (member: Option<&ChatMember>)
        ensures
            match member {
                Some(m) => self.members().contains_key(user_id) && m@ == self.members()[user_id],
                None => !self.members().contains_key(user_id),
            },
    {
        broadcast use vstd::std_specs::hash::group_hash_axioms;

        self.users.get(&user_id)
    }

    /// Records `user` under its number, in place of what was known of that
    /// number, and reports what was known.
    pub fn update_user(&mut self, user: ChatMember) -> (result: ChannelUserUpdateResult)
        ensures
            final(self).chat_id() == old(self).chat_id(),
            final(self).members() == old(self).members().insert(user.id, user@),
            result@ == update_outcome(old(self).members(), user@),
    {
        broadcast use vstd::std_specs::hash::group_hash_axioms;

        let user_id = user.id;
        let ghost before = self.users@;
        let outcome = match self.users.insert(user_id, user) {
            None => ChannelUserUpdateResult::NewEntry,
            Some(previous) => {
                let same = match self.users.get(&user_id) {
                    Some(current) => previous == *current,
                    None => false,
                };
                if same {
                    ChannelUserUpdateResult::NoChanges
                } else {
                    ChannelUserUpdateResult::Update(previous)
                }
            },
        };
        assert(self.members() =~= before.map_values(|m: ChatMember| m@).insert(user.id, user@));
        outcome
    }
}

} // verus!
