//! What a user may do with the bot.

use crate::update::opt_text;
use vstd::prelude::*;

verus! {

/// The permissions of one user.
#[derive(Debug)]
pub struct Permissions {
    pub user_id: u64,
    pub is_bot_admin: bool,
    pub custom_tag: Option<String>,
}

impl Permissions {
    /// Marks the user as an administrator of the bot; nothing else changes.
    pub fn set_bot_admin(&mut self)
        ensures
            final(self).is_bot_admin,
            final(self).user_id == old(self).user_id,
            opt_text(final(self).custom_tag) == opt_text(old(self).custom_tag),
    {
        self.is_bot_admin = true;
    }
}

} // verus!
