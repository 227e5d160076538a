//! The authorization state persisted for each user.
use vstd::prelude::*;

verus! {

/// Identifies a chat participant; the registry key and the store key.
pub type TelegramUserId = i64;

/// Identifies a message the bot sent, so that it can be edited later.
pub type TelegramMessageId = i64;

/// Seconds that a non-terminal state stays in the store.
pub const PENDING_STATE_TTL_SECS: u64 = 600;

/// Where a user stands with the read-later service.
#[derive(Debug)]
pub enum UserState {
    /// Initial state, and the state after a logout.
    Unauthorized,
    /// An authorization link was sent; the message that shows it can be edited in place.
    AutorizationConfirmationWaiting {
        telegram_message_id: TelegramMessageId,
        telegram_user_id: TelegramUserId,
        pocket_auth_url: String,
        pocket_auth_code: String,
    },
    /// The read-later service granted a token.
    Authorized { pocket_api_token: String },
}

impl UserState {
    /// Authorized is the terminal state; the others are pending.
    pub open spec fn is_terminal(&self) -> bool {
        self is Authorized
    }

    /// How long the store keeps this state, in seconds; `None` keeps it for good.
    pub open spec fn ttl_spec(&self) -> Option<u64> {
        if self.is_terminal() {
            None
        } else {
            Some(PENDING_STATE_TTL_SECS)
        }
    }

    /// Expiry to give this state when the session writes it.
    pub fn ttl_secs(&self) -> (r: Option<u64>)
        ensures
            r == self.ttl_spec(),
    {
        match self {
            UserState::Authorized { .. } => None,
            _ => Some(PENDING_STATE_TTL_SECS),
        }
    }

    /// The state waiting for confirmation of the link `auth_url` shown in message `message_id`.
    pub fn awaiting_confirmation(
        user_id: TelegramUserId,
        message_id: TelegramMessageId,
        auth_url: String,
        auth_code: String,
    ) -> (r: UserState)
        ensures
            r == (UserState::AutorizationConfirmationWaiting {
                telegram_message_id: message_id,
                telegram_user_id: user_id,
                pocket_auth_url: auth_url,
                pocket_auth_code: auth_code,
            }),
    {
        UserState::AutorizationConfirmationWaiting {
            telegram_message_id: message_id,
            telegram_user_id: user_id,
            pocket_auth_url: auth_url,
            pocket_auth_code: auth_code,
        }
    }
}

} // verus!
