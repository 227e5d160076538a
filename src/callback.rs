//! Decisions of the authorization callback, which confirms or rejects a
//! pending authorization outside of any session.
use vstd::prelude::*;
use crate::model::{TelegramMessageId, TelegramUserId, UserState};

verus! {

/// HTTP status the read-later service answers with when it refuses a code.
pub const FORBIDDEN_STATUS: u16 = 403;

/// Service error code that, with `FORBIDDEN_STATUS`, says the user denied access.
pub const ACCESS_DENIED_CODE: i64 = 158;

/// A pending authorization, as read from a user's stored state.
#[derive(Debug)]
pub struct PendingConfirmation {
    pub auth_code: String,
    pub telegram_user_id: TelegramUserId,
    pub telegram_message_id: TelegramMessageId,
}

/// What the read-later service answered when the code was exchanged for a token.
#[derive(Debug)]
pub enum TokenExchange {
    Granted { token: String },
    /// A structured refusal: HTTP status and the service's error code.
    Rejected { status: u16, code: i64 },
    /// Any other failure (transport, parse).
    Unavailable,
}

/// What the callback stores, without expiry, and the new text of the message
/// that showed the authorization link.
#[derive(Debug)]
pub struct Confirmation {
    pub state: UserState,
    pub message_text: String,
}

pub open spec fn is_access_denied(status: u16, code: i64) -> bool {
    status == FORBIDDEN_STATUS && code == ACCESS_DENIED_CODE
}

/// The pending authorization in `state`; `None` when the user is not waiting
/// for one, and the callback has nothing to confirm.
pub fn pending_confirmation(state: &UserState) -> (r: Option<PendingConfirmation>)
    ensures
        match *state {
            UserState::AutorizationConfirmationWaiting {
                telegram_message_id,
                telegram_user_id,
                pocket_auth_code,
                ..
            } => r matches Some(p) && p.auth_code@ == pocket_auth_code@ && p.telegram_user_id
                == telegram_user_id && p.telegram_message_id == telegram_message_id,
            _ => r is None,
        },
{
    match state {
        UserState::AutorizationConfirmationWaiting {
            telegram_message_id,
            telegram_user_id,
            pocket_auth_code,
            ..
        } => Some(
            PendingConfirmation {
                auth_code: pocket_auth_code.clone(),
                telegram_user_id: *telegram_user_id,
                telegram_message_id: *telegram_message_id,
            },
        ),
        _ => None,
    }
}

/// The outcome of a token exchange: a granted token authorizes the user; a
/// denial of access resets the user to `Unauthorized`; any other failure is
/// an error, and `None` comes back.
pub fn confirm(outcome: TokenExchange) -> (r: Option<Confirmation>)
    ensures
        match outcome {
            TokenExchange::Granted { token } => r matches Some(c) && c.state == (UserState::Authorized {
                pocket_api_token: token,
            }) && c.message_text@ == "Authorization confirmed"@,
            TokenExchange::Rejected { status, code } => if is_access_denied(status, code) {
                r matches Some(c) && c.state == UserState::Unauthorized && c.message_text@
                    == "Authorization NOT confirmed"@
            } else {
                r is None
            },
            TokenExchange::Unavailable => r is None,
        },
{
    match outcome {
        TokenExchange::Granted { token } => Some(
            Confirmation {
                state: UserState::Authorized { pocket_api_token: token },
                message_text: "Authorization confirmed".to_owned(),
            },
        ),
        TokenExchange::Rejected { status, code } => {
            if status == FORBIDDEN_STATUS && code == ACCESS_DENIED_CODE {
                Some(
                    Confirmation {
                        state: UserState::Unauthorized,
                        message_text: "Authorization NOT confirmed".to_owned(),
                    },
                )
            } else {
                None
            }
        },
        TokenExchange::Unavailable => None,
    }
}

} // verus!
