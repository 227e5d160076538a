//! The authorization dialog that each session runs, one text message at a time.
use vstd::prelude::*;
use crate::model::UserState;

verus! {

/// Whether a text is an absolute URL, as the `validator` crate decides it.
pub uninterp spec fn url_shaped(text: Seq<char>) -> bool;

/// Relies on `validator::validate_url`: the text parses as a URL. The answer
/// depends on the text alone.
#[verifier::external_body]
fn validate_url(text: &str) -> (r: bool)
    ensures
        r == url_shaped(text@),
{
    validator::validate_url(text)
}

/// Whether `text` is an absolute URL.
pub fn is_url(text: &str) -> (r: bool)
    ensures
        r == url_shaped(text@),
{
    validate_url(text)
}

/// The fixed replies the session sends.
#[derive(Clone, Copy, Debug, PartialEq, Eq, Structural)]
pub enum Reply {
    CommandIsNotSupported,
    UseAuthLinkAbove,
    AlreadyAuthorized,
    LogoutSuccess,
    ThisIsNotUrl,
}

impl Reply {
    pub open spec fn text_spec(self) -> Seq<char> {
        match self {
            Reply::CommandIsNotSupported => "Command is not supported"@,
            Reply::UseAuthLinkAbove => "Use auth link above"@,
            Reply::AlreadyAuthorized => "Already authorized"@,
            Reply::LogoutSuccess => "Logout success"@,
            Reply::ThisIsNotUrl => "This is not url"@,
        }
    }

    /// The text shown to the user.
    pub fn text(&self) -> (r: String)
        ensures
            r@ == self.text_spec(),
    {
        match self {
            Reply::CommandIsNotSupported => "Command is not supported".to_owned(),
            Reply::UseAuthLinkAbove => "Use auth link above".to_owned(),
            Reply::AlreadyAuthorized => "Already authorized".to_owned(),
            Reply::LogoutSuccess => "Logout success".to_owned(),
            Reply::ThisIsNotUrl => "This is not url".to_owned(),
        }
    }
}

/// What the session does with one message.
#[derive(Clone, Copy, Debug, PartialEq, Eq, Structural)]
pub enum Action {
    /// Ask the read-later service for an authorization link, send it to the
    /// user, then store the state waiting for confirmation.
    BeginAuthorization,
    /// Send the reply; the state stays as it is and is not written.
    Reply(Reply),
    /// Store `Unauthorized`, then send `Reply::LogoutSuccess`.
    Logout,
    /// Keep the link for later processing; nothing is sent or written.
    AcceptLink,
}

pub open spec fn is_start(text: Seq<char>) -> bool {
    text == "/start"@
}

pub open spec fn is_stop(text: Seq<char>) -> bool {
    text == "/stop"@
}

/// The dialog's table: the action for `text` in `state`, where `text_is_url`
/// says whether the text is an absolute URL.
pub open spec fn action_spec(state: UserState, text: Seq<char>, text_is_url: bool) -> Action {
    match state {
        UserState::Unauthorized => {
            if is_start(text) {
                Action::BeginAuthorization
            } else {
                Action::Reply(Reply::CommandIsNotSupported)
            }
        },
        UserState::AutorizationConfirmationWaiting { .. } => {
            if is_stop(text) {
                Action::Logout
            } else {
                Action::Reply(Reply::UseAuthLinkAbove)
            }
        },
        UserState::Authorized { .. } => {
            if is_start(text) {
                Action::Reply(Reply::AlreadyAuthorized)
            } else if is_stop(text) {
                Action::Logout
            } else if text_is_url {
                Action::AcceptLink
            } else {
                Action::Reply(Reply::ThisIsNotUrl)
            }
        },
    }
}

/// The action for `text` in `state`, given whether the text is an absolute URL.
pub fn plan_checked_message(state: &UserState, text: &String, text_is_url: bool) -> (a: Action)
    ensures
        a == action_spec(*state, text@, text_is_url),
{
    let start = "/start".to_owned();
    let stop = "/stop".to_owned();
    match state {
        UserState::Unauthorized => {
            if *text == start {
                Action::BeginAuthorization
            } else {
                Action::Reply(Reply::CommandIsNotSupported)
            }
        },
        UserState::AutorizationConfirmationWaiting { .. } => {
            if *text == stop {
                Action::Logout
            } else {
                Action::Reply(Reply::UseAuthLinkAbove)
            }
        },
        UserState::Authorized { .. } => {
            if *text == start {
                Action::Reply(Reply::AlreadyAuthorized)
            } else if *text == stop {
                Action::Logout
            } else if text_is_url {
                Action::AcceptLink
            } else {
                Action::Reply(Reply::ThisIsNotUrl)
            }
        },
    }
}

/// The action for `text` in `state`.
pub fn plan_message(state: &UserState, text: &String) -> (a: Action)
    ensures
        a == action_spec(*state, text@, url_shaped(text@)),
{
    let text_is_url = is_url(text.as_str());
    plan_checked_message(state, text, text_is_url)
}

/// Every state meets every message with exactly the action of its row:
/// `/start`, `/stop`, a URL and any other text, in each of the three states.
pub proof fn lemma_dialog_table(text: Seq<char>, text_is_url: bool, token: String, url: String, code: String, message_id: i64, user_id: i64)
    ensures
        action_spec(UserState::Unauthorized, "/start"@, text_is_url) == Action::BeginAuthorization,
        !is_start(text) ==> action_spec(UserState::Unauthorized, text, text_is_url) == Action::Reply(Reply::CommandIsNotSupported),
        ({
            let waiting = UserState::AutorizationConfirmationWaiting {
                telegram_message_id: message_id,
                telegram_user_id: user_id,
                pocket_auth_url: url,
                pocket_auth_code: code,
            };
            &&& action_spec(waiting, "/stop"@, text_is_url) == Action::Logout
            &&& !is_stop(text) ==> action_spec(waiting, text, text_is_url) == Action::Reply(Reply::UseAuthLinkAbove)
        }),
        ({
            let authorized = UserState::Authorized { pocket_api_token: token };
            &&& action_spec(authorized, "/start"@, text_is_url) == Action::Reply(Reply::AlreadyAuthorized)
            &&& action_spec(authorized, "/stop"@, text_is_url) == Action::Logout
            &&& !is_start(text) && !is_stop(text) && text_is_url ==> action_spec(authorized, text, text_is_url) == Action::AcceptLink
            &&& !is_start(text) && !is_stop(text) && !text_is_url ==> action_spec(authorized, text, text_is_url) == Action::Reply(Reply::ThisIsNotUrl)
        }),
{
    reveal_strlit("/start");
    reveal_strlit("/stop");
    assert("/start"@.len() != "/stop"@.len());
}

/// An effect of handling a message, as the session carries it out.
#[derive(Debug)]
pub enum Effect {
    /// Send this text to the user.
    Send(String),
    /// Store this state, with this expiry in seconds (`None`: no expiry).
    Store(UserState, Option<u64>),
}

/// The effects of `action`, in the order they are carried out. For
/// `BeginAuthorization` there are none here: its effects depend on what the
/// read-later service answers (see `UserState::awaiting_confirmation`).
pub fn effects_of(action: Action) -> (r: Vec<Effect>)
    ensures
        match action {
            Action::Reply(reply) => r@.len() == 1 && (r@[0] matches Effect::Send(t) && t@ == reply.text_spec()),
            Action::Logout => r@.len() == 2 && r@[0] == Effect::Store(
                UserState::Unauthorized,
                UserState::Unauthorized.ttl_spec(),
            ) && (r@[1] matches Effect::Send(t) && t@ == Reply::LogoutSuccess.text_spec()),
            Action::AcceptLink => r@.len() == 0,
            Action::BeginAuthorization => r@.len() == 0,
        },
{
    let mut effects: Vec<Effect> = Vec::new();
    match action {
        Action::Reply(reply) => {
            effects.push(Effect::Send(reply.text()));
        },
        Action::Logout => {
            let state = UserState::Unauthorized;
            let ttl = state.ttl_secs();
            effects.push(Effect::Store(state, ttl));
            effects.push(Effect::Send(Reply::LogoutSuccess.text()));
        },
        Action::AcceptLink => {},
        Action::BeginAuthorization => {},
    }
    effects
}

} // verus!
