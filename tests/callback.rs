use pocket_relay_bot::callback::{confirm, pending_confirmation, TokenExchange};
use pocket_relay_bot::model::UserState;

#[test]
fn pending_confirmation_only_when_waiting() {
    let waiting = UserState::awaiting_confirmation(5, 77, "https://a.b/c".to_string(), "code".to_string());
    let p = pending_confirmation(&waiting).unwrap();
    assert_eq!(p.auth_code, "code");
    assert_eq!(p.telegram_user_id, 5);
    assert_eq!(p.telegram_message_id, 77);
    assert!(pending_confirmation(&UserState::Unauthorized).is_none());
    assert!(pending_confirmation(&UserState::Authorized { pocket_api_token: "t".to_string() }).is_none());
}

#[test]
fn granted_token_authorizes() {
    let c = confirm(TokenExchange::Granted { token: "tok".to_string() }).unwrap();
    assert_eq!(c.message_text, "Authorization confirmed");
    match c.state {
        UserState::Authorized { pocket_api_token } => assert_eq!(pocket_api_token, "tok"),
        _ => panic!("must be authorized"),
    }
}

#[test]
fn denied_access_resets_to_unauthorized() {
    let c = confirm(TokenExchange::Rejected { status: 403, code: 158 }).unwrap();
    assert_eq!(c.message_text, "Authorization NOT confirmed");
    assert!(matches!(c.state, UserState::Unauthorized));
}

#[test]
fn other_failures_are_errors() {
    assert!(confirm(TokenExchange::Rejected { status: 403, code: 1 }).is_none());
    assert!(confirm(TokenExchange::Rejected { status: 500, code: 158 }).is_none());
    assert!(confirm(TokenExchange::Unavailable).is_none());
}
