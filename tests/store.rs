use pocket_relay_bot::model::UserState;
use pocket_relay_bot::store::{state_key, state_or_unauthorized};

#[test]
fn state_keys() {
    assert_eq!(state_key(42), "user_state:42:json");
    assert_eq!(state_key(0), "user_state:0:json");
    assert_eq!(state_key(-17), "user_state:-17:json");
    assert_eq!(state_key(1234567890), "user_state:1234567890:json");
    assert_eq!(state_key(i64::MAX), format!("user_state:{}:json", i64::MAX));
    assert_eq!(state_key(i64::MIN), format!("user_state:{}:json", i64::MIN));
}

#[test]
fn absent_state_reads_as_unauthorized() {
    assert!(matches!(state_or_unauthorized(None), UserState::Unauthorized));
    let stored = UserState::Authorized { pocket_api_token: "t".to_string() };
    match state_or_unauthorized(Some(stored)) {
        UserState::Authorized { pocket_api_token } => assert_eq!(pocket_api_token, "t"),
        _ => panic!("stored state must be returned"),
    }
}
