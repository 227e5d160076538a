use pocket_relay_bot::endpoints::telegram_api_base;
use pocket_relay_bot::responses::{DataOrErrorResponse, TelegramErrorResponse};

#[test]
fn envelope_payload_becomes_ok() {
    let r: DataOrErrorResponse<i32, TelegramErrorResponse> = DataOrErrorResponse::Data(5);
    assert_eq!(r.into_result().ok(), Some(5));
}

#[test]
fn envelope_error_becomes_err() {
    let e = TelegramErrorResponse { ok: false, error_code: 401, description: "Unauthorized".to_string() };
    let r: DataOrErrorResponse<i32, TelegramErrorResponse> = DataOrErrorResponse::Error(e);
    match r.into_result() {
        Err(e) => {
            assert_eq!(e.error_code, 401);
            assert_eq!(e.description, "Unauthorized");
            assert!(!e.ok);
        }
        Ok(_) => panic!("error must stay an error"),
    }
}

#[test]
fn api_base_address() {
    assert_eq!(telegram_api_base("123:ABC"), "https://api.telegram.org/bot123:ABC/");
    assert_eq!(telegram_api_base(""), "https://api.telegram.org/bot/");
}
