//! Data carried by the chat platform's responses, and the envelope that
//! holds either a payload or a structured error.
use vstd::prelude::*;
use std::collections::HashMap;
use crate::model::{TelegramMessageId, TelegramUserId};

verus! {

/// A response body that is either the expected payload or an error record.
#[derive(Debug)]
pub enum DataOrErrorResponse<D, E> {
    Data(D),
    Error(E),
}

impl<D, E> DataOrErrorResponse<D, E> {
    pub open spec fn to_result(self) -> Result<D, E> {
        match self {
            DataOrErrorResponse::Data(d) => Ok(d),
            DataOrErrorResponse::Error(e) => Err(e),
        }
    }

    /// Turns the envelope into a `Result`, payload to `Ok`, error to `Err`.
    pub fn into_result(self) -> (r: Result<D, E>)
        ensures
            r == self.to_result(),
    {
        match self {
            DataOrErrorResponse::Data(ok) => Ok(ok),
            DataOrErrorResponse::Error(err) => Err(err),
        }
    }
}

/// A JSON value of `serde_json`, carried as it is.
#[verifier::external_type_specification]
#[verifier::external_body]
pub struct ExValue(serde_json::Value);

/// The error record the chat platform returns in place of a payload.
#[derive(Debug)]
pub struct TelegramErrorResponse {
    pub ok: bool,
    pub error_code: i32,
    pub description: String,
}

/// A batch of updates, with the response's other fields kept as they came.
#[derive(Debug)]
pub struct TelegramUpdatesResponse {
    pub ok: bool,
    pub result: Vec<TelegramUpdateData>,
    pub other: HashMap<String, serde_json::Value>,
}

/// A single message returned by a send or an edit.
#[derive(Debug)]
pub struct TelegramMessageResponse {
    pub ok: bool,
    pub result: TelegramMessageData,
    pub other: HashMap<String, serde_json::Value>,
}

/// One update: its id, and the message it carries, if any.
#[derive(Debug)]
pub struct TelegramUpdateData {
    pub update_id: i64,
    pub message: Option<TelegramMessageData>,
}

/// A chat message.
#[derive(Debug)]
pub struct TelegramMessageData {
    pub message_id: TelegramMessageId,
    pub from: Option<TelegramUserData>,
    pub text: Option<String>,
}

/// The sender of a message.
#[derive(Debug)]
pub struct TelegramUserData {
    pub id: TelegramUserId,
    pub username: Option<String>,
}

} // verus!
