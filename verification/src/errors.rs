//! The errors that the routes can meet, and the response each one is answered with.
use vstd::prelude::*;
use crate::answer::{Answer, AnswerModel, keyed_answer};

verus! {

/// Every error that a route can meet. A database error carries the database's
/// own description of what went wrong.
///
/// `RequestAmount`, `RequiresAuthorisation` and `FileError` are raised by routes
/// that never gave them a text or a status of their own; the texts they carry here
/// and their statuses (400, 401 and 500) were chosen for them.
#[derive(Debug)]
pub enum CustomErrors {
    SQLXError(String),
    TokenError,
    UserDoesNotExist { unknown_user: String },
    BadToken,
    MissingQueryParams { missing_params: String },
    RequestingSelf,
    LogicError,
    Unimplemented,
    RequestAmount,
    RequiresAuthorisation,
    FileError,
}

/// The description of an error, as its `Display` text reads.
pub open spec fn error_message(e: CustomErrors) -> Seq<char> {
    match e {
        CustomErrors::SQLXError(text) => text@,
        CustomErrors::TokenError => "an error involving the token used occured"@,
        CustomErrors::UserDoesNotExist { unknown_user } => "the user "@ + unknown_user@
            + " does not exist"@,
        CustomErrors::BadToken => "an access token was missing or invalid"@,
        CustomErrors::MissingQueryParams { missing_params } => "the following params are missing: "@
            + missing_params@,
        CustomErrors::RequestingSelf => "the user is requesting themself where that is not possible"@,
        CustomErrors::LogicError => "an error occurred ¯\\_(ツ)_/¯"@,
        CustomErrors::Unimplemented => "this part of the API is not complete"@,
        CustomErrors::RequestAmount => "more records were requested than are allowed"@,
        CustomErrors::RequiresAuthorisation => "this route requires an access token"@,
        CustomErrors::FileError => "a file could not be written"@,
    }
}

/// The HTTP status code that answers an error.
pub open spec fn error_status(e: CustomErrors) -> u16 {
    match e {
        CustomErrors::SQLXError(_) => 500,
        CustomErrors::TokenError => 500,
        CustomErrors::UserDoesNotExist { .. } => 400,
        CustomErrors::BadToken => 400,
        CustomErrors::MissingQueryParams { .. } => 400,
        CustomErrors::RequestingSelf => 400,
        CustomErrors::LogicError => 500,
        CustomErrors::Unimplemented => 501,
        CustomErrors::RequestAmount => 400,
        CustomErrors::RequiresAuthorisation => 401,
        CustomErrors::FileError => 500,
    }
}

/// The key under which the response body carries the text.
pub open spec fn error_key(e: CustomErrors) -> Seq<char> {
    match e {
        CustomErrors::MissingQueryParams { .. } => "rsponse"@,
        _ => "response"@,
    }
}

/// The text of the response body.
pub open spec fn error_response_text(e: CustomErrors) -> Seq<char> {
    match e {
        CustomErrors::UserDoesNotExist { unknown_user } => "user: "@ + unknown_user@
            + ", does not exist"@,
        _ => error_message(e),
    }
}

/// The answer to an error: a status code and a JSON object `{key: message}`.
pub struct ErrorResponse {
    pub status: u16,
    pub key: String,
    pub message: String,
}

impl CustomErrors {
    /// The description of the error (what its `Display` gives).
    pub fn message(&self) -> (s: String)
        ensures
            s@ == error_message(*self),
    {
        match self {
            CustomErrors::SQLXError(text) => text.clone(),
            CustomErrors::TokenError => String::from_str("an error involving the token used occured"),
            CustomErrors::UserDoesNotExist { unknown_user } => {
                let mut s = String::from_str("the user ");
                s.append(unknown_user.as_str());
                s.append(" does not exist");
                s
            },
            CustomErrors::BadToken => String::from_str("an access token was missing or invalid"),
            CustomErrors::MissingQueryParams { missing_params } => {
                let mut s = String::from_str("the following params are missing: ");
                s.append(missing_params.as_str());
                s
            },
            CustomErrors::RequestingSelf => String::from_str(
                "the user is requesting themself where that is not possible",
            ),
            CustomErrors::LogicError => String::from_str("an error occurred ¯\\_(ツ)_/¯"),
            CustomErrors::Unimplemented => String::from_str("this part of the API is not complete"),
            CustomErrors::RequestAmount => String::from_str(
                "more records were requested than are allowed",
            ),
            CustomErrors::RequiresAuthorisation => String::from_str(
                "this route requires an access token",
            ),
            CustomErrors::FileError => String::from_str("a file could not be written"),
        }
    }
}

/// The HTTP status code that answers an error.
pub fn handle_error_status(error: &CustomErrors) -> (status: u16)
    ensures
        status == error_status(*error),
{
    match error {
        CustomErrors::SQLXError(_) => 500,
        CustomErrors::TokenError => 500,
        CustomErrors::UserDoesNotExist { .. } => 400,
        CustomErrors::BadToken => 400,
        CustomErrors::MissingQueryParams { .. } => 400,
        CustomErrors::RequestingSelf => 400,
        CustomErrors::LogicError => 500,
        CustomErrors::Unimplemented => 501,
        CustomErrors::RequestAmount => 400,
        CustomErrors::RequiresAuthorisation => 401,
        CustomErrors::FileError => 500,
    }
}

/// When passed a `CustomErrors` returns the status code and the JSON body
/// (`{key: message}`) that answer it; the calling route returns them directly.
pub fn handle_error(error: CustomErrors) -> (r: ErrorResponse)
    ensures
        r.status == error_status(error),
        r.key@ == error_key(error),
        r.message@ == error_response_text(error),
{
    let status: u16 = handle_error_status(&error);
    let key = match &error {
        CustomErrors::MissingQueryParams { .. } => String::from_str("rsponse"),
        _ => String::from_str("response"),
    };
    let message = match &error {
        CustomErrors::UserDoesNotExist { unknown_user } => {
            let mut s = String::from_str("user: ");
            s.append(unknown_user.as_str());
            s.append(", does not exist");
            s
        },
        _ => error.message(),
    };
    ErrorResponse { status, key, message }
}

/// The answer to an error: its status code and the body `{key: text}`.
pub open spec fn error_answer(e: CustomErrors) -> AnswerModel {
    keyed_answer(error_status(e), error_key(e), error_response_text(e))
}

/// The answer to an error, as a route returns it.
pub fn answer_error(error: CustomErrors) -> (a: Answer)
    ensures
        a@ == error_answer(error),
{
    let r = handle_error(error);
    Answer::keyed(r.status, r.key.as_str(), r.message)
}

} // verus!
