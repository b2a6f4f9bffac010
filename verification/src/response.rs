//! The JSON answer that the service sends when it refuses a request.

use vstd::prelude::*;

verus! {

/// What an `APIResponse` says, as mathematical values.
pub struct ResponseModel {
    pub code: u16,
    pub field: Seq<char>,
    pub message: Seq<char>,
    pub description: Seq<char>,
}

/// A refusal: the HTTP status code, the form field at fault (or a topic such as
/// `"multipart"`), a short message and a longer description.
#[derive(Debug)]
pub struct APIResponse {
    pub code: u16,
    pub field: String,
    pub message: String,
    pub description: String,
}

impl View for APIResponse {
    type V = ResponseModel;

    open spec fn view(&self) -> ResponseModel {
        ResponseModel {
            code: self.code,
            field: self.field@,
            message: self.message@,
            description: self.description@,
        }
    }
}

/// Builds the model of a response from its code and three texts.
pub open spec fn response_model(
    code: u16,
    field: Seq<char>,
    message: Seq<char>,
    description: Seq<char>,
) -> ResponseModel {
    ResponseModel { code, field, message, description }
}

/// The status line that a response with `code` is sent with: the code itself where it
/// is a valid HTTP status (100 to 999), else 500 Internal Server Error.
pub open spec fn effective_status(code: u16) -> u16 {
    if 100 <= code < 1000 {
        code
    } else {
        500
    }
}

/// The text that `APIResponse` shows where it is displayed as an error.
pub open spec fn display_text() -> Seq<char> {
    "Oh no, something bad went down"@
}

/// `actix_web::http::StatusCode::from_u16` followed by `StatusCode::as_u16`.
/// The `http` crate's source accepts a code exactly when it lies in 100..1000 and
/// stores it unchanged, so the code comes back as it went in.
#[verifier::external_body]
fn checked_status(code: u16) -> (r: Option<u16>)
    ensures
        r == (if 100 <= code < 1000 {
            Some(code)
        } else {
            None::<u16>
        }),
{
    match actix_web::http::StatusCode::from_u16(code) {
        Ok(status) => Some(status.as_u16()),
        Err(_) => None,
    }
}

impl APIResponse {
    /// A response with the given code and texts.
    pub fn new(code: u16, field: &str, message: &str, description: &str) -> (r: APIResponse)
        ensures
            r@ == response_model(code, field@, message@, description@),
    {
        APIResponse {
            code,
            field: field.to_owned(),
            message: message.to_owned(),
            description: description.to_owned(),
        }
    }

    /// The HTTP status the response is sent with.
    pub fn status_code(&self) -> (r: u16)
        ensures
            r == effective_status(self.code),
    {
        match checked_status(self.code) {
            Some(code) => code,
            None => 500,
        }
    }

    /// The text shown where the response is displayed as an error.
    pub fn to_string(&self) -> (r: String)
        ensures
            r@ == display_text(),
    {
        "Oh no, something bad went down".to_owned()
    }
}

impl Clone for APIResponse {
    fn clone(&self) -> (r: Self)
        ensures
            r@ == self@,
    {
        APIResponse {
            code: self.code,
            field: self.field.clone(),
            message: self.message.clone(),
            description: self.description.clone(),
        }
    }
}

/// The headers that every answer of the service carries, so that browsers on other
/// origins may POST to it.
pub fn cors_headers() -> (r: Vec<(&'static str, &'static str)>)
    ensures
        r@.len() == 2,
        r@[0].0@ == "Access-Control-Allow-Origin"@,
        r@[0].1@ == "*"@,
        r@[1].0@ == "Access-Control-Allow-Methods"@,
        r@[1].1@ == "POST"@,
{
    vec![("Access-Control-Allow-Origin", "*"), ("Access-Control-Allow-Methods", "POST")]
}

/// A response is sent with its own code when that code is a valid HTTP status (100 to
/// 999) and with 500 otherwise; the status sent is always valid.
pub proof fn lemma_effective_status(code: u16)
    ensures
        100 <= code <= 999 ==> effective_status(code) == code,
        !(100 <= code <= 999) ==> effective_status(code) == 500,
        100 <= effective_status(code) <= 999,
{
}

} // verus!
