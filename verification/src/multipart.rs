//! Answers to requests whose multipart body could not be read into the upload form.

use vstd::prelude::*;

use crate::response::{response_model, APIResponse, ResponseModel};

verus! {

/// Why a multipart body could not be read, with the texts the answer needs.
#[derive(Debug)]
pub enum MultipartFailure {
    /// No `Content-Disposition: form-data` header on a part.
    NoContentDisposition,
    /// No `Content-Type` header.
    NoContentType,
    /// The `Content-Type` header could not be parsed.
    ParseContentType,
    /// The multipart boundary was not found.
    Boundary,
    /// A part was itself multipart.
    Nested,
    /// The stream ended before the body did.
    Incomplete,
    /// A part's headers could not be parsed.
    Parse,
    /// Reading the payload failed.
    Payload,
    /// The stream was not read to its end.
    NotConsumed,
    /// A field's handler failed; `source` is the text of its error.
    Field { field_name: String, source: String },
    /// A field was sent twice.
    DuplicateField(String),
    /// A required field is missing.
    MissingField(String),
    /// A field that the form does not have was sent.
    UnsupportedField(String),
    /// Any other failure.
    Unknown,
}

/// The answer to each multipart failure.
pub open spec fn multipart_model(failure: MultipartFailure) -> ResponseModel {
    match failure {
        MultipartFailure::NoContentDisposition => response_model(
            400,
            "Content-Disposition"@,
            "wrong Content-Disposition header is set"@,
            ""@,
        ),
        MultipartFailure::NoContentType => response_model(
            415,
            "Content-Type"@,
            "wrong Content-Type header is set"@,
            ""@,
        ),
        MultipartFailure::ParseContentType => response_model(
            400,
            "Content-Type"@,
            "couldn't parse Content-Type header"@,
            ""@,
        ),
        MultipartFailure::Boundary => response_model(
            400,
            "multipart"@,
            "multipart boundary is not found"@,
            ""@,
        ),
        MultipartFailure::Nested => response_model(
            400,
            "multipart"@,
            "nested multipart is not supported"@,
            ""@,
        ),
        MultipartFailure::Incomplete => response_model(
            400,
            "multipart"@,
            "multipart stream is incomplete"@,
            ""@,
        ),
        MultipartFailure::Parse => response_model(400, ""@, "error during field parsing"@, ""@),
        MultipartFailure::Payload => response_model(400, ""@, "payload error"@, ""@),
        MultipartFailure::NotConsumed => response_model(400, ""@, "not consumed"@, ""@),
        MultipartFailure::Field { field_name, source } => response_model(
            400,
            field_name@,
            "deserialize error in field '"@ + field_name@ + "'"@,
            source@,
        ),
        MultipartFailure::DuplicateField(name) => response_model(
            400,
            name@,
            "dublicate field "@ + name@,
            ""@,
        ),
        MultipartFailure::MissingField(name) => response_model(
            400,
            name@,
            "missing required field '"@ + name@ + "'"@,
            ""@,
        ),
        MultipartFailure::UnsupportedField(name) => response_model(
            400,
            name@,
            "unsupported field "@ + name@,
            ""@,
        ),
        MultipartFailure::Unknown => response_model(418, "unknown"@, "unknown error"@, "idk"@),
    }
}

/// `prefix` followed by `name` and `suffix`, as a new string.
fn framed(prefix: &str, name: &String, suffix: &str) -> (r: String)
    ensures
        r@ == prefix@ + name@ + suffix@,
{
    let mut s = prefix.to_owned();
    s.append(name.as_str());
    s.append(suffix);
    s
}

/// `prefix` followed by `name`, as a new string.
fn prefixed(prefix: &str, name: &String) -> (r: String)
    ensures
        r@ == prefix@ + name@,
{
    let mut s = prefix.to_owned();
    s.append(name.as_str());
    s
}

/// The answer to a request whose multipart body could not be read.
pub fn multipart_error_response(failure: &MultipartFailure) -> (r: APIResponse)
    ensures
        r@ == multipart_model(*failure),
{
    match failure {
        MultipartFailure::NoContentDisposition => APIResponse::new(
            400,
            "Content-Disposition",
            "wrong Content-Disposition header is set",
            "",
        ),
        MultipartFailure::NoContentType => APIResponse::new(
            415,
            "Content-Type",
            "wrong Content-Type header is set",
            "",
        ),
        MultipartFailure::ParseContentType => APIResponse::new(
            400,
            "Content-Type",
            "couldn't parse Content-Type header",
            "",
        ),
        MultipartFailure::Boundary => APIResponse::new(
            400,
            "multipart",
            "multipart boundary is not found",
            "",
        ),
        MultipartFailure::Nested => APIResponse::new(
            400,
            "multipart",
            "nested multipart is not supported",
            "",
        ),
        MultipartFailure::Incomplete => APIResponse::new(
            400,
            "multipart",
            "multipart stream is incomplete",
            "",
        ),
        MultipartFailure::Parse => APIResponse::new(400, "", "error during field parsing", ""),
        MultipartFailure::Payload => APIResponse::new(400, "", "payload error", ""),
        MultipartFailure::NotConsumed => APIResponse::new(400, "", "not consumed", ""),
        MultipartFailure::Field { field_name, source } => {
            let message = framed("deserialize error in field '", field_name, "'");
            APIResponse { code: 400, field: field_name.clone(), message, description: source.clone() }
        },
        MultipartFailure::DuplicateField(name) => {
            let message = prefixed("dublicate field ", name);
            APIResponse { code: 400, field: name.clone(), message, description: "".to_owned() }
        },
        MultipartFailure::MissingField(name) => {
            let message = framed("missing required field '", name, "'");
            APIResponse { code: 400, field: name.clone(), message, description: "".to_owned() }
        },
        MultipartFailure::UnsupportedField(name) => {
            let message = prefixed("unsupported field ", name);
            APIResponse { code: 400, field: name.clone(), message, description: "".to_owned() }
        },
        MultipartFailure::Unknown => APIResponse::new(418, "unknown", "unknown error", "idk"),
    }
}

/// Every answer to a multipart failure carries a valid HTTP status, so it is sent with
/// exactly the code it holds.
pub proof fn lemma_multipart_refusals_keep_their_status(failure: MultipartFailure)
    ensures
        100 <= multipart_model(failure).code < 1000,
        crate::response::effective_status(multipart_model(failure).code) == multipart_model(
            failure,
        ).code,
{
}

/// A failure that concerns one field of the form names that field in the answer.
pub proof fn lemma_field_failures_name_the_field(failure: MultipartFailure)
    ensures
        match failure {
            MultipartFailure::Field { field_name, .. } => multipart_model(failure).field
                == field_name@,
            MultipartFailure::DuplicateField(name) => multipart_model(failure).field == name@,
            MultipartFailure::MissingField(name) => multipart_model(failure).field == name@,
            MultipartFailure::UnsupportedField(name) => multipart_model(failure).field == name@,
            _ => true,
        },
{
}

/// The status of each multipart failure: 415 Unsupported Media Type without a
/// `Content-Type` header, 418 for a failure of no known kind, 400 for every other one.
pub proof fn lemma_multipart_statuses(failure: MultipartFailure)
    ensures
        multipart_model(failure).code == (match failure {
            MultipartFailure::NoContentType => 415u16,
            MultipartFailure::Unknown => 418u16,
            _ => 400u16,
        }),
{
}

} // verus!
