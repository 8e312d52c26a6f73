//! Message validation.
//!
//! A job message arrives as raw bytes. It is valid when those bytes are
//! UTF-8 text, the text parses as a JSON document, and the document carries
//! a non-empty string under the key `project`. Validation is a pure function
//! of the bytes: the same message always yields the same identifier or the
//! same error.

use vstd::prelude::*;

verus! {

/// Why a message was rejected. Every variant is non-retryable: the message
/// itself is structurally defective, and redelivering it cannot help.
#[derive(Clone, Copy, Debug, PartialEq, Eq, Structural)]
pub enum ValidationError {
    /// The body is not valid UTF-8.
    MalformedEncoding,
    /// The body is text but not a parseable JSON document.
    MalformedStructure,
    /// The document has no `project` key, or its value is not a non-empty
    /// string.
    MissingField,
}

/// Whether `serde_json` accepts the text as a JSON document.
pub uninterp spec fn json_parses(text: Seq<char>) -> bool;

/// The string under the key `project` of the JSON document in `text`, if the
/// document is an object holding a string there.
pub uninterp spec fn json_project_field(text: Seq<char>) -> Option<Seq<char>>;

/// Relies on `std::str::from_utf8`: it succeeds exactly on valid UTF-8 and
/// returns the text those bytes encode.
#[verifier::external_body]
fn bytes_to_text(raw: &[u8]) -> (r: Option<&str>)
    ensures
        r is Some <==> vstd::utf8::valid_utf8(raw@),
        r matches Some(s) ==> s@ == vstd::utf8::decode_utf8(raw@),
{
    std::str::from_utf8(raw).ok()
}

/// Relies on `serde_json::from_str::<Value>` (parses exactly the JSON texts,
/// deterministically) and on `serde_json::Value::get` / `Value::as_str`
/// (field lookup on the parsed document, a function of the text alone).
/// `None` means the text did not parse; `Some(None)` that it parsed but has
/// no string under `project`; `Some(Some(p))` that `p` is that string.
#[verifier::external_body]
fn parse_project_field(text: &str) -> (r: Option<Option<String>>)
    ensures
        r is Some <==> json_parses(text@),
        r matches Some(field) ==> (field is Some <==> json_project_field(text@) is Some),
        r matches Some(field) && field matches Some(p) ==> json_project_field(text@) == Some(p@),
{
    match serde_json::from_str::<serde_json::Value>(text) {
        Err(_) => None,
        Ok(doc) => match doc.get("project") {
            None => Some(None),
            Some(value) => match value.as_str() {
                None => Some(None),
                Some(p) => Some(Some(p.to_string())),
            },
        },
    }
}

/// What validation yields on a message: the project identifier when the
/// bytes are UTF-8 text parsing as a JSON document with a non-empty string
/// under `project`, and otherwise the error naming the first defect.
pub open spec fn spec_validate(raw: Seq<u8>) -> Result<Seq<char>, ValidationError> {
    if !vstd::utf8::valid_utf8(raw) {
        Err(ValidationError::MalformedEncoding)
    } else {
        let text = vstd::utf8::decode_utf8(raw);
        if !json_parses(text) {
            Err(ValidationError::MalformedStructure)
        } else {
            match json_project_field(text) {
                Option::None => Err(ValidationError::MissingField),
                Option::Some(p) => if p.len() == 0 {
                    Err(ValidationError::MissingField)
                } else {
                    Ok(p)
                },
            }
        }
    }
}

/// Validate one raw message body. The result is fully determined by the
/// bytes — validating the same message twice yields the same identifier or
/// the same error — and validation has no effect besides its result.
pub fn validate(raw: &[u8]) -> (r: Result<String, ValidationError>)
    ensures
        r matches Ok(p) ==> spec_validate(raw@) == Ok::<Seq<char>, ValidationError>(p@),
        r matches Err(e) ==> spec_validate(raw@) == Err::<Seq<char>, ValidationError>(e),
        r is Ok <==> spec_validate(raw@) is Ok,
{
    let text = match bytes_to_text(raw) {
        Option::None => {
            return Err(ValidationError::MalformedEncoding);
        },
        Option::Some(t) => t,
    };
    match parse_project_field(text) {
        Option::None => Err(ValidationError::MalformedStructure),
        Option::Some(Option::None) => Err(ValidationError::MissingField),
        Option::Some(Option::Some(p)) => {
            if p.as_str().is_empty() {
                Err(ValidationError::MissingField)
            } else {
                Ok(p)
            }
        },
    }
}

/// Validation is idempotent: it is a pure function of the message bytes, so
/// any two results of validating the same message — each pinned by
/// [`validate`]'s contract to [`spec_validate`] of those bytes — are the
/// same identifier or the same error.
pub proof fn lemma_validation_idempotent(
    raw: Seq<u8>,
    r1: Result<Seq<char>, ValidationError>,
    r2: Result<Seq<char>, ValidationError>,
)
    requires
        r1 == spec_validate(raw),
        r2 == spec_validate(raw),
    ensures
        r1 == r2,
{
}

} // verus!
