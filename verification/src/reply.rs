//! Decoding of the bridge's replies: status codes and JSON lists of strings.

use vstd::prelude::*;
use vstd::string::StringExecFns;

use crate::custom_language_model::strings_model;
use crate::error::{error_from_status, message_text, status_error_matches, SpeechError, STATUS_OK};

verus! {

broadcast use vstd::string::group_string_axioms;

/// Checks a bridge status: success, or the error the status denotes.
pub fn check_status(status: i32, error_message: Option<String>) -> (r: Result<(), SpeechError>)
    ensures
        match r {
            Ok(()) => status == STATUS_OK,
            Err(e) => status != STATUS_OK && status_error_matches(
                status,
                message_text(error_message),
                e,
            ),
        },
{
    if status == STATUS_OK {
        Ok(())
    } else {
        Err(error_from_status(status, error_message))
    }
}

} // verus!

verus! {

/// `serde_json::Error`, carried opaquely.
#[verifier::external_type_specification]
#[verifier::external_body]
pub struct ExJsonError(serde_json::Error);

/// What `serde_json` reads from a JSON text as an array of strings: the
/// strings, or `None` when the text is not such an array.
pub uninterp spec fn json_string_array(text: Seq<char>) -> Option<Seq<Seq<char>>>;

/// Calls `serde_json::from_str::<Vec<String>>`. Its result depends on the
/// text alone: this contract ties it, success or failure, to
/// [`json_string_array`] of the text. What the grammar of JSON accepts is not
/// restated here.
#[verifier::external_body]
fn parse_json_string_array(text: &str) -> (r: Result<Vec<String>, serde_json::Error>)
    ensures
        match r {
            Ok(v) => json_string_array(text@) == Some(strings_model(v@)),
            Err(_) => json_string_array(text@) is None,
        },
{
    serde_json::from_str::<Vec<String>>(text)
}

/// Calls `serde_json::Error`'s `Display` to obtain its message. Nothing is
/// stated of the message: it is whatever `serde_json` writes for the error.
#[verifier::external_body]
fn json_error_text(error: &serde_json::Error) -> String {
    error.to_string()
}

/// The message for a JSON text that could not be read.
pub open spec fn parse_failure_text(context: Seq<char>, reason: Seq<char>, json: Seq<char>) -> Seq<
    char,
> {
    "failed to parse "@ + context + " JSON: "@ + reason + "; payload="@ + json
}

/// Turns the outcome of reading `json` as a list of strings into the
/// library's result: the strings, or an `InvalidArgument` error that names the
/// context, the reason and the payload.
pub fn string_list_from_parse(
    parsed: Result<Vec<String>, String>,
    json: &str,
    context: &str,
) -> (r: Result<Vec<String>, SpeechError>)
    ensures
        match parsed {
            Ok(v) => r == Ok::<Vec<String>, SpeechError>(v),
            Err(reason) => r is Err && (r->Err_0 matches SpeechError::InvalidArgument(m) && m@
                == parse_failure_text(context@, reason@, json@)),
        },
{
    match parsed {
        Ok(v) => Ok(v),
        Err(reason) => {
            let mut m = "failed to parse ".to_owned();
            m.append(context);
            m.append(" JSON: ");
            m.append(reason.as_str());
            m.append("; payload=");
            m.append(json);
            Err(SpeechError::InvalidArgument(m))
        },
    }
}

/// Reads `json` as a list of strings.
pub fn parse_string_list(json: &str, context: &str) -> (r: Result<Vec<String>, SpeechError>)
    ensures
        match r {
            Ok(v) => json_string_array(json@) == Some(strings_model(v@)),
            Err(e) => json_string_array(json@) is None && (e matches SpeechError::InvalidArgument(m)
                && exists|reason: Seq<char>| m@ == parse_failure_text(context@, reason, json@)),
        },
{
    let parsed = match parse_json_string_array(json) {
        Ok(v) => Ok(v),
        Err(e) => Err(json_error_text(&e)),
    };
    let ghost parsed_copy = parsed;
    let r = string_list_from_parse(parsed, json, context);
    proof {
        if let Err(reason) = parsed_copy {
            assert(r->Err_0 matches SpeechError::InvalidArgument(m) && m@ == parse_failure_text(
                context@,
                reason@,
                json@,
            ));
        }
    }
    r
}

/// The message for a reply that carries no JSON payload.
pub open spec fn missing_payload_text(context: Seq<char>) -> Seq<char> {
    "missing JSON payload for "@ + context
}

/// Decodes a bridge reply that carries a JSON list of strings: a failing
/// status gives the error it denotes, a missing payload or one that is not a
/// list of strings gives `InvalidArgument`.
pub fn decode_string_list_reply(
    status: i32,
    json: Option<String>,
    error_message: Option<String>,
    context: &str,
) -> (r: Result<Vec<String>, SpeechError>)
    ensures
        status != STATUS_OK ==> r is Err && status_error_matches(
            status,
            message_text(error_message),
            r->Err_0,
        ),
        status == STATUS_OK && json is None ==> r is Err && (r->Err_0 matches SpeechError::InvalidArgument(
            m,
        ) && m@ == missing_payload_text(context@)),
        status == STATUS_OK && json is Some ==> match r {
            Ok(v) => json_string_array(json->0@) == Some(strings_model(v@)),
            Err(e) => json_string_array(json->0@) is None && (e matches SpeechError::InvalidArgument(
                m,
            ) && exists|reason: Seq<char>| m@ == parse_failure_text(context@, reason, json->0@)),
        },
{
    if status != STATUS_OK {
        return Err(error_from_status(status, error_message));
    }
    match json {
        None => {
            let mut m = "missing JSON payload for ".to_owned();
            m.append(context);
            Err(SpeechError::InvalidArgument(m))
        },
        Some(text) => parse_string_list(text.as_str(), context),
    }
}

} // verus!
