//! The responses that the proxy writes itself.
//!
//! Such a response has a JSON body: an object with the member `error`, and
//! for some errors one member more. Behind the body stands the trailer of
//! the process, and the content type is `application/json`.

use crate::headers::{
    empty_headers, header_entries, is_legal_value, is_plain_name, set_header, with_value, Entry,
};
use crate::http_client::{ProxiedResponse, ResponseView};
use crate::settings::text_view;
use crate::text::{chars_of, decimal, push_decimal, string_of};
use http::StatusCode;
use vstd::prelude::*;
use vstd::string::StrSliceExecFns;
use vstd::string::StringSliceAdditionalSpecFns;
use vstd::utf8::encode_utf8;

verus! {

/// `serde_json::Error`: why a value could not be written as JSON.
#[verifier::external_type_specification]
#[verifier::external_body]
pub struct ExJsonError(serde_json::Error);

/// The errors that the proxy answers with a body of its own.
#[derive(Debug, Clone, Copy, PartialEq, Eq, Structural)]
pub enum Failure {
    /// The body of the request could not be read.
    InvalidRequest,
    /// The settings of the request name no destination.
    MissingDestination,
    /// The destination is no URL with a host.
    InvalidDestination,
    /// The fault before the request went out has fired.
    FailBefore,
    /// The proxy was driven out of step.
    Internal,
}

/// The JSON text that `serde_json::to_string` writes for the string `text`.
pub uninterp spec fn json_string(text: Seq<char>) -> Seq<char>;

/// The status that a configured code gives: the code itself where it lies
/// between 100 and 999, else 500.
pub open spec fn status_of(code: u16) -> u16 {
    if 100 <= code <= 999 {
        code
    } else {
        500
    }
}

/// The word that stands for a failure in a body.
pub open spec fn tag_of(failure: Failure) -> Seq<char> {
    match failure {
        Failure::InvalidRequest => "invalid-request"@,
        Failure::MissingDestination => "missing-destination-url"@,
        Failure::InvalidDestination => "invalid-destination-url"@,
        Failure::FailBefore => "fail-before"@,
        Failure::Internal => "internal"@,
    }
}

/// The body for a failure.
pub open spec fn error_text(failure: Failure) -> Seq<char> {
    "{\"error\":\""@ + tag_of(failure) + "\"}"@
}

/// The body for the fault after the response has come: it tells the status
/// that the destination gave.
pub open spec fn fail_after_text(upstream: u16) -> Seq<char> {
    "{\"error\":\"fail-after\",\"destination-response-code\":"@ + decimal(upstream as nat) + "}"@
}

/// The body for a transport that failed, given the URL as a JSON string; a
/// URL that could not be written as one leaves the empty object.
pub open spec fn unexpected_text(quoted: Option<Seq<char>>) -> Seq<char> {
    match quoted {
        Some(url) => "{\"error\":\"unexpected-error\",\"url\":"@ + url + "}"@,
        None => "{}"@,
    }
}

/// The characters of `text` as bytes.
pub open spec fn chars_as_bytes(text: Seq<char>) -> Seq<u8> {
    text.map_values(|c: char| c as u8)
}

/// The headers of a response with a JSON body.
pub open spec fn json_headers() -> Seq<Entry> {
    seq![("content-type"@, chars_as_bytes("application/json"@))]
}

/// The response with this status whose body is `text` and then `trailer`.
pub open spec fn json_reply(status: u16, text: Seq<char>, trailer: Seq<char>) -> ResponseView {
    ResponseView { status, headers: json_headers(), body: encode_utf8(text + trailer) }
}

/// Calls `StatusCode::from_u16` and hands the code back where it is
/// accepted: `http` takes the codes from 100 to 999.
#[verifier::external_body]
fn checked_status(code: u16) -> (status: Option<u16>)
    ensures
        status == (if 100 <= code <= 999 {
            Some(code)
        } else {
            None::<u16>
        }),
{
    StatusCode::from_u16(code).ok().map(|status| status.as_u16())
}

/// Calls `serde_json::to_string` on a string. For a string it has no
/// error to give: the result is the JSON text of the string.
#[verifier::external_body]
fn quote(text: &str) -> (quoted: Result<String, serde_json::Error>)
    ensures
        quoted is Ok,
        quoted matches Ok(q) ==> q@ == json_string(text@),
{
    serde_json::to_string(text)
}

/// The status that a configured code gives.
pub fn status_from_code(code: u16) -> (status: u16)
    ensures
        status == status_of(code),
{
    match checked_status(code) {
        Some(status) => status,
        None => 500,
    }
}

/// The word that stands for `failure` in a body.
pub fn failure_tag(failure: Failure) -> (tag: &'static str)
    ensures
        tag@ == tag_of(failure),
{
    match failure {
        Failure::InvalidRequest => "invalid-request",
        Failure::MissingDestination => "missing-destination-url",
        Failure::InvalidDestination => "invalid-destination-url",
        Failure::FailBefore => "fail-before",
        Failure::Internal => "internal",
    }
}

/// The response with this status whose body is `text` and then `trailer`,
/// with the content type of JSON.
pub fn proxied_json(status: u16, text: &str, trailer: &str) -> (response: ProxiedResponse)
    ensures
        response@ == json_reply(status, text@, trailer@),
{
    let mut headers = empty_headers();
    let mut value: Vec<u8> = Vec::new();
    let kind = chars_of("application/json");
    proof {
        reveal_strlit("content-type");
        reveal_strlit("application/json");
    }
    let mut i: usize = 0;
    while i < kind.len()
        invariant
            i <= kind.len(),
            kind@ == "application/json"@,
            kind@.len() == 16,
            forall|j: int|
                0 <= j < kind@.len() ==> 'a' <= #[trigger] kind@[j] <= 'z' || kind@[j] == '/',
            value@ == chars_as_bytes(kind@.take(i as int)),
            is_legal_value(value@),
        decreases kind.len() - i,
    {
        value.push(kind[i] as u8);
        assert(chars_as_bytes(kind@.take(i + 1)) == chars_as_bytes(kind@.take(i as int)).push(
            kind@[i as int] as u8,
        ));
        i += 1;
    }
    assert(kind@.take(kind@.len() as int) == kind@);
    let stored = set_header(&mut headers, "content-type", value.as_slice());
    assert(header_entries(headers) == json_headers());
    let mut body = chars_of(text);
    let mut rest = chars_of(trailer);
    body.append(&mut rest);
    let body = string_of(&body);
    ProxiedResponse::new(status, headers, body.as_str().as_bytes_vec())
}

/// The response for a failure: the status, and the body that names the
/// failure.
pub fn failure_response(status: u16, failure: Failure, trailer: &str) -> (response: ProxiedResponse)
    ensures
        response@ == json_reply(status, error_text(failure), trailer@),
{
    let mut text = chars_of("{\"error\":\"");
    let mut tag = chars_of(failure_tag(failure));
    let mut end = chars_of("\"}");
    text.append(&mut tag);
    text.append(&mut end);
    proxied_json(status, string_of(&text).as_str(), trailer)
}

/// The response for the fault after the response of the destination has
/// come: the status of the fault, and a body that tells the status that the
/// destination gave.
pub fn fail_after_response(status: u16, upstream: u16, trailer: &str) -> (response: ProxiedResponse)
    ensures
        response@ == json_reply(status, fail_after_text(upstream), trailer@),
{
    let mut text = chars_of("{\"error\":\"fail-after\",\"destination-response-code\":");
    push_decimal(&mut text, upstream as u64);
    let mut end = chars_of("}");
    text.append(&mut end);
    proxied_json(status, string_of(&text).as_str(), trailer)
}

/// The response for a transport that failed, given the URL of the request
/// as a JSON string.
pub fn unexpected_response(quoted: Option<String>, trailer: &str) -> (response: ProxiedResponse)
    ensures
        response@ == json_reply(500, unexpected_text(text_view(quoted)), trailer@),
{
    match quoted {
        Some(url) => {
            let mut text = chars_of("{\"error\":\"unexpected-error\",\"url\":");
            let mut value = chars_of(url.as_str());
            let mut end = chars_of("}");
            text.append(&mut value);
            text.append(&mut end);
            proxied_json(500, string_of(&text).as_str(), trailer)
        },
        None => proxied_json(500, "{}", trailer),
    }
}

/// The response for a transport that failed on a request to `url`: status
/// 500, with a body that names the URL.
pub fn transport_failure(url: &str, trailer: &str) -> (response: ProxiedResponse)
    ensures
        response@ == json_reply(500, unexpected_text(Some(json_string(url@))), trailer@),
{
    match quote(url) {
        Ok(quoted) => unexpected_response(Some(quoted), trailer),
        Err(_) => unexpected_response(None, trailer),
    }
}

} // verus!
