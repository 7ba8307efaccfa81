//! The forwarding path convention.
//!
//! A request whose path is `/lowdown-fwd-` or `/lowdown-forward-`, then
//! `http` or `https`, a slash, a host and perhaps a path, names its
//! destination in the path itself. Such a request is rewritten before
//! anything else reads it: the destination header is set to the scheme and
//! the host, and the path becomes what follows the host.

use crate::headers::{header_entries, header_set, is_plain_name, set_header, Entry};
use crate::settings::text_view;
use crate::text::{
    chars_of, find, first_occurrence, lemma_first_occurrence, slice, starts_with, string_of, suffix,
};
use http::header::HeaderMap;
use http::Uri;
use vstd::prelude::*;
use vstd::string::StringSliceAdditionalSpecFns;
use vstd::utf8::encode_utf8;

verus! {

/// The header that names the destination of a request.
pub const DESTINATION_HEADER: &'static str = "x-lowdown-destination-url";

/// A forwarding target: the scheme, the host, and the new path.
pub type Target = (Seq<char>, Seq<char>, Seq<char>);

/// What `http::Uri` makes of `text`, where it parses: the path with the
/// query, by `Uri::path_and_query`, if the `Uri` has them, and the path, by
/// `Uri::path`.
pub uninterp spec fn uri_parts(text: Seq<char>) -> Option<(Option<Seq<char>>, Seq<char>)>;

/// The path with the query of the `http::Uri` that `text` parses to, or its
/// path alone where it has no more.
pub open spec fn uri_target(text: Seq<char>) -> Option<Seq<char>> {
    match uri_parts(text) {
        Some((Some(target), _)) => Some(target),
        Some((None, path)) => Some(path),
        None => None,
    }
}

/// The target that `after`, the text behind the scheme and its slash, holds
/// for `scheme`: the host runs to the first slash, the path from that slash
/// on. Without a host there is no target; without a path the path is `/`.
pub open spec fn split_target(scheme: Seq<char>, after: Seq<char>) -> Option<Target> {
    let cut = match first_occurrence(after, "/"@) {
        Some(at) => at,
        None => after.len() as int,
    };
    if cut == 0 {
        None
    } else {
        Some(
            (
                scheme,
                after.take(cut),
                if cut < after.len() {
                    after.skip(cut)
                } else {
                    "/"@
                },
            ),
        )
    }
}

/// What `rest`, the text behind the forwarding prefix, holds: nothing where
/// it does not begin with `http/` or `https/`, else the target behind that,
/// if there is one.
pub open spec fn target_in(rest: Seq<char>) -> Option<Option<Target>> {
    if "http/"@.is_prefix_of(rest) {
        Some(split_target("http"@, rest.skip("http/"@.len() as int)))
    } else if "https/"@.is_prefix_of(rest) {
        Some(split_target("https"@, rest.skip("https/"@.len() as int)))
    } else {
        None
    }
}

/// What `uri` holds behind `prefix`, where it begins with it.
pub open spec fn target_behind(uri: Seq<char>, prefix: Seq<char>) -> Option<Option<Target>> {
    if prefix.is_prefix_of(uri) {
        target_in(uri.skip(prefix.len() as int))
    } else {
        None
    }
}

/// The forwarding target that the path `uri` names, if it names one.
pub open spec fn forward_target(uri: Seq<char>) -> Option<Target> {
    match target_behind(uri, "/lowdown-fwd-"@) {
        Some(target) => target,
        None => match target_behind(uri, "/lowdown-forward-"@) {
            Some(target) => target,
            None => None,
        },
    }
}

/// The destination that a target names: its scheme, `://`, and its host.
pub open spec fn target_destination(target: Target) -> Seq<char> {
    target.0 + "://"@ + target.1
}

/// The path that a request is given in place of a forwarding path: the path
/// of the target as `http::Uri` reads it, or `/` where it does not read it.
pub open spec fn target_path(target: Target) -> Seq<char> {
    match uri_target(target.2) {
        Some(path) => path,
        None => "/"@,
    }
}

/// The three parts of a target as strings.
pub open spec fn target_view(target: Option<(String, String, String)>) -> Option<Target> {
    match target {
        Some((scheme, host, path)) => Some((scheme@, host@, path@)),
        None => None,
    }
}

/// What a parsed request target holds, with text as character sequences.
pub open spec fn parts_view(parts: Option<(Option<String>, String)>) -> Option<
    (Option<Seq<char>>, Seq<char>),
> {
    match parts {
        Some((target, path)) => Some((text_view(target), path@)),
        None => None,
    }
}

/// Parses `text` with `http::Uri`, by its `FromStr`, and hands out what
/// `Uri::path_and_query` and `Uri::path` give for it.
#[verifier::external_body]
fn parse_uri(text: &str) -> (parts: Option<(Option<String>, String)>)
    ensures
        parts_view(parts) == uri_parts(text@),
{
    match text.parse::<Uri>() {
        Ok(uri) => {
            let target = uri.path_and_query().map(|target| target.as_str().to_string());
            Some((target, uri.path().to_string()))
        },
        Err(_) => None,
    }
}

/// The path with the query of a parsed request target, or its path alone
/// where it has no more.
pub fn request_target(parts: Option<(Option<String>, String)>) -> (target: Option<String>)
    ensures
        text_view(target) == match parts_view(parts) {
            Some((Some(target), _)) => Some(target),
            Some((None, path)) => Some(path),
            None => None,
        },
{
    match parts {
        Some((Some(target), _)) => Some(target),
        Some((None, path)) => Some(path),
        None => None,
    }
}

fn split_after(scheme: &str, after: &Vec<char>) -> (target: Option<(String, String, String)>)
    ensures
        target_view(target) == split_target(scheme@, after@),
{
    let slash = chars_of("/");
    proof {
        reveal_strlit("/");
        lemma_first_occurrence(after@, slash@, 0);
    }
    let cut = match find(after, &slash) {
        Some(at) => at,
        None => after.len(),
    };
    if cut == 0 {
        return None;
    }
    let host = string_of(&slice(after, 0, cut));
    let path = if cut < after.len() {
        string_of(&suffix(after, cut))
    } else {
        "/".to_owned()
    };
    Some((scheme.to_owned(), host, path))
}

fn parse_rest(rest: &Vec<char>) -> (target: Option<Option<(String, String, String)>>)
    ensures
        match target {
            Some(t) => target_in(rest@) == Some(target_view(t)),
            None => target_in(rest@) is None,
        },
{
    let http = chars_of("http/");
    let https = chars_of("https/");
    if starts_with(rest, &http) {
        Some(split_after("http", &suffix(rest, http.len())))
    } else if starts_with(rest, &https) {
        Some(split_after("https", &suffix(rest, https.len())))
    } else {
        None
    }
}

fn parse_behind(uri: &Vec<char>, prefix: &str) -> (target: Option<Option<(String, String, String)>>)
    ensures
        match target {
            Some(t) => target_behind(uri@, prefix@) == Some(target_view(t)),
            None => target_behind(uri@, prefix@) is None,
        },
{
    let lead = chars_of(prefix);
    if starts_with(uri, &lead) {
        parse_rest(&suffix(uri, lead.len()))
    } else {
        None
    }
}

/// The scheme, the host and the new path that a forwarding path names.
pub fn parse_forward_target(uri: &str) -> (target: Option<(String, String, String)>)
    ensures
        target_view(target) == forward_target(uri@),
{
    let chars = chars_of(uri);
    match parse_behind(&chars, "/lowdown-fwd-") {
        Some(target) => target,
        None => match parse_behind(&chars, "/lowdown-forward-") {
            Some(target) => target,
            None => None,
        },
    }
}

/// The name of the destination header is a plain header name.
proof fn lemma_destination_header_is_plain()
    ensures
        is_plain_name(DESTINATION_HEADER@),
{
    reveal_strlit("x-lowdown-destination-url");
}

/// The path that replaces a forwarding path, given what `http::Uri` made of
/// the path of the target.
pub fn rewritten_path(parsed: Option<String>) -> (path: String)
    ensures
        path@ == match text_view(parsed) {
            Some(p) => p,
            None => "/"@,
        },
{
    match parsed {
        Some(path) => path,
        None => "/".to_owned(),
    }
}

/// How the forwarding rewrite relates a request to what it becomes. `uri`
/// and `before` are the path and the headers of the request, `path` and
/// `after` what they are rewritten to. Where `uri` names a target, the path
/// is the path of the target, and the destination header is set to the
/// destination of the target, as `header_set` says: always where the
/// destination is a legal header value and the map has room. A path that
/// names no target leaves everything as it is.
pub open spec fn forwarded(
    uri: Seq<char>,
    before: Seq<Entry>,
    path: Seq<char>,
    after: Seq<Entry>,
) -> bool {
    match forward_target(uri) {
        Some(target) => {
            let destination = encode_utf8(target_destination(target));
            &&& path == target_path(target)
            &&& header_set(before, DESTINATION_HEADER@, destination, after)
        },
        None => path == uri && after == before,
    }
}

/// Rewrites a request that uses the forwarding path convention. `uri` is the
/// path of the request with its query; the result is the path that the
/// request has from now on.
pub fn rewrite_forwarding(uri: &str, headers: &mut HeaderMap) -> (path: String)
    ensures
        forwarded(uri@, header_entries(*old(headers)), path@, header_entries(*final(headers))),
{
    match parse_forward_target(uri) {
        Some((scheme, host, new_path)) => {
            let mut destination = chars_of(scheme.as_str());
            let mut mark = chars_of("://");
            let mut rest = chars_of(host.as_str());
            destination.append(&mut mark);
            destination.append(&mut rest);
            let destination = string_of(&destination);
            proof {
                lemma_destination_header_is_plain();
            }
            let stored = set_header(headers, DESTINATION_HEADER, destination.as_str().as_bytes());
            rewritten_path(request_target(parse_uri(new_path.as_str())))
        },
        None => uri.to_owned(),
    }
}

} // verus!
