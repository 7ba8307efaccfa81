//! The request matcher.
//!
//! `matches_request` decides whether the faults of a `Settings` value apply
//! to a request: it is the conjunction of six criteria, each of which passes
//! where its field is `*`.

use crate::headers::{header_entries, header_pairs, header_text, value_text, Entry};
use crate::settings::{text_view, Settings, SettingsView};
use crate::text::{
    chars_equal, chars_of, equal_ignoring_case, find, first_occurrence, is_text,
    lemma_first_occurrence, lowercase, occurs_at, starts_with, str_equal, string_of, suffix,
    to_lowercase,
};
use http::header::HeaderMap;
use regex::Regex;
use vstd::prelude::*;

verus! {

/// `regex::Error`: why a pattern does not compile.
#[verifier::external_type_specification]
#[verifier::external_body]
pub struct ExRegexError(regex::Error);

/// What the matcher reads of a request: its method, its path with the
/// query, and its headers. A header name stands in lower case; where a name
/// stands twice, the later pair counts.
#[derive(Debug)]
pub struct RequestContext {
    pub method: String,
    pub uri: String,
    pub headers: Vec<(String, String)>,
}

/// What a `RequestContext` holds, with text as character sequences.
pub struct RequestView {
    pub method: Seq<char>,
    pub uri: Seq<char>,
    pub headers: Seq<(Seq<char>, Seq<char>)>,
}

impl View for RequestContext {
    type V = RequestView;

    open spec fn view(&self) -> RequestView {
        RequestView { method: self.method@, uri: self.uri@, headers: self.headers.deep_view() }
    }
}

impl RequestContext {
    pub fn new(method: String, uri: String, headers: Vec<(String, String)>) -> (ctx: RequestContext)
        ensures
            ctx@ == (RequestView { method: method@, uri: uri@, headers: headers.deep_view() }),
    {
        RequestContext { method, uri, headers }
    }
}

/// Whether `regex::Regex::new` accepts `pattern`.
pub uninterp spec fn regex_compiles(pattern: Seq<char>) -> bool;

/// Whether `regex::Regex::is_match` finds a match of `pattern` somewhere in
/// `text`.
pub uninterp spec fn regex_is_match(pattern: Seq<char>, text: Seq<char>) -> bool;

/// `pattern` anchored at both ends: a match of it is all of the text.
pub open spec fn anchored(pattern: Seq<char>) -> Seq<char> {
    "^(?:"@ + pattern + ")$"@
}

/// Whether `pattern` matches the whole of `text`: the pattern compiles, and
/// anchored at both ends it compiles and matches.
pub open spec fn regex_matches_whole(pattern: Seq<char>, text: Seq<char>) -> bool {
    &&& regex_compiles(pattern)
    &&& regex_compiles(anchored(pattern))
    &&& regex_is_match(anchored(pattern), text)
}

/// The headers of `entries` whose value is text, each with its name in lower
/// case and its value as text.
pub open spec fn text_headers(entries: Seq<Entry>) -> Seq<(Seq<char>, Seq<char>)>
    decreases entries.len(),
{
    if entries.len() == 0 {
        Seq::empty()
    } else {
        let before = text_headers(entries.drop_last());
        match header_text(entries.last().1) {
            Some(text) => before.push((lowercase(entries.last().0), text)),
            None => before,
        }
    }
}

/// The value that `headers` holds for `name`: that of the last pair of that
/// name.
pub open spec fn header_lookup(headers: Seq<(Seq<char>, Seq<char>)>, name: Seq<char>) -> Option<
    Seq<char>,
>
    decreases headers.len(),
{
    if headers.len() == 0 {
        None
    } else if headers.last().0 == name {
        Some(headers.last().1)
    } else {
        header_lookup(headers.drop_last(), name)
    }
}

/// The text after the first `://` of `url`.
pub open spec fn host_fragment(url: Seq<char>) -> Option<Seq<char>> {
    match first_occurrence(url, "://"@) {
        Some(at) => Some(url.skip(at + 3)),
        None => None,
    }
}

/// The pattern is `*` or the path with the query itself.
pub open spec fn uri_matches(pattern: Seq<char>, uri: Seq<char>) -> bool {
    pattern == "*"@ || pattern == uri
}

/// The pattern is `*`, or a regular expression that, anchored at both
/// ends, matches the entire path with the query. A pattern that does not
/// compile matches nothing.
pub open spec fn uri_regex_matches(pattern: Seq<char>, uri: Seq<char>) -> bool {
    pattern == "*"@ || regex_matches_whole(pattern, uri)
}

/// The prefix is `*` or the path with the query begins with it.
pub open spec fn prefix_matches(prefix: Seq<char>, uri: Seq<char>) -> bool {
    prefix == "*"@ || prefix.is_prefix_of(uri)
}

/// The pattern is `*` or the method, whatever the case of their letters.
pub open spec fn method_matches(pattern: Seq<char>, method: Seq<char>) -> bool {
    pattern == "*"@ || lowercase(pattern) == lowercase(method)
}

/// The pattern is `*` or the host fragment of the destination.
pub open spec fn host_matches(pattern: Seq<char>, destination: Option<Seq<char>>) -> bool {
    pattern == "*"@ || (destination matches Some(url) && host_fragment(url) == Some(pattern))
}

/// The name or the value is `*`, or the request has the header `name`, in
/// any letter case, with exactly `value`.
pub open spec fn header_matches(
    headers: Seq<(Seq<char>, Seq<char>)>,
    name: Seq<char>,
    value: Seq<char>,
) -> bool {
    name == "*"@ || value == "*"@ || header_lookup(headers, lowercase(name)) == Some(value)
}

/// A request matches settings where all six criteria pass.
pub open spec fn request_matches(ctx: RequestView, settings: SettingsView) -> bool {
    &&& uri_matches(settings.match_uri, ctx.uri)
    &&& uri_regex_matches(settings.match_uri_regex, ctx.uri)
    &&& host_matches(settings.match_host, settings.destination_url)
    &&& prefix_matches(settings.match_uri_starts_with, ctx.uri)
    &&& method_matches(settings.match_method, ctx.method)
    &&& header_matches(ctx.headers, settings.match_header_name, settings.match_header_value)
}

/// Settings whose match fields are all `*` match every request.
pub proof fn lemma_wildcards_match(ctx: RequestView, settings: SettingsView)
    requires
        settings.match_uri == "*"@,
        settings.match_uri_regex == "*"@,
        settings.match_method == "*"@,
        settings.match_uri_starts_with == "*"@,
        settings.match_host == "*"@,
        settings.match_header_name == "*"@ || settings.match_header_value == "*"@,
    ensures
        request_matches(ctx, settings),
{
}

/// Where the header criterion names a header and a value, a request
/// without that header does not pass it.
pub proof fn lemma_missing_header(
    headers: Seq<(Seq<char>, Seq<char>)>,
    name: Seq<char>,
    value: Seq<char>,
)
    requires
        name != "*"@,
        value != "*"@,
        forall|i: int| 0 <= i < headers.len() ==> (#[trigger] headers[i]).0 != lowercase(name),
    ensures
        !header_matches(headers, name, value),
    decreases headers.len(),
{
    if headers.len() > 0 {
        assert(headers.last() == headers[headers.len() - 1]);
        let front = headers.drop_last();
        assert forall|i: int| 0 <= i < front.len() implies (#[trigger] front[i]).0 != lowercase(
            name,
        ) by {
            assert(front[i] == headers[i]);
        }
        lemma_missing_header(front, name, value);
    }
}

/// Where the header criterion names a header and a value, a request that
/// has that header once passes it exactly where the value is the same.
pub proof fn lemma_single_header(
    headers: Seq<(Seq<char>, Seq<char>)>,
    at: int,
    name: Seq<char>,
    value: Seq<char>,
)
    requires
        name != "*"@,
        value != "*"@,
        0 <= at < headers.len(),
        headers[at].0 == lowercase(name),
        forall|i: int| at < i < headers.len() ==> (#[trigger] headers[i]).0 != lowercase(name),
    ensures
        header_matches(headers, name, value) <==> headers[at].1 == value,
    decreases headers.len(),
{
    if at < headers.len() - 1 {
        assert(headers.last() == headers[headers.len() - 1]);
        let front = headers.drop_last();
        assert forall|i: int| at < i < front.len() implies (#[trigger] front[i]).0 != lowercase(
            name,
        ) by {
            assert(front[i] == headers[i]);
        }
        assert(front[at] == headers[at]);
        lemma_single_header(front, at, name, value);
    }
}

/// Compiles `pattern` with `regex::Regex::new` and asks `Regex::is_match`
/// whether it matches somewhere in `text`. The result is an error exactly
/// where the pattern does not compile.
#[verifier::external_body]
fn search(pattern: &str, text: &str) -> (found: Result<bool, regex::Error>)
    ensures
        found is Ok == regex_compiles(pattern@),
        found matches Ok(matched) ==> matched == regex_is_match(pattern@, text@),
{
    let regex = Regex::new(pattern)?;
    Ok(regex.is_match(text))
}

/// `pattern` anchored at both ends.
pub fn anchor(pattern: &str) -> (whole: String)
    ensures
        whole@ == anchored(pattern@),
{
    let mut text = chars_of("^(?:");
    let mut inner = chars_of(pattern);
    let mut end = chars_of(")$");
    text.append(&mut inner);
    text.append(&mut end);
    string_of(&text)
}

/// Whether a pattern matches a whole text, given whether the pattern
/// compiles and, where the anchored pattern compiles, whether that matches
/// the text.
pub fn whole_match(compiles: bool, anchored_match: Option<bool>) -> (matched: bool)
    ensures
        matched == (compiles && anchored_match == Some(true)),
{
    match anchored_match {
        Some(found) => compiles && found,
        None => false,
    }
}

/// Whether `pattern` compiles.
fn compiles(pattern: &str) -> (valid: bool)
    ensures
        valid == regex_compiles(pattern@),
{
    match search(pattern, "") {
        Ok(_) => true,
        Err(_) => false,
    }
}

/// Whether `pattern` matches somewhere in `text`, where it compiles.
fn matches_somewhere(pattern: &str, text: &str) -> (found: Option<bool>)
    ensures
        found == (if regex_compiles(pattern@) {
            Some(regex_is_match(pattern@, text@))
        } else {
            None
        }),
{
    match search(pattern, text) {
        Ok(matched) => Some(matched),
        Err(_) => None,
    }
}

/// The request context of a request with this method, this path with the
/// query, and these headers. Headers whose value is not text are left out.
pub fn from_parts(method: &str, uri: &str, headers: &HeaderMap) -> (ctx: RequestContext)
    ensures
        ctx@ == (RequestView {
            method: method@,
            uri: uri@,
            headers: text_headers(header_entries(*headers)),
        }),
{
    RequestContext {
        method: method.to_owned(),
        uri: uri.to_owned(),
        headers: headers_to_map(headers),
    }
}

/// The headers whose value is text, each with its name in lower case.
pub fn headers_to_map(headers: &HeaderMap) -> (map: Vec<(String, String)>)
    ensures
        map.deep_view() == text_headers(header_entries(*headers)),
{
    let pairs = header_pairs(headers);
    let mut map: Vec<(String, String)> = Vec::new();
    let mut i: usize = 0;
    assert(map.deep_view() =~= text_headers(pairs.deep_view().take(0)));
    while i < pairs.len()
        invariant
            i <= pairs.len(),
            pairs.deep_view() == header_entries(*headers),
            map.deep_view() == text_headers(pairs.deep_view().take(i as int)),
        decreases pairs.len() - i,
    {
        let ghost before = map.deep_view();
        proof {
            let read = pairs.deep_view().take(i + 1);
            assert(read.drop_last() == pairs.deep_view().take(i as int));
            assert(pairs[i as int].1.deep_view() =~= pairs[i as int].1@);
            assert(read.last() == (pairs[i as int].0@, pairs[i as int].1@));
        }
        if let Some(text) = value_text(&pairs[i].1) {
            let name = string_of(&to_lowercase(&chars_of(pairs[i].0.as_str())));
            let value = string_of(&text);
            map.push((name, value));
            assert(map.deep_view() =~= before.push((name@, value@)));
        }
        i += 1;
    }
    assert(pairs.deep_view().take(pairs.len() as int) == pairs.deep_view());
    map
}

/// Whether `text` is the single character `*`.
fn is_wildcard(text: &str) -> (wild: bool)
    ensures
        wild == (text@ == "*"@),
{
    let chars = chars_of(text);
    is_text(&chars, "*")
}

/// Whether the faults of `settings` apply to the request `ctx`.
pub fn matches_request(ctx: &RequestContext, settings: &Settings) -> (matched: bool)
    ensures
        matched == request_matches(ctx@, settings@),
{
    let destination = match &settings.destination_url {
        Some(url) => Some(url.as_str()),
        None => None,
    };
    matches_uri(settings.match_uri.as_str(), ctx.uri.as_str()) && matches_uri_regex(
        settings.match_uri_regex.as_str(),
        ctx.uri.as_str(),
    ) && matches_host(settings.match_host.as_str(), destination) && matches_uri_starts_with(
        settings.match_uri_starts_with.as_str(),
        ctx.uri.as_str(),
    ) && matches_method(settings.match_method.as_str(), ctx.method.as_str()) && match_header(
        &ctx.headers,
        settings.match_header_name.as_str(),
        settings.match_header_value.as_str(),
    )
}

pub fn matches_uri(pattern: &str, uri: &str) -> (matched: bool)
    ensures
        matched == uri_matches(pattern@, uri@),
{
    let wanted = chars_of(pattern);
    is_text(&wanted, "*") || is_text(&wanted, uri)
}

pub fn matches_uri_regex(pattern: &str, uri: &str) -> (matched: bool)
    ensures
        matched == uri_regex_matches(pattern@, uri@),
{
    if is_wildcard(pattern) {
        return true;
    }
    if !compiles(pattern) {
        return false;
    }
    let whole = anchor(pattern);
    whole_match(true, matches_somewhere(whole.as_str(), uri))
}

pub fn matches_uri_starts_with(prefix: &str, uri: &str) -> (matched: bool)
    ensures
        matched == prefix_matches(prefix@, uri@),
{
    let wanted = chars_of(prefix);
    is_text(&wanted, "*") || starts_with(&chars_of(uri), &wanted)
}

pub fn matches_method(pattern: &str, method: &str) -> (matched: bool)
    ensures
        matched == method_matches(pattern@, method@),
{
    let wanted = chars_of(pattern);
    is_text(&wanted, "*") || equal_ignoring_case(&wanted, &chars_of(method))
}

pub fn match_header(headers: &Vec<(String, String)>, name: &str, value: &str) -> (matched: bool)
    ensures
        matched == header_matches(headers.deep_view(), name@, value@),
{
    if is_wildcard(name) || is_wildcard(value) {
        return true;
    }
    let key = to_lowercase(&chars_of(name));
    let wanted = chars_of(value);
    let mut i: usize = headers.len();
    assert(headers.deep_view().take(i as int) == headers.deep_view());
    while i > 0
        invariant
            i <= headers.len(),
            key@ == lowercase(name@),
            wanted@ == value@,
            name@ != "*"@,
            value@ != "*"@,
            header_lookup(headers.deep_view(), key@) == header_lookup(
                headers.deep_view().take(i as int),
                key@,
            ),
        decreases i,
    {
        i -= 1;
        proof {
            let read = headers.deep_view().take(i + 1);
            assert(read.drop_last() == headers.deep_view().take(i as int));
            assert(read.last() == (headers[i as int].0@, headers[i as int].1@));
        }
        if chars_equal(&chars_of(headers[i].0.as_str()), &key) {
            return chars_equal(&chars_of(headers[i].1.as_str()), &wanted);
        }
    }
    false
}

pub fn matches_host(pattern: &str, destination: Option<&str>) -> (matched: bool)
    ensures
        matched == host_matches(
            pattern@,
            match destination {
                Some(url) => Some(url@),
                None => None,
            },
        ),
{
    if is_wildcard(pattern) {
        return true;
    }
    match destination {
        Some(url) => match destination_host_fragment(url) {
            Some(host) => str_equal(host.as_str(), pattern),
            None => false,
        },
        None => false,
    }
}

/// The host fragment of a destination: the text after its first `://`.
pub fn destination_host_fragment(url: &str) -> (host: Option<String>)
    ensures
        text_view(host) == host_fragment(url@),
{
    let chars = chars_of(url);
    let mark = chars_of("://");
    proof {
        reveal_strlit("://");
    }
    match find(&chars, &mark) {
        Some(at) => {
            proof {
                lemma_first_occurrence(chars@, mark@, 0);
                assert(occurs_at(chars@, mark@, at as int));
                assert(mark@.len() == 3);
                assert(at + 3 <= chars.len());
            }
            let start: usize = at + 3;
            Some(string_of(&suffix(&chars, start)))
        },
        None => None,
    }
}

} // verus!
