//! The destination of a request.
//!
//! A destination is the URL that a request is forwarded to. Of that URL the
//! proxy needs the scheme and the authority: the host, with the port where
//! the URL gives one.

use crate::settings::text_view;
use crate::text::{chars_of, decimal, push_decimal, string_of};
use url::Url;
use vstd::prelude::*;

verus! {

/// `url::ParseError`: why a text is no URL.
#[verifier::external_type_specification]
#[verifier::external_body]
pub struct ExParseError(url::ParseError);

/// Whether `url::Url::parse` accepts `text`.
pub uninterp spec fn url_parses(text: Seq<char>) -> bool;

/// The scheme, by `Url::scheme`, of the URL that `text` parses to.
pub uninterp spec fn url_scheme(text: Seq<char>) -> Seq<char>;

/// The host, by `Url::host_str`, of the URL that `text` parses to.
pub uninterp spec fn url_host(text: Seq<char>) -> Option<Seq<char>>;

/// The port, by `Url::port`, of the URL that `text` parses to.
pub uninterp spec fn url_port(text: Seq<char>) -> Option<u16>;

/// What the proxy reads of a parsed URL.
#[derive(Debug, Clone)]
pub struct UrlParts {
    pub scheme: String,
    pub host: Option<String>,
    pub port: Option<u16>,
}

/// Why a URL is no destination.
#[derive(Debug, Clone, Copy, PartialEq, Eq, Structural)]
pub enum DestinationError {
    /// The URL does not parse, or has no host.
    Invalid,
}

/// A destination: the URL as it was given, its scheme and its authority.
#[derive(Debug, Clone)]
pub struct Destination {
    pub raw: String,
    pub scheme: String,
    pub authority: String,
}

/// What a `Destination` holds, with text as character sequences.
pub struct DestinationView {
    pub raw: Seq<char>,
    pub scheme: Seq<char>,
    pub authority: Seq<char>,
}

impl View for Destination {
    type V = DestinationView;

    open spec fn view(&self) -> DestinationView {
        DestinationView { raw: self.raw@, scheme: self.scheme@, authority: self.authority@ }
    }
}

/// The authority of a host and a port: the host, and behind a colon the
/// port in base ten, where there is a port.
pub open spec fn authority_of(host: Seq<char>, port: Option<u16>) -> Seq<char> {
    match port {
        Some(port) => host + ":"@ + decimal(port as nat),
        None => host,
    }
}

/// The destination that the parts of a URL give; a URL without a host gives
/// none.
pub open spec fn destination_from(
    raw: Seq<char>,
    scheme: Seq<char>,
    host: Option<Seq<char>>,
    port: Option<u16>,
) -> Option<DestinationView> {
    match host {
        Some(host) => Some(DestinationView { raw, scheme, authority: authority_of(host, port) }),
        None => None,
    }
}

/// The destination that `url` is, as `url::Url` reads it.
pub open spec fn destination_of_url(url: Seq<char>) -> Option<DestinationView> {
    if url_parses(url) {
        destination_from(url, url_scheme(url), url_host(url), url_port(url))
    } else {
        None
    }
}

/// The origin of a destination: its scheme, `://`, and its authority.
pub open spec fn origin_of(destination: DestinationView) -> Seq<char> {
    destination.scheme + "://"@ + destination.authority
}

/// Parses `text` with `url::Url::parse` and hands out the scheme, the host
/// and the port of the URL, by `Url::scheme`, `Url::host_str` and
/// `Url::port`. The result is an error exactly where the text does not parse.
#[verifier::external_body]
fn parse_url(text: &str) -> (parts: Result<UrlParts, url::ParseError>)
    ensures
        parts is Ok == url_parses(text@),
        parts matches Ok(p) ==> {
            &&& p.scheme@ == url_scheme(text@)
            &&& text_view(p.host) == url_host(text@)
            &&& p.port == url_port(text@)
        },
{
    let parsed = Url::parse(text)?;
    Ok(
        UrlParts {
            scheme: parsed.scheme().to_string(),
            host: parsed.host_str().map(|host| host.to_string()),
            port: parsed.port(),
        },
    )
}

impl Destination {
    /// The destination that the parts of the URL `raw` give.
    pub fn from_parts(raw: &str, parts: UrlParts) -> (destination: Result<
        Destination,
        DestinationError,
    >)
        ensures
            match destination {
                Ok(d) => destination_from(raw@, parts.scheme@, text_view(parts.host), parts.port)
                    == Some(d@),
                Err(_) => parts.host is None,
            },
    {
        let host = match parts.host {
            Some(host) => host,
            None => { return Err(DestinationError::Invalid); },
        };
        let authority = match parts.port {
            Some(port) => {
                let mut text = chars_of(host.as_str());
                let mut colon = chars_of(":");
                text.append(&mut colon);
                push_decimal(&mut text, port as u64);
                string_of(&text)
            },
            None => host,
        };
        Ok(Destination { raw: raw.to_owned(), scheme: parts.scheme, authority })
    }

    /// Reads `url` as a destination. A URL that does not parse, or that has
    /// no host, is an error.
    pub fn parse(url: &str) -> (destination: Result<Destination, DestinationError>)
        ensures
            match destination {
                Ok(d) => destination_of_url(url@) == Some(d@),
                Err(_) => destination_of_url(url@) is None,
            },
    {
        match parse_url(url) {
            Ok(parts) => Destination::from_parts(url, parts),
            Err(_) => Err(DestinationError::Invalid),
        }
    }

    /// The origin of this destination: its scheme, `://`, and its authority.
    pub fn origin(&self) -> (origin: String)
        ensures
            origin@ == origin_of(self@),
    {
        let mut text = chars_of(self.scheme.as_str());
        let mut mark = chars_of("://");
        let mut rest = chars_of(self.authority.as_str());
        text.append(&mut mark);
        text.append(&mut rest);
        string_of(&text)
    }
}

} // verus!
