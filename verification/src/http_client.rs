//! What goes out to a destination and what comes back.
//!
//! The transport itself is not part of this library: the caller sends an
//! `OutgoingRequest` and hands back a `ProxiedResponse`, or the error of the
//! transport.

use crate::headers::{copy_headers, header_entries, Entry};
use crate::text::{chars_of, string_of};
use http::header::HeaderMap;
use vstd::prelude::*;

verus! {

/// A request to a destination.
#[derive(Debug)]
pub struct OutgoingRequest {
    pub method: String,
    pub url: String,
    pub headers: HeaderMap,
    pub body: Vec<u8>,
}

/// What an `OutgoingRequest` holds.
pub struct OutgoingView {
    pub method: Seq<char>,
    pub url: Seq<char>,
    pub headers: Seq<Entry>,
    pub body: Seq<u8>,
}

impl View for OutgoingRequest {
    type V = OutgoingView;

    open spec fn view(&self) -> OutgoingView {
        OutgoingView {
            method: self.method@,
            url: self.url@,
            headers: header_entries(self.headers),
            body: self.body@,
        }
    }
}

impl Clone for OutgoingRequest {
    fn clone(&self) -> (copy: OutgoingRequest)
        ensures
            copy@ == self@,
    {
        OutgoingRequest {
            method: self.method.clone(),
            url: self.url.clone(),
            headers: copy_headers(&self.headers),
            body: self.body.clone(),
        }
    }
}

/// The response of a destination, or a response made in its place.
#[derive(Debug)]
pub struct ProxiedResponse {
    pub status: u16,
    pub headers: HeaderMap,
    pub body: Vec<u8>,
}

/// What a `ProxiedResponse` holds.
pub struct ResponseView {
    pub status: u16,
    pub headers: Seq<Entry>,
    pub body: Seq<u8>,
}

impl View for ProxiedResponse {
    type V = ResponseView;

    open spec fn view(&self) -> ResponseView {
        ResponseView {
            status: self.status,
            headers: header_entries(self.headers),
            body: self.body@,
        }
    }
}

impl Clone for ProxiedResponse {
    fn clone(&self) -> (copy: ProxiedResponse)
        ensures
            copy@ == self@,
    {
        ProxiedResponse {
            status: self.status,
            headers: copy_headers(&self.headers),
            body: self.body.clone(),
        }
    }
}

impl ProxiedResponse {
    pub fn new(status: u16, headers: HeaderMap, body: Vec<u8>) -> (response: ProxiedResponse)
        ensures
            response@ == (ResponseView {
                status,
                headers: header_entries(headers),
                body: body@,
            }),
    {
        ProxiedResponse { status, headers, body }
    }
}

/// The failure of a transport.
#[derive(Debug, Clone)]
pub enum HttpClientError {
    Transport(String),
}

impl HttpClientError {
    /// The message of this error.
    pub fn message(&self) -> (text: String)
        ensures
            text@ == "request failed: "@ + self->0@,
    {
        match self {
            HttpClientError::Transport(reason) => {
                let mut text = chars_of("request failed: ");
                let mut rest = chars_of(reason.as_str());
                text.append(&mut rest);
                string_of(&text)
            },
        }
    }
}

} // verus!
