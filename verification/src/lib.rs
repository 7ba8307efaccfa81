//! A fault-injection reverse proxy, as a library.
//!
//! The proxy forwards each request to a destination that the request or the
//! configuration names, and on the way injects delays, failures and doubled
//! requests, as layered settings tell it. This crate holds the rules: the
//! settings and their layers, the request matcher, the state that requests
//! share, the forwarding path convention, and the pipeline of one request.
//! It neither listens nor sends; a server drives `proxy::step` and does what
//! it says.

pub mod destination;
pub mod forwarding;
pub mod headers;
pub mod http_client;
pub mod matcher;
pub mod proxy;
pub mod response;
pub mod settings;
pub mod state;
pub mod text;
pub mod trigger;
