//! The proxy pipeline.
//!
//! One request passes these stages in order: the forwarding rewrite, the
//! resolution of its settings, the match, the delay and the fault before the
//! request goes out, the request to the destination, single or doubled, the
//! delay and the fault after the response has come, and the rewrite of the
//! response headers.
//!
//! The pipeline itself neither waits nor sends. `step` takes the state of a
//! request and what has just happened, and answers with the next state and
//! what is to be done: to sleep, to send, or to reply. The caller does that
//! and calls `step` again.

use crate::destination::{
    destination_of_url, origin_of, Destination, DestinationError, DestinationView,
};
use crate::forwarding::{forwarded, rewrite_forwarding};
use crate::headers::{
    copy_headers, first_value, has_room_for, header_entries, header_set, header_value,
    is_legal_value, is_plain_name, lemma_with_value, lemma_with_value_len, set_header, with_value,
    Entry,
};
use crate::http_client::{
    HttpClientError, OutgoingRequest, OutgoingView, ProxiedResponse, ResponseView,
};
use crate::matcher::{
    from_parts, matches_request, request_matches, text_headers, RequestContext, RequestView,
};
use crate::response::{
    error_text, fail_after_response, fail_after_text, failure_response, json_reply, json_string,
    status_from_code, status_of, transport_failure, unexpected_text, Failure,
};
use crate::settings::{header_layer, LayerView, Settings, SettingsLayer, SettingsView};
use crate::state::{snapshot, AppState};
use crate::text::{chars_of, string_of};
use crate::trigger::{draw, fires, flip, triggers};
use http::header::HeaderMap;
use vstd::prelude::*;
use vstd::string::StringSliceAdditionalSpecFns;
use vstd::utf8::encode_utf8;

verus! {

/// A request as it came in. The headers of the request, and its body, or
/// nothing where the body could not be read.
pub struct InboundRequest {
    pub method: String,
    pub uri: String,
    pub headers: HeaderMap,
    pub body: Option<Vec<u8>>,
}

/// A request whose settings and destination are known.
pub struct Plan {
    pub settings: Settings,
    pub matches: bool,
    pub method: String,
    pub uri: String,
    pub destination: Destination,
    pub headers: HeaderMap,
    pub body: Vec<u8>,
}

/// What a `Plan` holds.
pub struct PlanView {
    pub settings: SettingsView,
    pub matches: bool,
    pub method: Seq<char>,
    pub uri: Seq<char>,
    pub destination: DestinationView,
    pub headers: Seq<Entry>,
    pub body: Seq<u8>,
}

impl View for Plan {
    type V = PlanView;

    open spec fn view(&self) -> PlanView {
        PlanView {
            settings: self.settings@,
            matches: self.matches,
            method: self.method@,
            uri: self.uri@,
            destination: self.destination@,
            headers: header_entries(self.headers),
            body: self.body@,
        }
    }
}

/// A request that has gone out: what the stages after it need.
pub struct Exchange {
    pub settings: Settings,
    pub matches: bool,
    pub origin: Option<Vec<u8>>,
    pub url: String,
}

/// What an `Exchange` holds.
pub struct ExchangeView {
    pub settings: SettingsView,
    pub matches: bool,
    pub origin: Option<Seq<u8>>,
    pub url: Seq<char>,
}

impl View for Exchange {
    type V = ExchangeView;

    open spec fn view(&self) -> ExchangeView {
        ExchangeView {
            settings: self.settings@,
            matches: self.matches,
            origin: match self.origin {
                Some(o) => Some(o@),
                None => None,
            },
            url: self.url@,
        }
    }
}

/// Where a request stands.
pub enum ProxyState {
    /// Nothing has come in.
    Idle,
    /// The request sleeps before it goes out.
    Delayed(Plan),
    /// The request is with the destination.
    Sent(Exchange),
    /// The response sleeps before it goes back.
    Held(Exchange, ProxiedResponse),
    /// The reply has been given.
    Done,
}

/// What a `ProxyState` holds.
pub enum StateView {
    Idle,
    Delayed(PlanView),
    Sent(ExchangeView),
    Held(ExchangeView, ResponseView),
    Done,
}

impl View for ProxyState {
    type V = StateView;

    open spec fn view(&self) -> StateView {
        match self {
            ProxyState::Idle => StateView::Idle,
            ProxyState::Delayed(plan) => StateView::Delayed(plan@),
            ProxyState::Sent(exchange) => StateView::Sent(exchange@),
            ProxyState::Held(exchange, response) => StateView::Held(exchange@, response@),
            ProxyState::Done => StateView::Done,
        }
    }
}

/// What has happened to a request.
pub enum ProxyEvent {
    /// The request has come in.
    Request(InboundRequest),
    /// The sleep is over.
    Woke,
    /// The destination has answered, or the transport has failed: once for
    /// a single request, twice for a doubled one.
    Responses(
        Result<ProxiedResponse, HttpClientError>,
        Option<Result<ProxiedResponse, HttpClientError>>,
    ),
}

/// What is to be done for a request.
pub enum ProxyAction {
    /// Sleep for so many milliseconds, then report `Woke`.
    Sleep(u64),
    /// Send the request, twice at once where the flag is set, then report
    /// `Responses`.
    Send(OutgoingRequest, bool),
    /// Give this response to the client.
    Reply(ProxiedResponse),
}

/// What a `ProxyAction` holds.
pub enum ActionView {
    Sleep(u64),
    Send(OutgoingView, bool),
    Reply(ResponseView),
}

impl View for ProxyAction {
    type V = ActionView;

    open spec fn view(&self) -> ActionView {
        match self {
            ProxyAction::Sleep(ms) => ActionView::Sleep(*ms),
            ProxyAction::Send(request, duplicate) => ActionView::Send(request@, *duplicate),
            ProxyAction::Reply(response) => ActionView::Reply(response@),
        }
    }
}

/// The bytes of an optional byte vector.
pub open spec fn bytes_view(bytes: Option<Vec<u8>>) -> Option<Seq<u8>> {
    match bytes {
        Some(b) => Some(b@),
        None => None,
    }
}

/// The response of a reply.
pub open spec fn reply_of(action: ActionView) -> ResponseView {
    match action {
        ActionView::Reply(reply) => reply,
        _ => arbitrary(),
    }
}

/// What an optional response holds.
pub open spec fn response_view(response: Option<ProxiedResponse>) -> Option<ResponseView> {
    match response {
        Some(r) => Some(r@),
        None => None,
    }
}

/// The response of a call as a view: the response, or the error.
pub open spec fn outcome_view(outcome: Result<ProxiedResponse, HttpClientError>) -> Option<
    ResponseView,
> {
    match outcome {
        Ok(response) => Some(response@),
        Err(_) => None,
    }
}

/// How long a request sleeps at a delay stage: the configured time where the
/// delay fires and the time is not zero.
pub open spec fn delay_of(percentage: u8, ms: u64, matches: bool, drawn: u8) -> Option<u64> {
    if fires(percentage, matches, drawn) && ms > 0 {
        Some(ms)
    } else {
        None
    }
}

/// The plan of a request with these settings: the destination of the
/// settings, and whether the settings match the request. Without a
/// destination, and with one that is no URL with a host, there is a failure
/// in place of a plan.
pub open spec fn plan_of(
    settings: SettingsView,
    ctx: RequestView,
    headers: Seq<Entry>,
    body: Seq<u8>,
) -> Result<PlanView, Failure> {
    match settings.destination_url {
        None => Err(Failure::MissingDestination),
        Some(url) => match destination_of_url(url) {
            None => Err(Failure::InvalidDestination),
            Some(destination) => Ok(
                PlanView {
                    settings,
                    matches: request_matches(ctx, settings),
                    method: ctx.method,
                    uri: ctx.uri,
                    destination,
                    headers,
                    body,
                },
            ),
        },
    }
}

/// The headers of the request that goes out: those that came in, with
/// `host` set to the authority of the destination and, where the request
/// has an `origin`, with `origin` set to the origin of the destination.
pub open spec fn outgoing_headers(entries: Seq<Entry>, destination: DestinationView) -> Seq<Entry> {
    let with_host = with_value(entries, "host"@, encode_utf8(destination.authority));
    if first_value(entries, "origin"@) is Some {
        with_value(with_host, "origin"@, encode_utf8(origin_of(destination)))
    } else {
        with_host
    }
}

/// The request that goes out for a plan: the method and the body as they
/// came in, the URL of the destination with the path behind it, and the
/// outgoing headers.
pub open spec fn outgoing_request(plan: PlanView) -> OutgoingView {
    OutgoingView {
        method: plan.method,
        url: plan.destination.raw + plan.uri,
        headers: outgoing_headers(plan.headers, plan.destination),
        body: plan.body,
    }
}

/// What is kept of a plan once its request has gone out.
pub open spec fn exchange_of(plan: PlanView) -> ExchangeView {
    ExchangeView {
        settings: plan.settings,
        matches: plan.matches,
        origin: first_value(plan.headers, "origin"@),
        url: plan.destination.raw + plan.uri,
    }
}

/// Whether the outgoing headers can be written for a request with the
/// headers `entries`: the authority of the destination is a legal header
/// value, and so is its origin where the request has an `origin`.
pub open spec fn sendable(entries: Seq<Entry>, destination: DestinationView) -> bool {
    &&& is_legal_value(encode_utf8(destination.authority))
    &&& first_value(entries, "origin"@) is Some ==> is_legal_value(
        encode_utf8(origin_of(destination)),
    )
}

/// The stage before the request goes out, for the numbers `fail` and
/// `double` drawn for its two triggers. Where the fault fires, the reply is
/// the failure and nothing goes out. Otherwise the request goes out, doubled
/// where that trigger fires, or the reply is an invalid destination. The
/// request goes out only where the outgoing headers can be written, and
/// always where they can be written and the header map has room for two
/// headers.
pub open spec fn dispatched(
    plan: PlanView,
    trailer: Seq<char>,
    fail: u8,
    double: u8,
    state: StateView,
    action: ActionView,
) -> bool {
    if fires(plan.settings.fail_before_percentage, plan.matches, fail) {
        &&& state == StateView::Done
        &&& action == ActionView::Reply(
            json_reply(
                status_of(plan.settings.fail_before_code),
                error_text(Failure::FailBefore),
                trailer,
            ),
        )
    } else {
        let sent = {
            &&& state == StateView::Sent(exchange_of(plan))
            &&& action == ActionView::Send(
                outgoing_request(plan),
                fires(plan.settings.duplicate_percentage, plan.matches, double),
            )
        };
        let refused = {
            &&& state == StateView::Done
            &&& action == ActionView::Reply(
                json_reply(500, error_text(Failure::InvalidDestination), trailer),
            )
        };
        &&& sent || refused
        &&& sent ==> sendable(plan.headers, plan.destination)
        &&& sendable(plan.headers, plan.destination) && has_room_for(plan.headers, 2) ==> sent
    }
}

/// The response that stands for the outcome of one call: the response of
/// the destination, or, where the transport failed, a response with status
/// 500 that names the URL.
pub open spec fn stands_for(
    outcome: Option<ResponseView>,
    url: Seq<char>,
    trailer: Seq<char>,
    response: ResponseView,
) -> bool {
    match outcome {
        Some(upstream) => response == upstream,
        None => response == json_reply(500, unexpected_text(Some(json_string(url))), trailer),
    }
}

/// How the rewrite of the response headers relates the headers of a
/// response, `before`, to what they become, `after`, for the `origin` of the
/// request. Where the request had an origin and the response allows an
/// origin, the header that allows it is set to the origin of the request, as
/// `header_set` says: always where that origin is a legal header value and
/// the map has room. Otherwise the headers stay as they are.
pub open spec fn response_rewritten(
    before: Seq<Entry>,
    origin: Option<Seq<u8>>,
    after: Seq<Entry>,
) -> bool {
    match origin {
        Some(value) => if first_value(before, "access-control-allow-origin"@) is Some {
            header_set(before, "access-control-allow-origin"@, value, after)
        } else {
            after == before
        },
        None => after == before,
    }
}

/// The stage after the response has come, for the number `fail` drawn for
/// its trigger. Where the fault fires, the reply has the status of the
/// fault and tells the status of the destination. Otherwise the reply is
/// the response with its headers rewritten.
pub open spec fn settled(
    exchange: ExchangeView,
    response: ResponseView,
    trailer: Seq<char>,
    fail: u8,
    reply: ResponseView,
) -> bool {
    if fires(exchange.settings.fail_after_percentage, exchange.matches, fail) {
        reply == json_reply(
            status_of(exchange.settings.fail_after_code),
            fail_after_text(response.status),
            trailer,
        )
    } else {
        &&& reply.status == response.status
        &&& reply.body == response.body
        &&& response_rewritten(response.headers, exchange.origin, reply.headers)
    }
}

/// The stage at which the responses have come, for the coin `first_wins`
/// and the numbers `delay` and `fail` drawn for the triggers. The response
/// of a single call is selected; of two responses the coin selects one.
/// Where the delay fires, the selected response is held for that time;
/// otherwise it is settled at once.
pub open spec fn received(
    exchange: ExchangeView,
    first: ResponseView,
    second: Option<ResponseView>,
    trailer: Seq<char>,
    first_wins: bool,
    delay: u8,
    fail: u8,
    state: StateView,
    action: ActionView,
) -> bool {
    let selected = selected_response(first, second, first_wins);
    match delay_of(
        exchange.settings.delay_after_percentage,
        exchange.settings.delay_after_ms,
        exchange.matches,
        delay,
    ) {
        Some(ms) => state == StateView::Held(exchange, selected) && action == ActionView::Sleep(ms),
        None => {
            &&& state == StateView::Done
            &&& action matches ActionView::Reply(reply)
            &&& settled(exchange, selected, trailer, fail, reply)
        },
    }
}

/// The response that is selected: the only one, or the one that the coin
/// names.
pub open spec fn selected_response(
    first: ResponseView,
    second: Option<ResponseView>,
    first_wins: bool,
) -> ResponseView {
    match second {
        Some(other) => if first_wins {
            first
        } else {
            other
        },
        None => first,
    }
}

/// The stage at which a request with a plan begins, for the numbers drawn
/// for its three triggers. Where the delay fires, the request sleeps for
/// that time; otherwise it is dispatched at once.
pub open spec fn begun(
    plan: PlanView,
    trailer: Seq<char>,
    delay: u8,
    fail: u8,
    double: u8,
    state: StateView,
    action: ActionView,
) -> bool {
    match delay_of(
        plan.settings.delay_before_percentage,
        plan.settings.delay_before_ms,
        plan.matches,
        delay,
    ) {
        Some(ms) => state == StateView::Delayed(plan) && action == ActionView::Sleep(ms),
        None => dispatched(plan, trailer, fail, double, state, action),
    }
}

/// What becomes of a request once its settings are known. Without a plan
/// the reply tells why, with status 500; with a plan the request begins.
pub open spec fn planned(
    settings: SettingsView,
    ctx: RequestView,
    headers: Seq<Entry>,
    body: Seq<u8>,
    trailer: Seq<char>,
    delay: u8,
    fail: u8,
    double: u8,
    state: StateView,
    action: ActionView,
) -> bool {
    match plan_of(settings, ctx, headers, body) {
        Ok(plan) => begun(plan, trailer, delay, fail, double, state, action),
        Err(failure) => {
            &&& state == StateView::Done
            &&& action == ActionView::Reply(json_reply(500, error_text(failure), trailer))
        },
    }
}

/// What becomes of a request that has come in, behind the forwarding
/// rewrite: its settings are resolved against the shared state, for some
/// admin overrides, and it goes on as `planned` says, for some numbers below
/// 100.
pub open spec fn started(
    env: LayerView,
    trailer: Seq<char>,
    method: Seq<char>,
    uri: Seq<char>,
    headers: Seq<Entry>,
    body: Seq<u8>,
    state: StateView,
    action: ActionView,
) -> bool {
    let ctx = from_parts_view(method, uri, headers);
    exists|admin: LayerView, settings: SettingsView, delay: u8, fail: u8, double: u8|
        #![trigger
            resolved(env, admin, header_layer(headers), ctx, settings),
            planned(settings, ctx, headers, body, trailer, delay, fail, double, state, action)
        ]
        {
            &&& delay < 100 && fail < 100 && double < 100
            &&& resolved(env, admin, header_layer(headers), ctx, settings)
            &&& planned(settings, ctx, headers, body, trailer, delay, fail, double, state, action)
        }
}

/// The name `host` is a plain header name, and so are `origin` and
/// `access-control-allow-origin`.
proof fn lemma_plain_names()
    ensures
        is_plain_name("host"@),
        is_plain_name("origin"@),
        is_plain_name("access-control-allow-origin"@),
{
    reveal_strlit("host");
    reveal_strlit("origin");
    reveal_strlit("access-control-allow-origin");
}

/// The request that goes out names the destination as its host, and where
/// the request that came in had an origin, the origin of the destination as
/// its origin. Every other header goes out as it came in.
pub proof fn lemma_outgoing_headers(
    entries: Seq<Entry>,
    destination: DestinationView,
    other: Seq<char>,
)
    ensures
        first_value(outgoing_headers(entries, destination), "host"@) == Some(
            encode_utf8(destination.authority),
        ),
        first_value(entries, "origin"@) is Some ==> first_value(
            outgoing_headers(entries, destination),
            "origin"@,
        ) == Some(encode_utf8(origin_of(destination))),
        first_value(entries, "origin"@) is None ==> first_value(
            outgoing_headers(entries, destination),
            "origin"@,
        ) is None,
        other != "host"@ && other != "origin"@ ==> first_value(
            outgoing_headers(entries, destination),
            other,
        ) == first_value(entries, other),
{
    reveal_strlit("host");
    reveal_strlit("origin");
    assert("host"@ != "origin"@) by {
        assert("host"@.len() != "origin"@.len());
    }
    let host_value = encode_utf8(destination.authority);
    let with_host = with_value(entries, "host"@, host_value);
    lemma_with_value(entries, "host"@, host_value, "origin"@);
    lemma_with_value(entries, "host"@, host_value, other);
    let origin_value = encode_utf8(origin_of(destination));
    lemma_with_value(with_host, "origin"@, origin_value, "host"@);
    lemma_with_value(with_host, "origin"@, origin_value, other);
}

/// With a percentage of 100 the fault before the request fires for every
/// request that matches: the reply has the configured status, and nothing
/// goes out.
pub proof fn lemma_certain_fault_before(
    plan: PlanView,
    trailer: Seq<char>,
    fail: u8,
    double: u8,
    state: StateView,
    action: ActionView,
)
    requires
        plan.matches,
        plan.settings.fail_before_percentage >= 100,
        fail < 100,
        dispatched(plan, trailer, fail, double, state, action),
    ensures
        state == StateView::Done,
        action == ActionView::Reply(
            json_reply(
                status_of(plan.settings.fail_before_code),
                error_text(Failure::FailBefore),
                trailer,
            ),
        ),
{
}

/// With a percentage of 100 every request that matches and goes out goes
/// out twice.
pub proof fn lemma_certain_duplicate(
    plan: PlanView,
    trailer: Seq<char>,
    fail: u8,
    double: u8,
    state: StateView,
    action: ActionView,
)
    requires
        plan.matches,
        plan.settings.duplicate_percentage >= 100,
        double < 100,
        dispatched(plan, trailer, fail, double, state, action),
    ensures
        action matches ActionView::Send(_, duplicate) ==> duplicate,
        !fires(plan.settings.fail_before_percentage, plan.matches, fail) && sendable(
            plan.headers,
            plan.destination,
        ) && has_room_for(plan.headers, 2) ==> action == ActionView::Send(
            outgoing_request(plan),
            true,
        ),
{
}

/// With a percentage of 100 the fault after the response fires for every
/// request that matches: the reply has the configured status and tells the
/// status that the destination gave.
pub proof fn lemma_certain_fault_after(
    exchange: ExchangeView,
    response: ResponseView,
    trailer: Seq<char>,
    fail: u8,
    reply: ResponseView,
)
    requires
        exchange.matches,
        exchange.settings.fail_after_percentage >= 100,
        fail < 100,
        settled(exchange, response, trailer, fail, reply),
    ensures
        reply == json_reply(
            status_of(exchange.settings.fail_after_code),
            fail_after_text(response.status),
            trailer,
        ),
{
}

/// A request that does not match passes untouched, whatever the
/// percentages are: it does not sleep, no fault fires, it goes out once, and
/// the reply is the response of the destination.
pub proof fn lemma_unmatched_passes(
    plan: PlanView,
    trailer: Seq<char>,
    delay: u8,
    fail: u8,
    double: u8,
    state: StateView,
    action: ActionView,
    first: ResponseView,
    state_after: StateView,
    action_after: ActionView,
)
    requires
        !plan.matches,
        begun(plan, trailer, delay, fail, double, state, action),
        received(
            exchange_of(plan),
            first,
            None,
            trailer,
            true,
            delay,
            fail,
            state_after,
            action_after,
        ),
    ensures
        action == ActionView::Send(outgoing_request(plan), false) || action == ActionView::Reply(
            json_reply(500, error_text(Failure::InvalidDestination), trailer),
        ),
        sendable(plan.headers, plan.destination) && has_room_for(plan.headers, 2) ==> action
            == ActionView::Send(outgoing_request(plan), false),
        state_after == StateView::Done,
        action_after matches ActionView::Reply(reply) && reply.status == first.status && reply.body
            == first.body,
{
}

/// A request goes out exactly once where no fault fires before it and it
/// is not doubled, its headers have room, and the outgoing headers can be
/// written: the one request that goes out is the outgoing request of the
/// plan.
pub proof fn lemma_sent_once(
    plan: PlanView,
    trailer: Seq<char>,
    fail: u8,
    double: u8,
    state: StateView,
    action: ActionView,
)
    requires
        !fires(plan.settings.fail_before_percentage, plan.matches, fail),
        !fires(plan.settings.duplicate_percentage, plan.matches, double),
        sendable(plan.headers, plan.destination),
        has_room_for(plan.headers, 2),
        dispatched(plan, trailer, fail, double, state, action),
    ensures
        state == StateView::Sent(exchange_of(plan)),
        action == ActionView::Send(outgoing_request(plan), false),
{
}

/// The plan of a request with these settings, or the response that tells
/// why there is none.
pub fn plan_request(
    settings: Settings,
    ctx: RequestContext,
    headers: HeaderMap,
    body: Vec<u8>,
    trailer: &str,
) -> (planned: Result<Plan, ProxiedResponse>)
    ensures
        match planned {
            Ok(plan) => plan_of(settings@, ctx@, header_entries(headers), body@) == Ok::<
                PlanView,
                Failure,
            >(plan@),
            Err(reply) => plan_of(settings@, ctx@, header_entries(headers), body@) matches Err(
                failure,
            ) && reply@ == json_reply(500, error_text(failure), trailer@),
        },
{
    let parsed = match &settings.destination_url {
        Some(url) => Destination::parse(url.as_str()),
        None => { return Err(failure_response(500, Failure::MissingDestination, trailer)); },
    };
    let destination = match parsed {
        Ok(destination) => destination,
        Err(_) => { return Err(failure_response(500, Failure::InvalidDestination, trailer)); },
    };
    let matches = matches_request(&ctx, &settings);
    Ok(Plan { settings, matches, method: ctx.method, uri: ctx.uri, destination, headers, body })
}

/// How long a request sleeps at a delay stage, for the number `drawn`.
pub fn delay_for(percentage: u8, ms: u64, matches: bool, drawn: u8) -> (delay: Option<u64>)
    ensures
        delay == delay_of(percentage, ms, matches, drawn),
{
    if triggers(percentage, matches, drawn) && ms > 0 {
        Some(ms)
    } else {
        None
    }
}

/// The headers of the request that goes out to `destination`: a copy of
/// `headers` in which `host` is set to the authority of the destination and,
/// where `headers` has an `origin`, `origin` to the origin of the
/// destination. It is an error where the header map does not take one of
/// the two: always where the value is no legal header value, and never
/// where both are legal and the map has room for two headers.
pub fn build_destination_headers(headers: &HeaderMap, destination: &Destination) -> (built: Result<
    HeaderMap,
    DestinationError,
>)
    ensures
        built matches Ok(map) ==> header_entries(map) == outgoing_headers(
            header_entries(*headers),
            destination@,
        ),
        built is Ok ==> sendable(header_entries(*headers), destination@),
        sendable(header_entries(*headers), destination@) && has_room_for(
            header_entries(*headers),
            2,
        ) ==> built is Ok,
{
    proof {
        lemma_plain_names();
        lemma_with_value_len(
            header_entries(*headers),
            "host"@,
            encode_utf8(destination@.authority),
        );
    }
    let mut map = copy_headers(headers);
    if !set_header(&mut map, "host", destination.authority.as_str().as_bytes()) {
        return Err(DestinationError::Invalid);
    }
    if header_value(headers, "origin").is_some() {
        let origin = destination.origin();
        if !set_header(&mut map, "origin", origin.as_str().as_bytes()) {
            return Err(DestinationError::Invalid);
        }
    }
    Ok(map)
}

/// The stage before the request goes out, for the numbers `fail` and
/// `double` drawn for its two triggers.
pub fn dispatch(plan: Plan, trailer: &str, fail: u8, double: u8) -> (next: (
    ProxyState,
    ProxyAction,
))
    ensures
        dispatched(plan@, trailer@, fail, double, next.0@, next.1@),
{
    if triggers(plan.settings.fail_before_percentage, plan.matches, fail) {
        let status = status_from_code(plan.settings.fail_before_code);
        return (
            ProxyState::Done,
            ProxyAction::Reply(failure_response(status, Failure::FailBefore, trailer)),
        );
    }
    let headers = match build_destination_headers(&plan.headers, &plan.destination) {
        Ok(headers) => headers,
        Err(_) => {
            return (
                ProxyState::Done,
                ProxyAction::Reply(failure_response(500, Failure::InvalidDestination, trailer)),
            );
        },
    };
    proof {
        lemma_plain_names();
    }
    let origin = header_value(&plan.headers, "origin");
    let mut url = chars_of(plan.destination.raw.as_str());
    let mut path = chars_of(plan.uri.as_str());
    url.append(&mut path);
    let url = string_of(&url);
    let duplicate = triggers(plan.settings.duplicate_percentage, plan.matches, double);
    let request = OutgoingRequest {
        method: plan.method,
        url: url.clone(),
        headers,
        body: plan.body,
    };
    let exchange = Exchange { settings: plan.settings, matches: plan.matches, origin, url };
    assert(origin.deep_view() == bytes_view(origin));
    (ProxyState::Sent(exchange), ProxyAction::Send(request, duplicate))
}

/// The response that stands for the outcome of one call.
pub fn map_client_response(
    outcome: Result<ProxiedResponse, HttpClientError>,
    url: &str,
    trailer: &str,
) -> (response: ProxiedResponse)
    ensures
        stands_for(outcome_view(outcome), url@, trailer@, response@),
{
    match outcome {
        Ok(response) => response,
        Err(_) => transport_failure(url, trailer),
    }
}

/// The response that is selected: the only one, or the one that the coin
/// names.
pub fn select_response(
    first: ProxiedResponse,
    second: Option<ProxiedResponse>,
    first_wins: bool,
) -> (selected: ProxiedResponse)
    ensures
        selected@ == selected_response(first@, response_view(second), first_wins),
{
    match second {
        Some(other) => if first_wins {
            first
        } else {
            other
        },
        None => first,
    }
}

/// Rewrites the headers of a response: where the request had an `origin`
/// and the response allows an origin, the response is made to allow the
/// origin of the request. The status and the body stay as they are.
pub fn rewrite_response_headers(response: &mut ProxiedResponse, client_origin: &Option<Vec<u8>>)
    ensures
        final(response)@.status == old(response)@.status,
        final(response)@.body == old(response)@.body,
        response_rewritten(
            old(response)@.headers,
            bytes_view(*client_origin),
            final(response)@.headers,
        ),
{
    proof {
        lemma_plain_names();
    }
    if let Some(origin) = client_origin {
        if header_value(&response.headers, "access-control-allow-origin").is_some() {
            let stored = set_header(
                &mut response.headers,
                "access-control-allow-origin",
                origin.as_slice(),
            );
        }
    }
}

/// The stage after the response has come, for the number `fail` drawn for
/// its trigger.
pub fn settle(exchange: Exchange, response: ProxiedResponse, trailer: &str, fail: u8) -> (reply:
    ProxiedResponse)
    ensures
        settled(exchange@, response@, trailer@, fail, reply@),
{
    if triggers(exchange.settings.fail_after_percentage, exchange.matches, fail) {
        let status = status_from_code(exchange.settings.fail_after_code);
        return fail_after_response(status, response.status, trailer);
    }
    let mut response = response;
    rewrite_response_headers(&mut response, &exchange.origin);
    response
}

/// The stage at which the responses have come, for the coin `first_wins`
/// and the numbers `delay` and `fail` drawn for the triggers.
pub fn receive(
    exchange: Exchange,
    first: ProxiedResponse,
    second: Option<ProxiedResponse>,
    trailer: &str,
    first_wins: bool,
    delay: u8,
    fail: u8,
) -> (next: (ProxyState, ProxyAction))
    ensures
        received(
            exchange@,
            first@,
            response_view(second),
            trailer@,
            first_wins,
            delay,
            fail,
            next.0@,
            next.1@,
        ),
{
    let selected = select_response(first, second, first_wins);
    match delay_for(
        exchange.settings.delay_after_percentage,
        exchange.settings.delay_after_ms,
        exchange.matches,
        delay,
    ) {
        Some(ms) => (ProxyState::Held(exchange, selected), ProxyAction::Sleep(ms)),
        None => (ProxyState::Done, ProxyAction::Reply(settle(exchange, selected, trailer, fail))),
    }
}

/// The settings of a request, as far as the shared state decides them: the
/// admin snapshot with the layer of the request applied, or settings of a
/// one-off rule that matches the request; the destination is that of the
/// former in both cases.
pub open spec fn resolved(
    env: LayerView,
    admin: LayerView,
    layer: LayerView,
    ctx: RequestView,
    settings: SettingsView,
) -> bool {
    let base = snapshot(env, admin).with_layer(layer);
    &&& settings.destination_url == base.destination_url
    &&& settings == base || request_matches(ctx, settings)
}

/// Resolves the settings of a request: the admin snapshot, the layer of the
/// request headers over it, and the first one-off rule that matches, which
/// is thereby consumed.
pub fn resolve(app: &AppState, method: &str, uri: &str, headers: &HeaderMap) -> (found: (
    Settings,
    RequestContext,
))
    ensures
        found.1@ == from_parts_view(method@, uri@, header_entries(*headers)),
        exists|admin: LayerView| #[trigger]
            resolved(app.env(), admin, header_layer(header_entries(*headers)), found.1@, found.0@),
{
    let layer = SettingsLayer::from_headers(headers);
    let settings = app.effective_settings(&layer);
    let ctx = from_parts(method, uri, headers);
    let ghost base = settings@;
    let settings = app.apply_one_off(&ctx, settings);
    proof {
        let entries = header_entries(*headers);
        let admin = choose|admin: LayerView|
            base == (#[trigger] snapshot(app.env(), admin)).with_layer(layer@);
        assert(base == snapshot(app.env(), admin).with_layer(header_layer(entries)));
        assert(resolved(app.env(), admin, header_layer(entries), ctx@, settings@));
    }
    let found = (settings, ctx);
    assert(found.1@ == ctx@);
    assert(found.0@ == settings@);
    found
}

/// What the matcher reads of a request with these parts.
pub open spec fn from_parts_view(
    method: Seq<char>,
    uri: Seq<char>,
    entries: Seq<Entry>,
) -> RequestView {
    RequestView { method, uri, headers: text_headers(entries) }
}

/// The stage at which a request with a plan begins, for the numbers drawn
/// for its three triggers.
pub fn begin(plan: Plan, trailer: &str, delay: u8, fail: u8, double: u8) -> (next: (
    ProxyState,
    ProxyAction,
))
    ensures
        begun(plan@, trailer@, delay, fail, double, next.0@, next.1@),
{
    match delay_for(
        plan.settings.delay_before_percentage,
        plan.settings.delay_before_ms,
        plan.matches,
        delay,
    ) {
        Some(ms) => (ProxyState::Delayed(plan), ProxyAction::Sleep(ms)),
        None => dispatch(plan, trailer, fail, double),
    }
}

/// Takes up a request behind the forwarding rewrite: resolves its settings,
/// which consumes the one-off rule that matches it, plans it, and lets it
/// begin.
pub fn start(app: &AppState, method: &str, uri: &str, headers: HeaderMap, body: Vec<u8>) -> (next: (
    ProxyState,
    ProxyAction,
))
    ensures
        started(
            app.env(),
            app.trailer(),
            method@,
            uri@,
            header_entries(headers),
            body@,
            next.0@,
            next.1@,
        ),
{
    let trailer = app.body_trailer();
    let found = resolve(app, method, uri, &headers);
    let settings = found.0;
    let ctx = found.1;
    let ghost entries = header_entries(headers);
    let ghost request = ctx@;
    let ghost resolved_settings = settings@;
    let ghost admin = choose|admin: LayerView| #[trigger]
        resolved(app.env(), admin, header_layer(entries), request, resolved_settings);
    let delay = draw();
    let fail = draw();
    let double = draw();
    let next = match plan_request(settings, ctx, headers, body, trailer) {
        Ok(plan) => begin(plan, trailer, delay, fail, double),
        Err(reply) => (ProxyState::Done, ProxyAction::Reply(reply)),
    };
    proof {
        assert(resolved(app.env(), admin, header_layer(entries), request, resolved_settings));
        assert(planned(
            resolved_settings,
            request,
            entries,
            body@,
            app.trailer(),
            delay,
            fail,
            double,
            next.0@,
            next.1@,
        ));
    }
    next
}

/// One step of a request. `state` is where the request stands and `event`
/// what has happened; the result is where it stands now and what is to be
/// done. To sleep leaves the request delayed or held, to send leaves it
/// sent, and a reply ends it.
///
/// A request that comes in without a body is answered with status 500;
/// with a body it passes the forwarding rewrite and goes on as `started`
/// says. The stages behind a sleep and behind the responses go by
/// `dispatched`, `received` and `settled`, for numbers below 100 that are
/// drawn here. An event that does not fit the state ends the request with
/// status 500.
pub fn step(app: &AppState, state: ProxyState, event: ProxyEvent) -> (next: (
    ProxyState,
    ProxyAction,
))
    ensures
        next.1@ is Reply <==> next.0@ is Done,
        next.1@ is Send ==> next.0@ is Sent,
        next.1@ is Sleep ==> next.0@ is Delayed || next.0@ is Held,
        match (state, event) {
            (ProxyState::Idle, ProxyEvent::Request(inbound)) => match inbound.body {
                Some(body) => exists|uri: Seq<char>, headers: Seq<Entry>|
                    {
                        &&& #[trigger] forwarded(
                            inbound.uri@,
                            header_entries(inbound.headers),
                            uri,
                            headers,
                        )
                        &&& started(
                            app.env(),
                            app.trailer(),
                            inbound.method@,
                            uri,
                            headers,
                            body@,
                            next.0@,
                            next.1@,
                        )
                    },
                None => next.1@ == ActionView::Reply(
                    json_reply(500, error_text(Failure::InvalidRequest), app.trailer()),
                ),
            },
            (ProxyState::Delayed(plan), ProxyEvent::Woke) => exists|fail: u8, double: u8|
                fail < 100 && double < 100 && #[trigger] dispatched(
                    plan@,
                    app.trailer(),
                    fail,
                    double,
                    next.0@,
                    next.1@,
                ),
            (ProxyState::Sent(exchange), ProxyEvent::Responses(first, second)) => exists|
                one: ResponseView,
                other: Option<ResponseView>,
                first_wins: bool,
                delay: u8,
                fail: u8,
            |
                {
                    &&& delay < 100 && fail < 100
                    &&& stands_for(outcome_view(first), exchange@.url, app.trailer(), one)
                    &&& match second {
                        Some(outcome) => other is Some && stands_for(
                            outcome_view(outcome),
                            exchange@.url,
                            app.trailer(),
                            other->0,
                        ),
                        None => other is None,
                    }
                    &&& #[trigger] received(
                        exchange@,
                        one,
                        other,
                        app.trailer(),
                        first_wins,
                        delay,
                        fail,
                        next.0@,
                        next.1@,
                    )
                },
            (ProxyState::Held(exchange, response), ProxyEvent::Woke) => exists|fail: u8|
                fail < 100 && #[trigger] settled(
                    exchange@,
                    response@,
                    app.trailer(),
                    fail,
                    reply_of(next.1@),
                ),
            _ => next.1@ == ActionView::Reply(
                json_reply(500, error_text(Failure::Internal), app.trailer()),
            ),
        },
{
    let trailer = app.body_trailer();
    match (state, event) {
        (ProxyState::Idle, ProxyEvent::Request(inbound)) => {
            let body = match inbound.body {
                Some(body) => body,
                None => {
                    return (
                        ProxyState::Done,
                        ProxyAction::Reply(failure_response(500, Failure::InvalidRequest, trailer)),
                    );
                },
            };
            let mut headers = inbound.headers;
            let uri = rewrite_forwarding(inbound.uri.as_str(), &mut headers);
            let ghost entries = header_entries(headers);
            let next = start(app, inbound.method.as_str(), uri.as_str(), headers, body);
            assert(forwarded(inbound.uri@, header_entries(inbound.headers), uri@, entries));
            next
        },
        (ProxyState::Delayed(plan), ProxyEvent::Woke) => {
            let fail = draw();
            let double = draw();
            let next = dispatch(plan, trailer, fail, double);
            assert(dispatched(plan@, app.trailer(), fail, double, next.0@, next.1@));
            next
        },
        (ProxyState::Sent(exchange), ProxyEvent::Responses(first, second)) => {
            let one = map_client_response(first, exchange.url.as_str(), trailer);
            let other = match second {
                Some(outcome) => Some(map_client_response(outcome, exchange.url.as_str(), trailer)),
                None => None,
            };
            let first_wins = flip();
            let delay = draw();
            let fail = draw();
            let ghost other_view = response_view(other);
            let ghost one_view = one@;
            let next = receive(exchange, one, other, trailer, first_wins, delay, fail);
            assert(received(
                exchange@,
                one_view,
                other_view,
                app.trailer(),
                first_wins,
                delay,
                fail,
                next.0@,
                next.1@,
            ));
            next
        },
        (ProxyState::Held(exchange, response), ProxyEvent::Woke) => {
            let fail = draw();
            let reply = settle(exchange, response, trailer, fail);
            let ghost given = reply@;
            let next = (ProxyState::Done, ProxyAction::Reply(reply));
            assert(reply_of(next.1@) == given);
            assert(settled(exchange@, response@, app.trailer(), fail, reply_of(next.1@)));
            next
        },
        _ => (
            ProxyState::Done,
            ProxyAction::Reply(failure_response(500, Failure::Internal, trailer)),
        ),
    }
}

} // verus!
