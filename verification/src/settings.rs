//! Settings and layers of overrides.
//!
//! `Settings` is the complete configuration of one request. A
//! `SettingsLayer` is a sparse set of overrides: a field that it holds
//! replaces the value below it, a field that it lacks lets that value through.

use crate::headers::{header_entries, header_pairs, header_text, value_text, Entry};
use crate::text::{
    chars_of, decimal, decimal_string, is_text, lowercase, parse_number, parse_unsigned,
    starts_with, string_of, suffix, to_lowercase,
};
use http::header::HeaderMap;
use vstd::prelude::*;

pub use crate::matcher::{
    destination_host_fragment, from_parts, matches_request, RequestContext,
};

verus! {

/// Every header that sets a field begins with this, in any letter case.
pub const HEADER_PREFIX: &'static str = "x-lowdown-";

/// The configuration that one request is handled with. Every field has a
/// value; only the destination may be absent.
#[derive(Debug, PartialEq, Eq)]
pub struct Settings {
    pub fail_before_code: u16,
    pub fail_before_percentage: u8,
    pub fail_after_percentage: u8,
    pub fail_after_code: u16,
    pub duplicate_percentage: u8,
    pub delay_before_percentage: u8,
    pub delay_before_ms: u64,
    pub delay_after_percentage: u8,
    pub delay_after_ms: u64,
    pub match_uri: String,
    pub match_uri_regex: String,
    pub match_method: String,
    pub match_uri_starts_with: String,
    pub match_host: String,
    pub match_header_name: String,
    pub match_header_value: String,
    pub destination_url: Option<String>,
}

/// What a `Settings` value holds, with text as character sequences.
pub struct SettingsView {
    pub fail_before_code: u16,
    pub fail_before_percentage: u8,
    pub fail_after_percentage: u8,
    pub fail_after_code: u16,
    pub duplicate_percentage: u8,
    pub delay_before_percentage: u8,
    pub delay_before_ms: u64,
    pub delay_after_percentage: u8,
    pub delay_after_ms: u64,
    pub match_uri: Seq<char>,
    pub match_uri_regex: Seq<char>,
    pub match_method: Seq<char>,
    pub match_uri_starts_with: Seq<char>,
    pub match_host: Seq<char>,
    pub match_header_name: Seq<char>,
    pub match_header_value: Seq<char>,
    pub destination_url: Option<Seq<char>>,
}

/// A sparse set of overrides: each field is either absent or holds a value.
#[derive(Debug, PartialEq, Eq)]
pub struct SettingsLayer {
    pub fail_before_code: Option<u16>,
    pub fail_before_percentage: Option<u8>,
    pub fail_after_percentage: Option<u8>,
    pub fail_after_code: Option<u16>,
    pub duplicate_percentage: Option<u8>,
    pub delay_before_percentage: Option<u8>,
    pub delay_before_ms: Option<u64>,
    pub delay_after_percentage: Option<u8>,
    pub delay_after_ms: Option<u64>,
    pub match_uri: Option<String>,
    pub match_uri_regex: Option<String>,
    pub match_method: Option<String>,
    pub match_uri_starts_with: Option<String>,
    pub match_host: Option<String>,
    pub match_header_name: Option<String>,
    pub match_header_value: Option<String>,
    pub destination_url: Option<String>,
}

/// What a `SettingsLayer` holds, with text as character sequences.
pub struct LayerView {
    pub fail_before_code: Option<u16>,
    pub fail_before_percentage: Option<u8>,
    pub fail_after_percentage: Option<u8>,
    pub fail_after_code: Option<u16>,
    pub duplicate_percentage: Option<u8>,
    pub delay_before_percentage: Option<u8>,
    pub delay_before_ms: Option<u64>,
    pub delay_after_percentage: Option<u8>,
    pub delay_after_ms: Option<u64>,
    pub match_uri: Option<Seq<char>>,
    pub match_uri_regex: Option<Seq<char>>,
    pub match_method: Option<Seq<char>>,
    pub match_uri_starts_with: Option<Seq<char>>,
    pub match_host: Option<Seq<char>>,
    pub match_header_name: Option<Seq<char>>,
    pub match_header_value: Option<Seq<char>>,
    pub destination_url: Option<Seq<char>>,
}

/// The characters of an optional string.
pub open spec fn text_view(text: Option<String>) -> Option<Seq<char>> {
    match text {
        Some(s) => Some(s@),
        None => None,
    }
}

/// `over` where it holds a value, `base` otherwise.
pub open spec fn or_keep<T>(over: Option<T>, base: T) -> T {
    match over {
        Some(value) => value,
        None => base,
    }
}

/// `over` where it holds a value, `base` otherwise.
pub open spec fn or_else<T>(over: Option<T>, base: Option<T>) -> Option<T> {
    if over is Some {
        over
    } else {
        base
    }
}

/// The destination that an override gives: the empty text clears it.
pub open spec fn destination_of(url: Seq<char>) -> Option<Seq<char>> {
    if url.len() == 0 {
        None
    } else {
        Some(url)
    }
}

impl View for Settings {
    type V = SettingsView;

    open spec fn view(&self) -> SettingsView {
        SettingsView {
            fail_before_code: self.fail_before_code,
            fail_before_percentage: self.fail_before_percentage,
            fail_after_percentage: self.fail_after_percentage,
            fail_after_code: self.fail_after_code,
            duplicate_percentage: self.duplicate_percentage,
            delay_before_percentage: self.delay_before_percentage,
            delay_before_ms: self.delay_before_ms,
            delay_after_percentage: self.delay_after_percentage,
            delay_after_ms: self.delay_after_ms,
            match_uri: self.match_uri@,
            match_uri_regex: self.match_uri_regex@,
            match_method: self.match_method@,
            match_uri_starts_with: self.match_uri_starts_with@,
            match_host: self.match_host@,
            match_header_name: self.match_header_name@,
            match_header_value: self.match_header_value@,
            destination_url: text_view(self.destination_url),
        }
    }
}

impl View for SettingsLayer {
    type V = LayerView;

    open spec fn view(&self) -> LayerView {
        LayerView {
            fail_before_code: self.fail_before_code,
            fail_before_percentage: self.fail_before_percentage,
            fail_after_percentage: self.fail_after_percentage,
            fail_after_code: self.fail_after_code,
            duplicate_percentage: self.duplicate_percentage,
            delay_before_percentage: self.delay_before_percentage,
            delay_before_ms: self.delay_before_ms,
            delay_after_percentage: self.delay_after_percentage,
            delay_after_ms: self.delay_after_ms,
            match_uri: text_view(self.match_uri),
            match_uri_regex: text_view(self.match_uri_regex),
            match_method: text_view(self.match_method),
            match_uri_starts_with: text_view(self.match_uri_starts_with),
            match_host: text_view(self.match_host),
            match_header_name: text_view(self.match_header_name),
            match_header_value: text_view(self.match_header_value),
            destination_url: text_view(self.destination_url),
        }
    }
}

impl SettingsView {
    /// The settings that hold before any layer is applied: no fault is
    /// injected, every match field is `*`, and there is no destination.
    pub open spec fn initial() -> SettingsView {
        SettingsView {
            fail_before_code: 503,
            fail_before_percentage: 0,
            fail_after_percentage: 0,
            fail_after_code: 502,
            duplicate_percentage: 0,
            delay_before_percentage: 0,
            delay_before_ms: 0,
            delay_after_percentage: 0,
            delay_after_ms: 0,
            match_uri: "*"@,
            match_uri_regex: "*"@,
            match_method: "*"@,
            match_uri_starts_with: "*"@,
            match_host: "*"@,
            match_header_name: "*"@,
            match_header_value: "*"@,
            destination_url: None,
        }
    }

    /// Every percentage of these settings is at most 100.
    pub open spec fn percentages_in_range(self) -> bool {
        &&& self.fail_before_percentage <= 100
        &&& self.fail_after_percentage <= 100
        &&& self.duplicate_percentage <= 100
        &&& self.delay_before_percentage <= 100
        &&& self.delay_after_percentage <= 100
    }

    /// These settings with `layer` applied: each field that the layer holds
    /// replaces the field here. An empty destination in the layer clears the
    /// destination.
    pub open spec fn with_layer(self, layer: LayerView) -> SettingsView {
        SettingsView {
            fail_before_code: or_keep(layer.fail_before_code, self.fail_before_code),
            fail_before_percentage: or_keep(
                layer.fail_before_percentage,
                self.fail_before_percentage,
            ),
            fail_after_percentage: or_keep(layer.fail_after_percentage, self.fail_after_percentage),
            fail_after_code: or_keep(layer.fail_after_code, self.fail_after_code),
            duplicate_percentage: or_keep(layer.duplicate_percentage, self.duplicate_percentage),
            delay_before_percentage: or_keep(
                layer.delay_before_percentage,
                self.delay_before_percentage,
            ),
            delay_before_ms: or_keep(layer.delay_before_ms, self.delay_before_ms),
            delay_after_percentage: or_keep(
                layer.delay_after_percentage,
                self.delay_after_percentage,
            ),
            delay_after_ms: or_keep(layer.delay_after_ms, self.delay_after_ms),
            match_uri: or_keep(layer.match_uri, self.match_uri),
            match_uri_regex: or_keep(layer.match_uri_regex, self.match_uri_regex),
            match_method: or_keep(layer.match_method, self.match_method),
            match_uri_starts_with: or_keep(layer.match_uri_starts_with, self.match_uri_starts_with),
            match_host: or_keep(layer.match_host, self.match_host),
            match_header_name: or_keep(layer.match_header_name, self.match_header_name),
            match_header_value: or_keep(layer.match_header_value, self.match_header_value),
            destination_url: match layer.destination_url {
                Some(url) => destination_of(url),
                None => self.destination_url,
            },
        }
    }
}

/// The text of an optional number, in base ten.
pub open spec fn number_text(n: Option<nat>) -> Option<Seq<char>> {
    match n {
        Some(n) => Some(decimal(n)),
        None => None,
    }
}

/// `n` as an optional natural number.
pub open spec fn nat_of_u8(n: Option<u8>) -> Option<nat> {
    match n {
        Some(n) => Some(n as nat),
        None => None,
    }
}

/// `n` as an optional natural number.
pub open spec fn nat_of_u16(n: Option<u16>) -> Option<nat> {
    match n {
        Some(n) => Some(n as nat),
        None => None,
    }
}

/// `n` as an optional natural number.
pub open spec fn nat_of_u64(n: Option<u64>) -> Option<nat> {
    match n {
        Some(n) => Some(n as nat),
        None => None,
    }
}

/// `entries` with the pair of `name` and `value` at its end, where there is
/// a value.
pub open spec fn with_entry(
    entries: Seq<(Seq<char>, Seq<char>)>,
    name: Seq<char>,
    value: Option<Seq<char>>,
) -> Seq<(Seq<char>, Seq<char>)> {
    match value {
        Some(value) => entries.push((name, value)),
        None => entries,
    }
}

/// The percentage that `text` spells: a number from 0 to 100. A number
/// above 100 is no percentage.
pub open spec fn parse_percentage(text: Seq<char>) -> Option<u8> {
    match parse_unsigned(text, 100) {
        Some(n) => Some(n as u8),
        None => None,
    }
}

/// An optional percentage is absent or at most 100.
pub open spec fn is_percentage(value: Option<u8>) -> bool {
    match value {
        Some(p) => p <= 100,
        None => true,
    }
}

/// The number that `text` spells, if it fits in a `u16`.
pub open spec fn parse_u16(text: Seq<char>) -> Option<u16> {
    match parse_unsigned(text, u16::MAX as nat) {
        Some(n) => Some(n as u16),
        None => None,
    }
}

/// The number that `text` spells, if it fits in a `u64`.
pub open spec fn parse_u64(text: Seq<char>) -> Option<u64> {
    match parse_unsigned(text, u64::MAX as nat) {
        Some(n) => Some(n as u64),
        None => None,
    }
}

/// The value of the first variable called `key`.
pub open spec fn env_value(vars: Seq<(Seq<char>, Seq<char>)>, key: Seq<char>) -> Option<Seq<char>>
    decreases vars.len(),
{
    if vars.len() == 0 {
        None
    } else if vars[0].0 == key {
        Some(vars[0].1)
    } else {
        env_value(vars.drop_first(), key)
    }
}

/// The text of `value` in lower case.
pub open spec fn lowered(value: Option<Seq<char>>) -> Option<Seq<char>> {
    match value {
        Some(value) => Some(lowercase(value)),
        None => None,
    }
}

impl LayerView {
    /// The layer that overrides nothing.
    pub open spec fn empty() -> LayerView {
        LayerView {
            fail_before_code: None,
            fail_before_percentage: None,
            fail_after_percentage: None,
            fail_after_code: None,
            duplicate_percentage: None,
            delay_before_percentage: None,
            delay_before_ms: None,
            delay_after_percentage: None,
            delay_after_ms: None,
            match_uri: None,
            match_uri_regex: None,
            match_method: None,
            match_uri_starts_with: None,
            match_host: None,
            match_header_name: None,
            match_header_value: None,
            destination_url: None,
        }
    }

    /// This layer with `other` laid over it: a field that `other` holds
    /// wins, the rest stays.
    pub open spec fn merged(self, other: LayerView) -> LayerView {
        LayerView {
            fail_before_code: or_else(other.fail_before_code, self.fail_before_code),
            fail_before_percentage: or_else(
                other.fail_before_percentage,
                self.fail_before_percentage,
            ),
            fail_after_percentage: or_else(other.fail_after_percentage, self.fail_after_percentage),
            fail_after_code: or_else(other.fail_after_code, self.fail_after_code),
            duplicate_percentage: or_else(other.duplicate_percentage, self.duplicate_percentage),
            delay_before_percentage: or_else(
                other.delay_before_percentage,
                self.delay_before_percentage,
            ),
            delay_before_ms: or_else(other.delay_before_ms, self.delay_before_ms),
            delay_after_percentage: or_else(
                other.delay_after_percentage,
                self.delay_after_percentage,
            ),
            delay_after_ms: or_else(other.delay_after_ms, self.delay_after_ms),
            match_uri: or_else(other.match_uri, self.match_uri),
            match_uri_regex: or_else(other.match_uri_regex, self.match_uri_regex),
            match_method: or_else(other.match_method, self.match_method),
            match_uri_starts_with: or_else(other.match_uri_starts_with, self.match_uri_starts_with),
            match_host: or_else(other.match_host, self.match_host),
            match_header_name: or_else(other.match_header_name, self.match_header_name),
            match_header_value: or_else(other.match_header_value, self.match_header_value),
            destination_url: or_else(other.destination_url, self.destination_url),
        }
    }

    /// The fields that this layer holds, each with its name and its value
    /// as text, in the order of the fields.
    pub open spec fn entries(self) -> Seq<(Seq<char>, Seq<char>)> {
        let e = Seq::<(Seq<char>, Seq<char>)>::empty();
        let e = with_entry(e, "fail-before-code"@, number_text(nat_of_u16(self.fail_before_code)));
        let e = with_entry(
            e,
            "fail-before-percentage"@,
            number_text(nat_of_u8(self.fail_before_percentage)),
        );
        let e = with_entry(
            e,
            "fail-after-percentage"@,
            number_text(nat_of_u8(self.fail_after_percentage)),
        );
        let e = with_entry(e, "fail-after-code"@, number_text(nat_of_u16(self.fail_after_code)));
        let e = with_entry(
            e,
            "duplicate-percentage"@,
            number_text(nat_of_u8(self.duplicate_percentage)),
        );
        let e = with_entry(
            e,
            "delay-before-percentage"@,
            number_text(nat_of_u8(self.delay_before_percentage)),
        );
        let e = with_entry(e, "delay-before-ms"@, number_text(nat_of_u64(self.delay_before_ms)));
        let e = with_entry(
            e,
            "delay-after-percentage"@,
            number_text(nat_of_u8(self.delay_after_percentage)),
        );
        let e = with_entry(e, "delay-after-ms"@, number_text(nat_of_u64(self.delay_after_ms)));
        let e = with_entry(e, "match-uri"@, self.match_uri);
        let e = with_entry(e, "match-uri-regex"@, self.match_uri_regex);
        let e = with_entry(e, "match-method"@, self.match_method);
        let e = with_entry(e, "match-uri-starts-with"@, self.match_uri_starts_with);
        let e = with_entry(e, "match-host"@, self.match_host);
        let e = with_entry(e, "match-header-name"@, self.match_header_name);
        let e = with_entry(e, "match-header-value"@, self.match_header_value);
        with_entry(e, "destination-url"@, self.destination_url)
    }

    /// Every percentage that this layer holds is at most 100.
    pub open spec fn percentages_in_range(self) -> bool {
        &&& is_percentage(self.fail_before_percentage)
        &&& is_percentage(self.fail_after_percentage)
        &&& is_percentage(self.duplicate_percentage)
        &&& is_percentage(self.delay_before_percentage)
        &&& is_percentage(self.delay_after_percentage)
    }

    /// This layer after the field called `field` has been given `text`.
    /// A number that does not parse, and a percentage above 100, leave the
    /// field absent; a field name that is not known changes nothing.
    pub open spec fn with_field(self, field: Seq<char>, text: Seq<char>) -> LayerView {
        if field == "fail-before-code"@ {
            LayerView { fail_before_code: parse_u16(text), ..self }
        } else if field == "fail-before-percentage"@ {
            LayerView { fail_before_percentage: parse_percentage(text), ..self }
        } else if field == "fail-after-percentage"@ {
            LayerView { fail_after_percentage: parse_percentage(text), ..self }
        } else if field == "fail-after-code"@ {
            LayerView { fail_after_code: parse_u16(text), ..self }
        } else if field == "duplicate-percentage"@ {
            LayerView { duplicate_percentage: parse_percentage(text), ..self }
        } else if field == "delay-before-percentage"@ {
            LayerView { delay_before_percentage: parse_percentage(text), ..self }
        } else if field == "delay-before-ms"@ {
            LayerView { delay_before_ms: parse_u64(text), ..self }
        } else if field == "delay-after-percentage"@ {
            LayerView { delay_after_percentage: parse_percentage(text), ..self }
        } else if field == "delay-after-ms"@ {
            LayerView { delay_after_ms: parse_u64(text), ..self }
        } else if field == "match-uri"@ {
            LayerView { match_uri: Some(text), ..self }
        } else if field == "match-uri-regex"@ {
            LayerView { match_uri_regex: Some(text), ..self }
        } else if field == "match-method"@ {
            LayerView { match_method: Some(text), ..self }
        } else if field == "match-uri-starts-with"@ {
            LayerView { match_uri_starts_with: Some(text), ..self }
        } else if field == "match-host"@ {
            LayerView { match_host: Some(text), ..self }
        } else if field == "match-header-name"@ {
            LayerView { match_header_name: Some(lowercase(text)), ..self }
        } else if field == "match-header-value"@ {
            LayerView { match_header_value: Some(text), ..self }
        } else if field == "destination-url"@ {
            LayerView { destination_url: Some(text), ..self }
        } else {
            self
        }
    }

    /// This layer after one header has been read: a header whose name, in
    /// lower case, begins with `x-lowdown-` and whose value is text sets the
    /// field that the rest of its name calls; any other header changes
    /// nothing.
    pub open spec fn with_header(self, name: Seq<char>, value: Seq<u8>) -> LayerView {
        let key = lowercase(name);
        if HEADER_PREFIX@.is_prefix_of(key) {
            match header_text(value) {
                Some(text) => self.with_field(key.skip(HEADER_PREFIX@.len() as int), text),
                None => self,
            }
        } else {
            self
        }
    }
}

/// The layer that a sequence of headers gives, read from first to last.
pub open spec fn header_layer(entries: Seq<Entry>) -> LayerView
    decreases entries.len(),
{
    if entries.len() == 0 {
        LayerView::empty()
    } else {
        header_layer(entries.drop_last()).with_header(entries.last().0, entries.last().1)
    }
}

/// The optional percentage that an optional text spells.
pub open spec fn env_percentage(value: Option<Seq<char>>) -> Option<u8> {
    match value {
        Some(text) => parse_percentage(text),
        None => None,
    }
}

/// The optional number that an optional text spells.
pub open spec fn env_u16(value: Option<Seq<char>>) -> Option<u16> {
    match value {
        Some(text) => parse_u16(text),
        None => None,
    }
}

/// The optional number that an optional text spells.
pub open spec fn env_u64(value: Option<Seq<char>>) -> Option<u64> {
    match value {
        Some(text) => parse_u64(text),
        None => None,
    }
}

/// The layer that a set of environment variables gives: a number field
/// holds what its variable spells, if it spells a number of the field's
/// kind, and a text field holds the value of its variable as it is, the
/// header name in lower case.
pub open spec fn env_layer(vars: Seq<(Seq<char>, Seq<char>)>) -> LayerView {
    LayerView {
        fail_before_code: env_u16(env_value(vars, "FAIL_BEFORE_CODE"@)),
        fail_before_percentage: env_percentage(env_value(vars, "FAIL_BEFORE_PERCENTAGE"@)),
        fail_after_percentage: env_percentage(env_value(vars, "FAIL_AFTER_PERCENTAGE"@)),
        fail_after_code: env_u16(env_value(vars, "FAIL_AFTER_CODE"@)),
        duplicate_percentage: env_percentage(env_value(vars, "DUPLICATE_PERCENTAGE"@)),
        delay_before_percentage: env_percentage(env_value(vars, "DELAY_BEFORE_PERCENTAGE"@)),
        delay_before_ms: env_u64(env_value(vars, "DELAY_BEFORE_MS"@)),
        delay_after_percentage: env_percentage(env_value(vars, "DELAY_AFTER_PERCENTAGE"@)),
        delay_after_ms: env_u64(env_value(vars, "DELAY_AFTER_MS"@)),
        match_uri: env_value(vars, "MATCH_URI"@),
        match_uri_regex: env_value(vars, "MATCH_URI_REGEX"@),
        match_method: env_value(vars, "MATCH_METHOD"@),
        match_uri_starts_with: env_value(vars, "MATCH_URI_STARTS_WITH"@),
        match_host: env_value(vars, "MATCH_HOST"@),
        match_header_name: lowered(env_value(vars, "MATCH_HEADER_NAME"@)),
        match_header_value: env_value(vars, "MATCH_HEADER_VALUE"@),
        destination_url: env_value(vars, "DESTINATION_URL"@),
    }
}

/// A field that is read from text holds no percentage above 100.
pub proof fn lemma_field_percentages(layer: LayerView, field: Seq<char>, text: Seq<char>)
    requires
        layer.percentages_in_range(),
    ensures
        layer.with_field(field, text).percentages_in_range(),
{
}

/// A layer that is read from headers holds no percentage above 100.
pub proof fn lemma_header_percentages(entries: Seq<Entry>)
    ensures
        header_layer(entries).percentages_in_range(),
    decreases entries.len(),
{
    if entries.len() > 0 {
        let before = header_layer(entries.drop_last());
        lemma_header_percentages(entries.drop_last());
        let key = lowercase(entries.last().0);
        match header_text(entries.last().1) {
            Some(text) => {
                lemma_field_percentages(before, key.skip(HEADER_PREFIX@.len() as int), text);
            },
            None => {},
        }
    }
}

/// Settings that hold no percentage above 100 keep it so under every layer
/// that holds none: the initial settings hold none, and so do those that
/// layers read from headers or from the environment are applied to.
pub proof fn lemma_layered_percentages(settings: SettingsView, layer: LayerView)
    requires
        settings.percentages_in_range(),
        layer.percentages_in_range(),
    ensures
        SettingsView::initial().percentages_in_range(),
        settings.with_layer(layer).percentages_in_range(),
{
}

/// A layer that is read from the environment holds no percentage above
/// 100.
pub proof fn lemma_env_percentages(vars: Seq<(Seq<char>, Seq<char>)>)
    ensures
        env_layer(vars).percentages_in_range(),
{
}

/// Layering is associative and the later layer wins: to apply two layers
/// one after the other is to apply the second merged over the first.
pub proof fn lemma_apply_merged(settings: SettingsView, first: LayerView, second: LayerView)
    ensures
        settings.with_layer(first.merged(second)) == settings.with_layer(first).with_layer(second),
{
}

/// Merging is associative.
pub proof fn lemma_merge_associative(a: LayerView, b: LayerView, c: LayerView)
    ensures
        a.merged(b).merged(c) == a.merged(b.merged(c)),
{
}

/// The empty layer changes nothing, merged or applied.
pub proof fn lemma_empty_layer(settings: SettingsView, layer: LayerView)
    ensures
        settings.with_layer(LayerView::empty()) == settings,
        layer.merged(LayerView::empty()) == layer,
        LayerView::empty().merged(layer) == layer,
{
}

/// `over` where it holds a value, `base` otherwise.
fn pick<T: Copy>(over: Option<T>, base: T) -> (picked: T)
    ensures
        picked == or_keep(over, base),
{
    match over {
        Some(value) => value,
        None => base,
    }
}

/// `over` where it holds a value, `base` otherwise.
fn pick_some<T: Copy>(over: Option<T>, base: Option<T>) -> (picked: Option<T>)
    ensures
        picked == or_else(over, base),
{
    if over.is_some() {
        over
    } else {
        base
    }
}

/// Replaces `field` by the text of `over`, where it holds one.
fn replace_text(field: &mut String, over: &Option<String>)
    ensures
        final(field)@ == or_keep(text_view(*over), old(field)@),
{
    if let Some(value) = over {
        *field = value.clone();
    }
}

/// Replaces `field` by `over`, where `over` holds a text.
fn overlay_text(field: &mut Option<String>, over: &Option<String>)
    ensures
        text_view(*final(field)) == or_else(text_view(*over), text_view(*old(field))),
{
    if over.is_some() {
        *field = over.clone();
    }
}

/// Appends the entry of `name` to `values`, where `value` holds a number.
fn push_number(values: &mut Vec<(&'static str, String)>, name: &'static str, value: Option<u64>)
    ensures
        final(values).deep_view() == with_entry(
            old(values).deep_view(),
            name@,
            number_text(nat_of_u64(value)),
        ),
{
    if let Some(n) = value {
        push_entry(values, name, decimal_string(n));
    }
}

/// Appends the entry of `name` to `values`, where `value` holds a text.
fn push_text(values: &mut Vec<(&'static str, String)>, name: &'static str, value: &Option<String>)
    ensures
        final(values).deep_view() == with_entry(old(values).deep_view(), name@, text_view(*value)),
{
    if let Some(text) = value {
        push_entry(values, name, text.clone());
    }
}

/// `value` as a `u64`.
fn widen_u8(value: Option<u8>) -> (wide: Option<u64>)
    ensures
        nat_of_u64(wide) == nat_of_u8(value),
{
    match value {
        Some(n) => Some(n as u64),
        None => None,
    }
}

/// `value` as a `u64`.
fn widen_u16(value: Option<u16>) -> (wide: Option<u64>)
    ensures
        nat_of_u64(wide) == nat_of_u16(value),
{
    match value {
        Some(n) => Some(n as u64),
        None => None,
    }
}

impl Default for Settings {
    fn default() -> (settings: Settings)
        ensures
            settings@ == SettingsView::initial(),
    {
        Settings {
            fail_before_code: 503,
            fail_before_percentage: 0,
            fail_after_percentage: 0,
            fail_after_code: 502,
            duplicate_percentage: 0,
            delay_before_percentage: 0,
            delay_before_ms: 0,
            delay_after_percentage: 0,
            delay_after_ms: 0,
            match_uri: "*".to_owned(),
            match_uri_regex: "*".to_owned(),
            match_method: "*".to_owned(),
            match_uri_starts_with: "*".to_owned(),
            match_host: "*".to_owned(),
            match_header_name: "*".to_owned(),
            match_header_value: "*".to_owned(),
            destination_url: None,
        }
    }
}

impl Clone for Settings {
    fn clone(&self) -> (copy: Settings)
        ensures
            copy@ == self@,
    {
        Settings {
            fail_before_code: self.fail_before_code,
            fail_before_percentage: self.fail_before_percentage,
            fail_after_percentage: self.fail_after_percentage,
            fail_after_code: self.fail_after_code,
            duplicate_percentage: self.duplicate_percentage,
            delay_before_percentage: self.delay_before_percentage,
            delay_before_ms: self.delay_before_ms,
            delay_after_percentage: self.delay_after_percentage,
            delay_after_ms: self.delay_after_ms,
            match_uri: self.match_uri.clone(),
            match_uri_regex: self.match_uri_regex.clone(),
            match_method: self.match_method.clone(),
            match_uri_starts_with: self.match_uri_starts_with.clone(),
            match_host: self.match_host.clone(),
            match_header_name: self.match_header_name.clone(),
            match_header_value: self.match_header_value.clone(),
            destination_url: self.destination_url.clone(),
        }
    }
}

impl Settings {
    /// Applies every field that `layer` holds; a field that it lacks is left
    /// as it is. An empty destination in the layer clears the destination.
    pub fn apply_layer(&mut self, layer: &SettingsLayer)
        ensures
            final(self)@ == old(self)@.with_layer(layer@),
    {
        self.fail_before_code = pick(layer.fail_before_code, self.fail_before_code);
        self.fail_before_percentage = pick(
            layer.fail_before_percentage,
            self.fail_before_percentage,
        );
        self.fail_after_percentage = pick(layer.fail_after_percentage, self.fail_after_percentage);
        self.fail_after_code = pick(layer.fail_after_code, self.fail_after_code);
        self.duplicate_percentage = pick(layer.duplicate_percentage, self.duplicate_percentage);
        self.delay_before_percentage = pick(
            layer.delay_before_percentage,
            self.delay_before_percentage,
        );
        self.delay_before_ms = pick(layer.delay_before_ms, self.delay_before_ms);
        self.delay_after_percentage = pick(
            layer.delay_after_percentage,
            self.delay_after_percentage,
        );
        self.delay_after_ms = pick(layer.delay_after_ms, self.delay_after_ms);
        replace_text(&mut self.match_uri, &layer.match_uri);
        replace_text(&mut self.match_uri_regex, &layer.match_uri_regex);
        replace_text(&mut self.match_method, &layer.match_method);
        replace_text(&mut self.match_uri_starts_with, &layer.match_uri_starts_with);
        replace_text(&mut self.match_host, &layer.match_host);
        replace_text(&mut self.match_header_name, &layer.match_header_name);
        replace_text(&mut self.match_header_value, &layer.match_header_value);
        if let Some(value) = &layer.destination_url {
            self.destination_url = if value.as_str().is_empty() {
                None
            } else {
                Some(value.clone())
            };
        }
    }
}


impl Default for SettingsLayer {
    fn default() -> (layer: SettingsLayer)
        ensures
            layer@ == LayerView::empty(),
    {
        SettingsLayer {
            fail_before_code: None,
            fail_before_percentage: None,
            fail_after_percentage: None,
            fail_after_code: None,
            duplicate_percentage: None,
            delay_before_percentage: None,
            delay_before_ms: None,
            delay_after_percentage: None,
            delay_after_ms: None,
            match_uri: None,
            match_uri_regex: None,
            match_method: None,
            match_uri_starts_with: None,
            match_host: None,
            match_header_name: None,
            match_header_value: None,
            destination_url: None,
        }
    }
}

impl Clone for SettingsLayer {
    fn clone(&self) -> (copy: SettingsLayer)
        ensures
            copy@ == self@,
    {
        SettingsLayer {
            fail_before_code: self.fail_before_code,
            fail_before_percentage: self.fail_before_percentage,
            fail_after_percentage: self.fail_after_percentage,
            fail_after_code: self.fail_after_code,
            duplicate_percentage: self.duplicate_percentage,
            delay_before_percentage: self.delay_before_percentage,
            delay_before_ms: self.delay_before_ms,
            delay_after_percentage: self.delay_after_percentage,
            delay_after_ms: self.delay_after_ms,
            match_uri: self.match_uri.clone(),
            match_uri_regex: self.match_uri_regex.clone(),
            match_method: self.match_method.clone(),
            match_uri_starts_with: self.match_uri_starts_with.clone(),
            match_host: self.match_host.clone(),
            match_header_name: self.match_header_name.clone(),
            match_header_value: self.match_header_value.clone(),
            destination_url: self.destination_url.clone(),
        }
    }
}

/// Appends one entry to `values`.
fn push_entry(values: &mut Vec<(&'static str, String)>, name: &'static str, value: String)
    ensures
        final(values).deep_view() == old(values).deep_view().push((name@, value@)),
{
    values.push((name, value));
    assert(values.deep_view() =~= old(values).deep_view().push((name@, value@)));
}

/// Reads `text` as a percentage.
fn read_percentage(text: &Vec<char>) -> (parsed: Option<u8>)
    ensures
        parsed == parse_percentage(text@),
{
    match parse_number(text, 100) {
        Some(n) => Some(n as u8),
        None => None,
    }
}

/// Reads `text` as a `u16`.
fn read_u16(text: &Vec<char>) -> (parsed: Option<u16>)
    ensures
        parsed == parse_u16(text@),
{
    match parse_number(text, 65535) {
        Some(n) => Some(n as u16),
        None => None,
    }
}

/// Reads `text` as a `u64`.
fn read_u64(text: &Vec<char>) -> (parsed: Option<u64>)
    ensures
        parsed == parse_u64(text@),
{
    parse_number(text, u64::MAX)
}

/// The value of the first of `vars` that is called `key`.
fn lookup_env(vars: &Vec<(String, String)>, key: &str) -> (value: Option<Vec<char>>)
    ensures
        match value {
            Some(v) => env_value(vars.deep_view(), key@) == Some(v@),
            None => env_value(vars.deep_view(), key@) is None,
        },
{
    let mut i: usize = 0;
    assert(vars.deep_view().skip(0) == vars.deep_view());
    while i < vars.len()
        invariant
            i <= vars.len(),
            env_value(vars.deep_view(), key@) == env_value(vars.deep_view().skip(i as int), key@),
        decreases vars.len() - i,
    {
        let name = chars_of(vars[i].0.as_str());
        proof {
            let rest = vars.deep_view().skip(i as int);
            assert(rest[0] == (vars[i as int].0@, vars[i as int].1@));
            assert(rest.drop_first() == vars.deep_view().skip(i + 1));
        }
        if is_text(&name, key) {
            return Some(chars_of(vars[i].1.as_str()));
        }
        i += 1;
    }
    None
}

/// The variable `key` as a percentage.
fn parse_env_percentage(vars: &Vec<(String, String)>, key: &str) -> (parsed: Option<u8>)
    ensures
        parsed == env_percentage(env_value(vars.deep_view(), key@)),
{
    match lookup_env(vars, key) {
        Some(text) => read_percentage(&text),
        None => None,
    }
}

/// The variable `key` as a `u16`.
fn parse_env_u16(vars: &Vec<(String, String)>, key: &str) -> (parsed: Option<u16>)
    ensures
        parsed == env_u16(env_value(vars.deep_view(), key@)),
{
    match lookup_env(vars, key) {
        Some(text) => read_u16(&text),
        None => None,
    }
}

/// The variable `key` as a `u64`.
fn parse_env_u64(vars: &Vec<(String, String)>, key: &str) -> (parsed: Option<u64>)
    ensures
        parsed == env_u64(env_value(vars.deep_view(), key@)),
{
    match lookup_env(vars, key) {
        Some(text) => read_u64(&text),
        None => None,
    }
}

/// The variable `key` as a string, if it is set.
fn env_string(vars: &Vec<(String, String)>, key: &str) -> (value: Option<String>)
    ensures
        text_view(value) == env_value(vars.deep_view(), key@),
{
    match lookup_env(vars, key) {
        Some(text) => Some(string_of(&text)),
        None => None,
    }
}

impl SettingsLayer {
    /// Lays `other` over this layer: each field that `other` holds replaces
    /// the field here.
    pub fn merge(&mut self, other: &SettingsLayer)
        ensures
            final(self)@ == old(self)@.merged(other@),
    {
        self.fail_before_code = pick_some(other.fail_before_code, self.fail_before_code);
        self.fail_before_percentage = pick_some(
            other.fail_before_percentage,
            self.fail_before_percentage,
        );
        self.fail_after_percentage = pick_some(
            other.fail_after_percentage,
            self.fail_after_percentage,
        );
        self.fail_after_code = pick_some(other.fail_after_code, self.fail_after_code);
        self.duplicate_percentage = pick_some(
            other.duplicate_percentage,
            self.duplicate_percentage,
        );
        self.delay_before_percentage = pick_some(
            other.delay_before_percentage,
            self.delay_before_percentage,
        );
        self.delay_before_ms = pick_some(other.delay_before_ms, self.delay_before_ms);
        self.delay_after_percentage = pick_some(
            other.delay_after_percentage,
            self.delay_after_percentage,
        );
        self.delay_after_ms = pick_some(other.delay_after_ms, self.delay_after_ms);
        overlay_text(&mut self.match_uri, &other.match_uri);
        overlay_text(&mut self.match_uri_regex, &other.match_uri_regex);
        overlay_text(&mut self.match_method, &other.match_method);
        overlay_text(&mut self.match_uri_starts_with, &other.match_uri_starts_with);
        overlay_text(&mut self.match_host, &other.match_host);
        overlay_text(&mut self.match_header_name, &other.match_header_name);
        overlay_text(&mut self.match_header_value, &other.match_header_value);
        overlay_text(&mut self.destination_url, &other.destination_url);
    }

    /// The layer that the environment gives. `vars` holds the variables of
    /// the process, each with its name and its value. A variable that is
    /// not set, and a number that does not parse, leave the field absent; a
    /// text is taken as it is, the empty text too. No percentage is above
    /// 100.
    pub fn from_env(vars: &Vec<(String, String)>) -> (layer: SettingsLayer)
        ensures
            layer@ == env_layer(vars.deep_view()),
            layer@.percentages_in_range(),
    {
        proof {
            lemma_env_percentages(vars.deep_view());
        }
        let header_name = match lookup_env(vars, "MATCH_HEADER_NAME") {
            Some(text) => Some(string_of(&to_lowercase(&text))),
            None => None,
        };
        SettingsLayer {
            fail_before_code: parse_env_u16(vars, "FAIL_BEFORE_CODE"),
            fail_before_percentage: parse_env_percentage(vars, "FAIL_BEFORE_PERCENTAGE"),
            fail_after_percentage: parse_env_percentage(vars, "FAIL_AFTER_PERCENTAGE"),
            fail_after_code: parse_env_u16(vars, "FAIL_AFTER_CODE"),
            duplicate_percentage: parse_env_percentage(vars, "DUPLICATE_PERCENTAGE"),
            delay_before_percentage: parse_env_percentage(vars, "DELAY_BEFORE_PERCENTAGE"),
            delay_before_ms: parse_env_u64(vars, "DELAY_BEFORE_MS"),
            delay_after_percentage: parse_env_percentage(vars, "DELAY_AFTER_PERCENTAGE"),
            delay_after_ms: parse_env_u64(vars, "DELAY_AFTER_MS"),
            match_uri: env_string(vars, "MATCH_URI"),
            match_uri_regex: env_string(vars, "MATCH_URI_REGEX"),
            match_method: env_string(vars, "MATCH_METHOD"),
            match_uri_starts_with: env_string(vars, "MATCH_URI_STARTS_WITH"),
            match_host: env_string(vars, "MATCH_HOST"),
            match_header_name: header_name,
            match_header_value: env_string(vars, "MATCH_HEADER_VALUE"),
            destination_url: env_string(vars, "DESTINATION_URL"),
        }
    }

    /// Gives the field called `field` the value that `text` spells. A number
    /// that does not parse, and a percentage above 100, leave the field
    /// absent; a name that is not known changes nothing.
    pub fn set_field(&mut self, field: &str, text: &str)
        ensures
            final(self)@ == old(self)@.with_field(field@, text@),
    {
        let name = chars_of(field);
        let value = chars_of(text);
        self.set_field_chars(&name, &value);
    }

    fn set_field_chars(&mut self, field: &Vec<char>, text: &Vec<char>)
        ensures
            final(self)@ == old(self)@.with_field(field@, text@),
    {
        if is_text(field, "fail-before-code") {
            self.fail_before_code = read_u16(text);
        } else if is_text(field, "fail-before-percentage") {
            self.fail_before_percentage = read_percentage(text);
        } else if is_text(field, "fail-after-percentage") {
            self.fail_after_percentage = read_percentage(text);
        } else if is_text(field, "fail-after-code") {
            self.fail_after_code = read_u16(text);
        } else if is_text(field, "duplicate-percentage") {
            self.duplicate_percentage = read_percentage(text);
        } else if is_text(field, "delay-before-percentage") {
            self.delay_before_percentage = read_percentage(text);
        } else if is_text(field, "delay-before-ms") {
            self.delay_before_ms = read_u64(text);
        } else if is_text(field, "delay-after-percentage") {
            self.delay_after_percentage = read_percentage(text);
        } else if is_text(field, "delay-after-ms") {
            self.delay_after_ms = read_u64(text);
        } else if is_text(field, "match-uri") {
            self.match_uri = Some(string_of(text));
        } else if is_text(field, "match-uri-regex") {
            self.match_uri_regex = Some(string_of(text));
        } else if is_text(field, "match-method") {
            self.match_method = Some(string_of(text));
        } else if is_text(field, "match-uri-starts-with") {
            self.match_uri_starts_with = Some(string_of(text));
        } else if is_text(field, "match-host") {
            self.match_host = Some(string_of(text));
        } else if is_text(field, "match-header-name") {
            self.match_header_name = Some(string_of(&to_lowercase(text)));
        } else if is_text(field, "match-header-value") {
            self.match_header_value = Some(string_of(text));
        } else if is_text(field, "destination-url") {
            self.destination_url = Some(string_of(text));
        }
    }

    /// Reads one header into this layer. A header whose name, in any letter
    /// case, begins with `x-lowdown-` and whose value is text sets the field
    /// that the rest of its name calls; any other header changes nothing.
    pub fn apply_header(&mut self, name: &str, value: &Vec<u8>)
        ensures
            final(self)@ == old(self)@.with_header(name@, value@),
    {
        let key = to_lowercase(&chars_of(name));
        let prefix = chars_of(HEADER_PREFIX);
        if starts_with(&key, &prefix) {
            if let Some(text) = value_text(value) {
                let field = suffix(&key, prefix.len());
                self.set_field_chars(&field, &text);
            }
        }
    }

    /// The layer that the headers of a request give: each header named
    /// `x-lowdown-` and a field, in any letter case, sets that field. A
    /// value that does not parse, and a percentage above 100, leave the
    /// field absent and say nothing about the other headers.
    pub fn from_headers(headers: &HeaderMap) -> (layer: SettingsLayer)
        ensures
            layer@ == header_layer(header_entries(*headers)),
            layer@.percentages_in_range(),
    {
        proof {
            lemma_header_percentages(header_entries(*headers));
        }
        let pairs = header_pairs(headers);
        let mut layer = SettingsLayer::default();
        let mut i: usize = 0;
        while i < pairs.len()
            invariant
                i <= pairs.len(),
                pairs.deep_view() == header_entries(*headers),
                layer@ == header_layer(pairs.deep_view().take(i as int)),
            decreases pairs.len() - i,
        {
            layer.apply_header(pairs[i].0.as_str(), &pairs[i].1);
            proof {
                let read = pairs.deep_view().take(i + 1);
                assert(read.drop_last() == pairs.deep_view().take(i as int));
                assert(pairs[i as int].1.deep_view() =~= pairs[i as int].1@);
                assert(read.last() == (pairs[i as int].0@, pairs[i as int].1@));
            }
            i += 1;
        }
        assert(pairs.deep_view().take(pairs.len() as int) == pairs.deep_view());
        layer
    }

    /// The fields that this layer holds, each with the name that a header
    /// would give it and its value as text.
    pub fn entries(&self) -> (values: Vec<(&'static str, String)>)
        ensures
            values.deep_view() == self@.entries(),
    {
        let mut values: Vec<(&'static str, String)> = Vec::new();
        assert(values.deep_view() =~= Seq::<(Seq<char>, Seq<char>)>::empty());
        push_number(&mut values, "fail-before-code", widen_u16(self.fail_before_code));
        push_number(&mut values, "fail-before-percentage", widen_u8(self.fail_before_percentage));
        push_number(&mut values, "fail-after-percentage", widen_u8(self.fail_after_percentage));
        push_number(&mut values, "fail-after-code", widen_u16(self.fail_after_code));
        push_number(&mut values, "duplicate-percentage", widen_u8(self.duplicate_percentage));
        push_number(&mut values, "delay-before-percentage", widen_u8(self.delay_before_percentage));
        push_number(&mut values, "delay-before-ms", self.delay_before_ms);
        push_number(&mut values, "delay-after-percentage", widen_u8(self.delay_after_percentage));
        push_number(&mut values, "delay-after-ms", self.delay_after_ms);
        push_text(&mut values, "match-uri", &self.match_uri);
        push_text(&mut values, "match-uri-regex", &self.match_uri_regex);
        push_text(&mut values, "match-method", &self.match_method);
        push_text(&mut values, "match-uri-starts-with", &self.match_uri_starts_with);
        push_text(&mut values, "match-host", &self.match_host);
        push_text(&mut values, "match-header-name", &self.match_header_name);
        push_text(&mut values, "match-header-value", &self.match_header_value);
        push_text(&mut values, "destination-url", &self.destination_url);
        values
    }
}

} // verus!
