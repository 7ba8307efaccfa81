use http::header::{HeaderMap, HeaderName, HeaderValue};
use lowdown::settings::{Settings, SettingsLayer, HEADER_PREFIX};

fn headers(pairs: &[(&str, &str)]) -> HeaderMap {
    let mut map = HeaderMap::new();
    for (name, value) in pairs {
        map.append(
            HeaderName::from_bytes(name.as_bytes()).unwrap(),
            HeaderValue::from_str(value).unwrap(),
        );
    }
    map
}

fn env(pairs: &[(&str, &str)]) -> Vec<(String, String)> {
    pairs.iter().map(|(name, value)| (name.to_string(), value.to_string())).collect()
}

fn sample_layers() -> Vec<SettingsLayer> {
    let mut first = SettingsLayer::default();
    first.fail_before_code = Some(418);
    first.fail_before_percentage = Some(10);
    first.match_uri = Some("/a".to_string());
    first.destination_url = Some("http://one.example".to_string());
    let mut second = SettingsLayer::default();
    second.fail_before_percentage = Some(20);
    second.delay_after_ms = Some(5);
    second.match_uri = Some("/b".to_string());
    second.match_header_name = Some("x-user-id".to_string());
    second.destination_url = Some(String::new());
    let mut third = SettingsLayer::default();
    third.fail_after_code = Some(599);
    third.duplicate_percentage = Some(100);
    third.match_method = Some("POST".to_string());
    third.destination_url = Some("http://three.example".to_string());
    vec![SettingsLayer::default(), first, second, third]
}

#[test]
fn default_settings_inject_nothing() {
    let settings = Settings::default();
    assert_eq!(settings.fail_before_code, 503);
    assert_eq!(settings.fail_before_percentage, 0);
    assert_eq!(settings.fail_after_percentage, 0);
    assert_eq!(settings.fail_after_code, 502);
    assert_eq!(settings.duplicate_percentage, 0);
    assert_eq!(settings.delay_before_percentage, 0);
    assert_eq!(settings.delay_before_ms, 0);
    assert_eq!(settings.delay_after_percentage, 0);
    assert_eq!(settings.delay_after_ms, 0);
    assert_eq!(settings.match_uri, "*");
    assert_eq!(settings.match_uri_regex, "*");
    assert_eq!(settings.match_method, "*");
    assert_eq!(settings.match_uri_starts_with, "*");
    assert_eq!(settings.match_host, "*");
    assert_eq!(settings.match_header_name, "*");
    assert_eq!(settings.match_header_value, "*");
    assert_eq!(settings.destination_url, None);
}

#[test]
fn default_layer_is_empty() {
    let layer = SettingsLayer::default();
    assert!(layer.entries().is_empty());
    let mut settings = Settings::default();
    settings.apply_layer(&layer);
    assert_eq!(settings, Settings::default());
}

#[test]
fn apply_layer_replaces_present_fields_only() {
    let mut settings = Settings::default();
    let mut layer = SettingsLayer::default();
    layer.fail_before_code = Some(500);
    layer.fail_after_percentage = Some(30);
    layer.delay_before_ms = Some(1500);
    layer.match_host = Some("example.org".to_string());
    layer.destination_url = Some("http://example.org".to_string());
    settings.apply_layer(&layer);
    assert_eq!(settings.fail_before_code, 500);
    assert_eq!(settings.fail_after_percentage, 30);
    assert_eq!(settings.delay_before_ms, 1500);
    assert_eq!(settings.match_host, "example.org");
    assert_eq!(settings.destination_url, Some("http://example.org".to_string()));
    assert_eq!(settings.fail_after_code, 502);
    assert_eq!(settings.fail_before_percentage, 0);
    assert_eq!(settings.match_uri, "*");
}

#[test]
fn empty_destination_clears_the_destination() {
    let mut settings = Settings::default();
    settings.destination_url = Some("http://example.org".to_string());
    let mut layer = SettingsLayer::default();
    settings.apply_layer(&layer);
    assert_eq!(settings.destination_url, Some("http://example.org".to_string()));
    layer.destination_url = Some(String::new());
    settings.apply_layer(&layer);
    assert_eq!(settings.destination_url, None);
}

#[test]
fn merge_is_right_biased() {
    let mut base = SettingsLayer::default();
    base.fail_before_code = Some(500);
    base.match_uri = Some("/a".to_string());
    base.duplicate_percentage = Some(1);
    let mut over = SettingsLayer::default();
    over.fail_before_code = Some(501);
    over.match_method = Some("GET".to_string());
    base.merge(&over);
    assert_eq!(base.fail_before_code, Some(501));
    assert_eq!(base.match_uri, Some("/a".to_string()));
    assert_eq!(base.match_method, Some("GET".to_string()));
    assert_eq!(base.duplicate_percentage, Some(1));
    assert_eq!(base.fail_after_code, None);
}

#[test]
fn merge_keeps_an_empty_destination() {
    let mut base = SettingsLayer::default();
    base.destination_url = Some("http://example.org".to_string());
    let mut over = SettingsLayer::default();
    over.destination_url = Some(String::new());
    base.merge(&over);
    assert_eq!(base.destination_url, Some(String::new()));
}

#[test]
fn applying_a_merge_is_applying_in_turn() {
    let layers = sample_layers();
    for first in &layers {
        for second in &layers {
            for base in &layers {
                let mut start = Settings::default();
                start.apply_layer(base);
                let mut merged = first.clone();
                merged.merge(second);
                let mut at_once = start.clone();
                at_once.apply_layer(&merged);
                let mut in_turn = start.clone();
                in_turn.apply_layer(first);
                in_turn.apply_layer(second);
                assert_eq!(at_once, in_turn);
            }
        }
    }
}

#[test]
fn merging_is_associative() {
    let layers = sample_layers();
    for a in &layers {
        for b in &layers {
            for c in &layers {
                let mut left = a.clone();
                left.merge(b);
                left.merge(c);
                let mut inner = b.clone();
                inner.merge(c);
                let mut right = a.clone();
                right.merge(&inner);
                assert_eq!(left, right);
            }
        }
    }
}

#[test]
fn clones_are_equal() {
    for layer in sample_layers() {
        assert_eq!(layer.clone(), layer);
        let mut settings = Settings::default();
        settings.apply_layer(&layer);
        assert_eq!(settings.clone(), settings);
    }
}

#[test]
fn header_prefix_is_fixed() {
    assert_eq!(HEADER_PREFIX, "x-lowdown-");
}

#[test]
fn headers_set_every_field() {
    let layer = SettingsLayer::from_headers(&headers(&[
        ("x-lowdown-fail-before-code", "500"),
        ("x-lowdown-fail-before-percentage", "1"),
        ("x-lowdown-fail-after-percentage", "2"),
        ("x-lowdown-fail-after-code", "501"),
        ("x-lowdown-duplicate-percentage", "3"),
        ("x-lowdown-delay-before-percentage", "4"),
        ("x-lowdown-delay-before-ms", "1000"),
        ("x-lowdown-delay-after-percentage", "5"),
        ("x-lowdown-delay-after-ms", "2000"),
        ("x-lowdown-match-uri", "/a"),
        ("x-lowdown-match-uri-regex", "/a.*"),
        ("x-lowdown-match-method", "GET"),
        ("x-lowdown-match-uri-starts-with", "/"),
        ("x-lowdown-match-host", "example.org"),
        ("x-lowdown-match-header-name", "X-User-Id"),
        ("x-lowdown-match-header-value", "Abc"),
        ("x-lowdown-destination-url", "http://example.org"),
    ]));
    assert_eq!(layer.fail_before_code, Some(500));
    assert_eq!(layer.fail_before_percentage, Some(1));
    assert_eq!(layer.fail_after_percentage, Some(2));
    assert_eq!(layer.fail_after_code, Some(501));
    assert_eq!(layer.duplicate_percentage, Some(3));
    assert_eq!(layer.delay_before_percentage, Some(4));
    assert_eq!(layer.delay_before_ms, Some(1000));
    assert_eq!(layer.delay_after_percentage, Some(5));
    assert_eq!(layer.delay_after_ms, Some(2000));
    assert_eq!(layer.match_uri, Some("/a".to_string()));
    assert_eq!(layer.match_uri_regex, Some("/a.*".to_string()));
    assert_eq!(layer.match_method, Some("GET".to_string()));
    assert_eq!(layer.match_uri_starts_with, Some("/".to_string()));
    assert_eq!(layer.match_host, Some("example.org".to_string()));
    assert_eq!(layer.match_header_name, Some("x-user-id".to_string()));
    assert_eq!(layer.match_header_value, Some("Abc".to_string()));
    assert_eq!(layer.destination_url, Some("http://example.org".to_string()));
}

#[test]
fn header_names_are_read_in_any_case() {
    let layer = SettingsLayer::from_headers(&headers(&[
        ("X-LowDown-Fail-Before-Code", "500"),
        ("X-LOWDOWN-MATCH-URI", "/Path"),
    ]));
    assert_eq!(layer.fail_before_code, Some(500));
    assert_eq!(layer.match_uri, Some("/Path".to_string()));
}

#[test]
fn other_headers_are_ignored() {
    let layer = SettingsLayer::from_headers(&headers(&[
        ("host", "example.org"),
        ("fail-before-code", "500"),
        ("x-lowdown", "500"),
        ("x-lowdown-", "500"),
        ("x-lowdown-unknown", "500"),
        ("x-lowdown-fail-before-codes", "500"),
        ("xx-lowdown-fail-before-code", "500"),
    ]));
    assert_eq!(layer, SettingsLayer::default());
}

#[test]
fn a_malformed_header_leaves_the_rest() {
    let layer = SettingsLayer::from_headers(&headers(&[
        ("x-lowdown-fail-before-code", "not-a-number"),
        ("x-lowdown-fail-before-percentage", "200"),
        ("x-lowdown-delay-before-ms", "-1"),
        ("x-lowdown-fail-after-code", "70000"),
        ("x-lowdown-fail-after-percentage", "100"),
        ("x-lowdown-match-uri", "/a"),
    ]));
    assert_eq!(layer.fail_before_code, None);
    assert_eq!(layer.fail_before_percentage, None);
    assert_eq!(layer.delay_before_ms, None);
    assert_eq!(layer.fail_after_code, None);
    assert_eq!(layer.fail_after_percentage, Some(100));
    assert_eq!(layer.match_uri, Some("/a".to_string()));
}

#[test]
fn a_value_that_is_no_text_is_ignored() {
    let mut map = HeaderMap::new();
    map.insert(
        HeaderName::from_static("x-lowdown-match-uri"),
        HeaderValue::from_bytes(b"/caf\xe9").unwrap(),
    );
    map.insert(HeaderName::from_static("x-lowdown-match-method"), HeaderValue::from_static("GET"));
    let layer = SettingsLayer::from_headers(&map);
    assert_eq!(layer.match_uri, None);
    assert_eq!(layer.match_method, Some("GET".to_string()));
}

#[test]
fn the_last_of_repeated_headers_counts() {
    let layer = SettingsLayer::from_headers(&headers(&[
        ("x-lowdown-fail-before-code", "500"),
        ("x-lowdown-fail-before-code", "501"),
        ("x-lowdown-fail-after-code", "500"),
        ("x-lowdown-fail-after-code", "oops"),
    ]));
    assert_eq!(layer.fail_before_code, Some(501));
    assert_eq!(layer.fail_after_code, None);
}

#[test]
fn single_headers_and_fields() {
    let mut layer = SettingsLayer::default();
    layer.apply_header("X-Lowdown-Duplicate-Percentage", &b"50".to_vec());
    layer.apply_header("x-lowdown-match-uri", &vec![0xff]);
    layer.apply_header("content-type", &b"text/plain".to_vec());
    assert_eq!(layer.duplicate_percentage, Some(50));
    assert_eq!(layer.match_uri, None);
    layer.set_field("match-header-name", "X-Trace");
    layer.set_field("delay-after-ms", "+12");
    layer.set_field("Delay-After-Percentage", "12");
    layer.set_field("nothing", "12");
    assert_eq!(layer.match_header_name, Some("x-trace".to_string()));
    assert_eq!(layer.delay_after_ms, Some(12));
    assert_eq!(layer.delay_after_percentage, None);
    layer.set_field("duplicate-percentage", "");
    assert_eq!(layer.duplicate_percentage, None);
}

#[test]
fn environment_sets_every_field() {
    let layer = SettingsLayer::from_env(&env(&[
        ("PATH", "/usr/bin"),
        ("FAIL_BEFORE_CODE", "500"),
        ("FAIL_BEFORE_PERCENTAGE", "1"),
        ("FAIL_AFTER_PERCENTAGE", "2"),
        ("FAIL_AFTER_CODE", "501"),
        ("DUPLICATE_PERCENTAGE", "3"),
        ("DELAY_BEFORE_PERCENTAGE", "4"),
        ("DELAY_BEFORE_MS", "1000"),
        ("DELAY_AFTER_PERCENTAGE", "5"),
        ("DELAY_AFTER_MS", "2000"),
        ("MATCH_URI", "/a"),
        ("MATCH_URI_REGEX", "/a.*"),
        ("MATCH_METHOD", "GET"),
        ("MATCH_URI_STARTS_WITH", "/"),
        ("MATCH_HOST", "example.org"),
        ("MATCH_HEADER_NAME", "X-User-Id"),
        ("MATCH_HEADER_VALUE", "Abc"),
        ("DESTINATION_URL", "http://example.org"),
    ]));
    assert_eq!(layer.fail_before_code, Some(500));
    assert_eq!(layer.fail_before_percentage, Some(1));
    assert_eq!(layer.fail_after_percentage, Some(2));
    assert_eq!(layer.fail_after_code, Some(501));
    assert_eq!(layer.duplicate_percentage, Some(3));
    assert_eq!(layer.delay_before_percentage, Some(4));
    assert_eq!(layer.delay_before_ms, Some(1000));
    assert_eq!(layer.delay_after_percentage, Some(5));
    assert_eq!(layer.delay_after_ms, Some(2000));
    assert_eq!(layer.match_uri, Some("/a".to_string()));
    assert_eq!(layer.match_uri_regex, Some("/a.*".to_string()));
    assert_eq!(layer.match_method, Some("GET".to_string()));
    assert_eq!(layer.match_uri_starts_with, Some("/".to_string()));
    assert_eq!(layer.match_host, Some("example.org".to_string()));
    assert_eq!(layer.match_header_name, Some("x-user-id".to_string()));
    assert_eq!(layer.match_header_value, Some("Abc".to_string()));
    assert_eq!(layer.destination_url, Some("http://example.org".to_string()));
}

#[test]
fn unset_and_unparsable_variables_leave_fields_absent() {
    let layer = SettingsLayer::from_env(&env(&[
        ("FAIL_BEFORE_CODE", "abc"),
        ("FAIL_BEFORE_PERCENTAGE", ""),
        ("DELAY_BEFORE_MS", "18446744073709551616"),
        ("DELAY_AFTER_PERCENTAGE", "101"),
        ("fail_after_code", "500"),
        ("DUPLICATE_PERCENTAGE", "7"),
    ]));
    let mut expected = SettingsLayer::default();
    expected.duplicate_percentage = Some(7);
    assert_eq!(layer, expected);
    assert_eq!(SettingsLayer::from_env(&Vec::new()), SettingsLayer::default());
}

#[test]
fn a_set_variable_is_taken_as_literal_text() {
    let layer = SettingsLayer::from_env(&env(&[
        ("MATCH_URI", ""),
        ("MATCH_HEADER_NAME", "X-User-Id"),
        ("MATCH_HEADER_VALUE", " "),
        ("DESTINATION_URL", ""),
    ]));
    let mut expected = SettingsLayer::default();
    expected.match_uri = Some(String::new());
    expected.match_header_name = Some("x-user-id".to_string());
    expected.match_header_value = Some(" ".to_string());
    expected.destination_url = Some(String::new());
    assert_eq!(layer, expected);
    let mut settings = Settings::default();
    settings.destination_url = Some("http://example.org".to_string());
    settings.apply_layer(&layer);
    assert_eq!(settings.match_uri, "");
    assert_eq!(settings.destination_url, None);
}

#[test]
fn percentages_end_at_one_hundred() {
    let fields = [
        "fail-before-percentage",
        "fail-after-percentage",
        "duplicate-percentage",
        "delay-before-percentage",
        "delay-after-percentage",
    ];
    let read = |layer: &SettingsLayer| {
        [
            layer.fail_before_percentage,
            layer.fail_after_percentage,
            layer.duplicate_percentage,
            layer.delay_before_percentage,
            layer.delay_after_percentage,
        ]
    };
    for (at, field) in fields.iter().enumerate() {
        for (text, expected) in [
            ("0", Some(0u8)),
            ("99", Some(99)),
            ("100", Some(100)),
            ("+100", Some(100)),
            ("0100", Some(100)),
            ("101", None),
            ("200", None),
            ("255", None),
            ("256", None),
            ("1000", None),
        ] {
            let name = format!("x-lowdown-{field}");
            let layer = SettingsLayer::from_headers(&headers(&[(name.as_str(), text)]));
            assert_eq!(read(&layer)[at], expected);
            let key = field.replace('-', "_").to_uppercase();
            let layer = SettingsLayer::from_env(&env(&[(key.as_str(), text)]));
            assert_eq!(read(&layer)[at], expected);
            let mut layer = SettingsLayer::default();
            layer.set_field(field, text);
            assert_eq!(read(&layer)[at], expected);
        }
    }
}

#[test]
fn codes_and_times_are_not_bounded_as_percentages() {
    let layer = SettingsLayer::from_headers(&headers(&[
        ("x-lowdown-fail-before-code", "599"),
        ("x-lowdown-delay-before-ms", "100000"),
    ]));
    assert_eq!(layer.fail_before_code, Some(599));
    assert_eq!(layer.delay_before_ms, Some(100000));
}

#[test]
fn entries_list_present_fields_in_order() {
    let mut layer = SettingsLayer::default();
    layer.destination_url = Some("http://example.org".to_string());
    layer.match_header_name = Some("x-user-id".to_string());
    layer.delay_before_ms = Some(18446744073709551615);
    layer.fail_before_percentage = Some(0);
    layer.fail_before_code = Some(503);
    assert_eq!(
        layer.entries(),
        vec![
            ("fail-before-code", "503".to_string()),
            ("fail-before-percentage", "0".to_string()),
            ("delay-before-ms", "18446744073709551615".to_string()),
            ("match-header-name", "x-user-id".to_string()),
            ("destination-url", "http://example.org".to_string()),
        ]
    );
}

#[test]
fn entries_read_back_as_the_same_layer() {
    for layer in sample_layers() {
        let mut back = SettingsLayer::default();
        for (name, value) in layer.entries() {
            back.set_field(name, &value);
        }
        assert_eq!(back, layer);
    }
}
