//! Text helpers and the encoding boundary: joining, decimal rendering,
//! segment validation, query strings, and JSON quoting.

use octx::encode::{form_urlencode, json_array_of_strings, json_quote, rfc3339_utc};
use octx::text::{dec_of_i64, dec_of_u64, is_valid_segment, join};
use octx::{Params, StateFilter};

#[test]
fn join_of_nothing_is_empty() {
    assert_eq!(join(&vec![], ","), "");
}

#[test]
fn join_of_one_part_has_no_separator() {
    assert_eq!(join(&vec!["a".to_string()], ","), "a");
}

#[test]
fn join_separates_each_neighbouring_pair() {
    let parts = vec!["a".to_string(), String::new(), "c".to_string()];
    assert_eq!(join(&parts, ","), "a,,c");
}

#[test]
fn decimal_of_zero_is_one_digit() {
    assert_eq!(dec_of_u64(0), "0");
}

#[test]
fn decimal_renders_most_significant_digit_first() {
    assert_eq!(dec_of_u64(1204), "1204");
    assert_eq!(dec_of_u64(u64::MAX), "18446744073709551615");
}

#[test]
fn signed_decimal_renders_the_sign() {
    assert_eq!(dec_of_i64(-5), "-5");
    assert_eq!(dec_of_i64(7), "7");
    assert_eq!(dec_of_i64(i64::MIN), "-9223372036854775808");
}

#[test]
fn segments_accept_word_characters_only() {
    assert!(is_valid_segment("rust-lang"));
    assert!(is_valid_segment("ci.yml"));
    assert!(is_valid_segment("a_b.C-9"));
    assert!(!is_valid_segment(""));
    assert!(!is_valid_segment("a/b"));
    assert!(!is_valid_segment("a b"));
    assert!(!is_valid_segment("a?b"));
}

#[test]
fn query_renders_fields_in_fixed_order() {
    let params = Params {
        per_page: Some(100),
        state: Some(StateFilter::All),
        since: None,
        filter: Some("all".to_string()),
    };
    assert_eq!(params.to_query(), "per_page=100&state=all&filter=all");
}

#[test]
fn query_leaves_absent_fields_out() {
    let params = Params {
        per_page: None,
        state: None,
        since: None,
        filter: None,
    };
    assert_eq!(params.to_query(), "");
}

#[test]
fn query_clamps_the_page_size_to_the_cap() {
    let params = Params {
        per_page: Some(200),
        state: None,
        since: None,
        filter: None,
    };
    assert_eq!(params.to_query(), "per_page=100");
}

#[test]
fn query_encodes_the_since_timestamp() {
    let params = Params {
        per_page: Some(100),
        state: None,
        since: Some(0),
        filter: None,
    };
    assert_eq!(params.to_query(), "per_page=100&since=1970-01-01T00%3A00%3A00Z");
}

#[test]
fn default_params_ask_for_the_full_page_size() {
    let params = Params::default();
    assert_eq!(params.to_query(), "per_page=100");
}

#[test]
fn form_encoding_passes_plain_pairs_through() {
    let pairs = vec![
        ("a".to_string(), "b".to_string()),
        ("c".to_string(), "d".to_string()),
    ];
    assert_eq!(form_urlencode(&pairs), "a=b&c=d");
}

#[test]
fn form_encoding_escapes_a_space_as_plus() {
    let pairs = vec![("k".to_string(), "a b".to_string())];
    assert_eq!(form_urlencode(&pairs), "k=a+b");
}

#[test]
fn rfc3339_renders_utc_with_seconds_precision() {
    assert_eq!(rfc3339_utc(0), "1970-01-01T00:00:00Z");
    assert_eq!(rfc3339_utc(1431648000), "2015-05-15T00:00:00Z");
}

#[test]
fn json_quoting_wraps_a_plain_string() {
    assert_eq!(json_quote("x"), "\"x\"");
}

#[test]
fn json_quoting_escapes_quotes_and_backslashes() {
    assert_eq!(json_quote("a\"b\\c"), "\"a\\\"b\\\\c\"");
}

#[test]
fn json_array_matches_the_reference_encoder() {
    let items = vec!["bug".to_string(), "needs \"triage\"".to_string()];
    assert_eq!(
        json_array_of_strings(&items),
        serde_json::to_string(&items).unwrap()
    );
    assert_eq!(json_array_of_strings(&vec![]), "[]");
    assert_eq!(
        json_array_of_strings(&vec!["a".to_string(), "b".to_string()]),
        "[\"a\",\"b\"]"
    );
}
