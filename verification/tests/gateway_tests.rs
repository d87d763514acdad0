use kr1_core::gateway::{
    parse_mgw_transactions, build_transaction_params, TransactionSearchRequest,
};

fn json(s: &str) -> serde_json::Value {
    serde_json::from_str(s).unwrap()
}

#[test]
fn modern_json_body_reports_its_transactions() {
    let r = parse_mgw_transactions("{\"transactions\":[{\"id\":1},{\"id\":2}]}").unwrap();
    assert!(r.success);
    assert_eq!(r.total, 2);
    assert_eq!(r.transactions, vec![json("{\"id\":1}"), json("{\"id\":2}")]);
    assert_eq!(r.error, None);
}

#[test]
fn legacy_declined_body_reports_the_decoded_message() {
    let r = parse_mgw_transactions("response=0&responsetext=Card%20declined").unwrap();
    assert!(!r.success);
    assert_eq!(r.total, 0);
    assert!(r.transactions.is_empty());
    assert_eq!(r.error, Some("Card declined".to_string()));
}

#[test]
fn legacy_encoded_transactions_are_decoded_and_counted() {
    let r = parse_mgw_transactions("response=1&transactions=%5B%7B%22id%22%3A5%7D%5D").unwrap();
    assert!(r.success);
    assert_eq!(r.total, 1);
    assert_eq!(r.transactions, vec![json("{\"id\":5}")]);
    assert_eq!(r.error, None);
}

#[test]
fn empty_body_is_a_quiet_legacy_failure() {
    let r = parse_mgw_transactions("").unwrap();
    assert!(!r.success);
    assert_eq!(r.total, 0);
    assert!(r.transactions.is_empty());
    assert_eq!(r.error, None);
}

#[test]
fn json_without_a_transactions_array_falls_through_to_legacy() {
    let r = parse_mgw_transactions("{\"foo\": 1}").unwrap();
    assert!(!r.success);
    assert_eq!(r.total, 0);
    assert!(r.transactions.is_empty());
    assert_eq!(r.error, None);

    // `transactions` present but not an array
    let r = parse_mgw_transactions("{\"transactions\": 7}").unwrap();
    assert!(!r.success);
    assert_eq!(r.total, 0);
}

#[test]
fn responsetext_is_kept_only_while_success_stands_false() {
    let r = parse_mgw_transactions("response=1&responsetext=approved").unwrap();
    assert!(r.success);
    assert_eq!(r.error, None);

    // seen before `response`, the text is kept
    let r = parse_mgw_transactions("responsetext=oops&response=0").unwrap();
    assert!(!r.success);
    assert_eq!(r.error, Some("oops".to_string()));

    // a message kept while success stood false survives a later flip to true
    let r = parse_mgw_transactions("responsetext=late&response=1").unwrap();
    assert!(r.success);
    assert_eq!(r.error, Some("late".to_string()));
}

#[test]
fn unknown_keys_and_pairs_without_equals_are_ignored() {
    let r = parse_mgw_transactions("noise&other=thing&response=1").unwrap();
    assert!(r.success);
    assert_eq!(r.total, 0);
    assert_eq!(r.error, None);
}

#[test]
fn undecodable_transactions_value_leaves_the_list_empty() {
    let r = parse_mgw_transactions("response=1&transactions=notjson").unwrap();
    assert!(r.success);
    assert_eq!(r.total, 0);
    assert!(r.transactions.is_empty());
}

#[test]
fn a_malformed_value_fails_the_whole_parse() {
    let err = parse_mgw_transactions("response=0&responsetext=%ff").unwrap_err();
    assert!(err.starts_with("Failed to decode response:"));
}

#[test]
fn transaction_params_carry_the_fixed_fields_and_no_disabled_filters() {
    let req = TransactionSearchRequest {
        start_date: "2024-01-01".to_string(),
        end_date: "2024-01-31".to_string(),
        transaction_type: "all".to_string(),
        search_query: String::new(),
    };
    let params = build_transaction_params(&req, "mgw-key");
    let expected: Vec<(String, String)> = vec![
        ("username".to_string(), "mgw-key".to_string()),
        ("password".to_string(), String::new()),
        ("type".to_string(), "query".to_string()),
        ("start_date".to_string(), "2024-01-01".to_string()),
        ("end_date".to_string(), "2024-01-31".to_string()),
    ];
    assert_eq!(params, expected);
}

#[test]
fn transaction_params_carry_both_enabled_filters() {
    let req = TransactionSearchRequest {
        start_date: "2024-02-01".to_string(),
        end_date: "2024-02-29".to_string(),
        transaction_type: "sale".to_string(),
        search_query: "bob".to_string(),
    };
    let params = build_transaction_params(&req, "k");
    assert_eq!(params.len(), 7);
    assert_eq!(params[5], ("search".to_string(), "bob".to_string()));
    assert_eq!(params[6], ("transaction_type".to_string(), "sale".to_string()));
}
