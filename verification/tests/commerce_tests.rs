use kr1_core::commerce::{
    basic_auth_header, build_order_query_params, prepare_woo_orders_request,
    parse_woo_orders_response, prepare_woocommerce_request, parse_woocommerce_response,
    is_get_method, OrderSearchRequest, WooCommerceRequest, EnvCredentials,
};

fn order_req(status: &str, search: &str) -> OrderSearchRequest {
    OrderSearchRequest {
        start_date: "2024-01-01".to_string(),
        end_date: "2024-01-31".to_string(),
        status: status.to_string(),
        search_query: search.to_string(),
    }
}

fn full_env() -> EnvCredentials {
    EnvCredentials {
        woo_base_url: Some("https://env.example.com".to_string()),
        woo_key: Some("env-key".to_string()),
        woo_secret: Some("env-secret".to_string()),
        merchantguy_base_url: None,
        merchantguy_key: None,
    }
}

fn passthrough(method: &str) -> WooCommerceRequest {
    WooCommerceRequest {
        endpoint: "products".to_string(),
        method: method.to_string(),
        data: None,
        woo_url: Some("https://shop.example.com".to_string()),
        consumer_key: Some("ck".to_string()),
        consumer_secret: Some("cs".to_string()),
    }
}

#[test]
fn sentinel_criteria_leave_both_filters_out_of_the_url() {
    let p = prepare_woo_orders_request(&order_req("any", ""), "https://shop.example.com", "ck", "cs");
    assert_eq!(
        p.url,
        "https://shop.example.com/wp-json/wc/v3/orders?after=2024-01-01&before=2024-01-31&per_page=100"
    );
    assert!(!p.url.contains("status="));
    assert!(!p.url.contains("search="));
}

#[test]
fn concrete_criteria_put_both_filters_into_the_url() {
    let p = prepare_woo_orders_request(
        &order_req("processing", "bob"),
        "https://shop.example.com",
        "ck",
        "cs",
    );
    assert_eq!(
        p.url,
        "https://shop.example.com/wp-json/wc/v3/orders?after=2024-01-01&before=2024-01-31&per_page=100&status=processing&search=bob"
    );
    assert!(p.url.contains("status=processing"));
    assert!(p.url.contains("search=bob"));
}

#[test]
fn order_query_params_match_the_criteria() {
    let params = build_order_query_params(&order_req("any", ""));
    assert_eq!(
        params,
        vec![
            "after=2024-01-01".to_string(),
            "before=2024-01-31".to_string(),
            "per_page=100".to_string(),
        ]
    );
    let params = build_order_query_params(&order_req("completed", "alice"));
    assert_eq!(params.len(), 5);
    assert_eq!(params[3], "status=completed");
    assert_eq!(params[4], "search=alice");
}

#[test]
fn a_trailing_slash_in_the_base_url_is_not_doubled() {
    let p = prepare_woo_orders_request(&order_req("any", ""), "https://shop.example.com/", "k", "s");
    assert!(p.url.starts_with("https://shop.example.com/wp-json/wc/v3/orders?"));
}

#[test]
fn basic_auth_is_base64_of_key_colon_secret() {
    let h = basic_auth_header("ck", "cs");
    assert_eq!(h, "Basic Y2s6Y3M=");
}

#[test]
fn order_outcomes_are_normalized() {
    let ok = parse_woo_orders_response(200, "[{\"id\":3}]");
    assert!(ok.success);
    assert_eq!(ok.total, 1);
    let expected: serde_json::Value = serde_json::from_str("{\"id\":3}").unwrap();
    assert_eq!(ok.orders, vec![expected]);
    assert_eq!(ok.error, None);

    let empty = parse_woo_orders_response(204, "[]");
    assert!(empty.success);
    assert_eq!(empty.total, 0);

    let failed = parse_woo_orders_response(404, "not here");
    assert!(!failed.success);
    assert_eq!(failed.total, 0);
    assert!(failed.orders.is_empty());
    assert_eq!(failed.error, Some("HTTP 404: not here".to_string()));

    let unparsable = parse_woo_orders_response(200, "{\"not\": \"an array\"}");
    assert!(!unparsable.success);
    assert_eq!(
        unparsable.error,
        Some("HTTP 200: Failed to parse JSON response".to_string())
    );
}

#[test]
fn non_get_methods_are_rejected_before_anything_is_sent() {
    for method in ["POST", "PUT", "DELETE", "PATCH", "post"] {
        let err = prepare_woocommerce_request(&passthrough(method), &full_env()).unwrap_err();
        assert_eq!(
            err,
            "SECURITY VIOLATION: Only GET requests allowed. This app is read-only."
        );
    }
}

#[test]
fn get_is_accepted_in_any_case() {
    assert!(is_get_method("GET"));
    assert!(is_get_method("get"));
    assert!(is_get_method("GeT"));
    assert!(!is_get_method("GETS"));
    assert!(!is_get_method("PUT"));
    let p = prepare_woocommerce_request(&passthrough("get"), &full_env()).unwrap();
    assert_eq!(p.url, "https://shop.example.com/wp-json/wc/v3/products");
    assert_eq!(p.auth_header, "Basic Y2s6Y3M=");
}

#[test]
fn request_credentials_win_over_the_environment() {
    let p = prepare_woocommerce_request(&passthrough("GET"), &full_env()).unwrap();
    assert!(p.url.starts_with("https://shop.example.com/"));

    let mut req = passthrough("GET");
    req.woo_url = None;
    req.consumer_key = None;
    req.consumer_secret = None;
    let p = prepare_woocommerce_request(&req, &full_env()).unwrap();
    assert!(p.url.starts_with("https://env.example.com/"));
    assert_eq!(p.auth_header, basic_auth_header("env-key", "env-secret"));
}

#[test]
fn each_missing_credential_has_its_own_error_in_order() {
    let none_env = EnvCredentials {
        woo_base_url: None,
        woo_key: None,
        woo_secret: None,
        merchantguy_base_url: None,
        merchantguy_key: None,
    };
    let mut req = passthrough("GET");
    req.woo_url = None;
    req.consumer_key = None;
    req.consumer_secret = None;
    let err = prepare_woocommerce_request(&req, &none_env).unwrap_err();
    assert_eq!(err, "WooCommerce URL not provided");

    req.woo_url = Some("https://shop.example.com".to_string());
    let err = prepare_woocommerce_request(&req, &none_env).unwrap_err();
    assert_eq!(err, "WooCommerce consumer key not provided");

    req.consumer_key = Some("ck".to_string());
    let err = prepare_woocommerce_request(&req, &none_env).unwrap_err();
    assert_eq!(err, "WooCommerce consumer secret not provided");
}

#[test]
fn endpoint_leading_slashes_are_trimmed() {
    let mut req = passthrough("GET");
    req.endpoint = "///orders/5".to_string();
    let p = prepare_woocommerce_request(&req, &full_env()).unwrap();
    assert_eq!(p.url, "https://shop.example.com/wp-json/wc/v3/orders/5");
}

#[test]
fn passthrough_outcomes_are_normalized() {
    let ok = parse_woocommerce_response(200, "{\"a\": 1}");
    assert!(ok.success);
    let expected: serde_json::Value = serde_json::from_str("{\"a\": 1}").unwrap();
    assert_eq!(ok.data, Some(expected));
    assert_eq!(ok.error, None);

    let failed = parse_woocommerce_response(500, "boom");
    assert!(!failed.success);
    assert_eq!(failed.data, None);
    assert_eq!(failed.error, Some("HTTP 500: boom".to_string()));

    let unparsable = parse_woocommerce_response(200, "{");
    assert!(!unparsable.success);
    assert_eq!(
        unparsable.error,
        Some("HTTP 200: Failed to parse JSON response".to_string())
    );
}
