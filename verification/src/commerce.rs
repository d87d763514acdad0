//! Commerce API client logic: building the authenticated order-listing and
//! read-only requests, and normalizing HTTP outcomes into result records.
//! The network call itself happens outside this crate; these functions fix
//! what is sent and what every reply becomes.

use vstd::prelude::*;
use base64::Engine;
use crate::jsonvals::{json_doc_of, json_array_of, parse_json_value, parse_json_array};
use crate::strutil::{
    spec_join, spec_trim_leading, spec_starts_with, spec_contains, spec_decimal, opt_view,
    join_amp, trim_leading, str_eq, decimal_string,
};

verus! {

/// An order search, as the GUI shell supplies it.  `status == "any"` and an
/// empty `search_query` mean "no filter".
pub struct OrderSearchRequest {
    pub start_date: String,
    pub end_date: String,
    pub status: String,
    pub search_query: String,
}

/// The normalized result of an order listing.  `total` always counts
/// `orders`; `error` is set exactly when `success` is false.
pub struct OrderSearchResponse {
    pub success: bool,
    pub orders: Vec<serde_json::Value>,
    pub total: usize,
    pub error: Option<String>,
}

/// A read-only passthrough request.  Only a case-insensitive `GET` is ever
/// sent; `data` is never transmitted.  Absent credentials fall back to the
/// environment-supplied ones.
pub struct WooCommerceRequest {
    pub endpoint: String,
    pub method: String,
    pub data: Option<serde_json::Value>,
    pub woo_url: Option<String>,
    pub consumer_key: Option<String>,
    pub consumer_secret: Option<String>,
}

/// The normalized result of a read-only passthrough call.
pub struct WooCommerceResponse {
    pub success: bool,
    pub data: Option<serde_json::Value>,
    pub error: Option<String>,
}

/// Credentials loaded from the environment, each possibly absent.
pub struct EnvCredentials {
    pub woo_base_url: Option<String>,
    pub woo_key: Option<String>,
    pub woo_secret: Option<String>,
    pub merchantguy_base_url: Option<String>,
    pub merchantguy_key: Option<String>,
}

/// A request ready to send: the full URL and the Basic-auth header value.
#[derive(Debug)]
pub struct PreparedRequest {
    pub url: String,
    pub auth_header: String,
}

/// What base64's STANDARD engine yields on a text's UTF-8 bytes: a function
/// of the text alone.
pub uninterp spec fn base64_of(s: Seq<char>) -> Seq<char>;

/// Relies on base64::engine::general_purpose::STANDARD.encode: the encoding
/// depends on the input alone.
#[verifier::external_body]
fn base64_encode(s: &str) -> (r: String)
    ensures
        r@ == base64_of(s@),
{
    base64::engine::general_purpose::STANDARD.encode(s)
}

/// The HTTP Basic authentication header value: `Basic` and the encoded
/// `key:secret`.
pub open spec fn spec_basic_auth(key: Seq<char>, secret: Seq<char>) -> Seq<char> {
    "Basic "@ + base64_of(key + ":"@ + secret)
}

/// Builds the Basic-auth header value from the consumer credentials.
pub fn basic_auth_header(key: &str, secret: &str) -> (r: String)
    ensures
        r@ == spec_basic_auth(key@, secret@),
{
    let mut creds = key.to_owned();
    creds.append(":");
    creds.append(secret);
    let mut r = String::from_str("Basic ");
    r.append(base64_encode(creds.as_str()).as_str());
    r
}

/// The API root under a base URL: the `/wp-json/wc/v3` path, without doubling
/// a trailing slash.
pub open spec fn spec_wc_base(u: Seq<char>) -> Seq<char> {
    if u.len() > 0 && u[u.len() - 1] == '/' {
        u + "wp-json/wc/v3"@
    } else {
        u + "/wp-json/wc/v3"@
    }
}

fn wc_base_url(u: &str) -> (r: String)
    ensures
        r@ == spec_wc_base(u@),
{
    let n = u.unicode_len();
    let mut r = u.to_owned();
    if n > 0 && u.get_char(n - 1) == '/' {
        r.append("wp-json/wc/v3");
    } else {
        r.append("/wp-json/wc/v3");
    }
    r
}

/// The query parameters of an order listing, in order: the date window and
/// the fixed page size always; the status filter only when `status` is not
/// the `"any"` sentinel; the search filter only when the query is non-empty.
pub open spec fn spec_order_params(
    start: Seq<char>,
    end: Seq<char>,
    status: Seq<char>,
    search: Seq<char>,
) -> Seq<Seq<char>> {
    let base = seq!["after="@ + start, "before="@ + end, "per_page=100"@];
    let with_status = if status != "any"@ {
        base.push("status="@ + status)
    } else {
        base
    };
    if search.len() > 0 {
        with_status.push("search="@ + search)
    } else {
        with_status
    }
}

/// Builds the query parameters an order listing sends.
pub fn build_order_query_params(req: &OrderSearchRequest) -> (params: Vec<String>)
    ensures
        params@.map_values(|p: String| p@) == spec_order_params(
            req.start_date@,
            req.end_date@,
            req.status@,
            req.search_query@,
        ),
{
    let mut params: Vec<String> = Vec::new();
    let mut after = String::from_str("after=");
    after.append(req.start_date.as_str());
    params.push(after);
    let mut before = String::from_str("before=");
    before.append(req.end_date.as_str());
    params.push(before);
    params.push(String::from_str("per_page=100"));
    if !str_eq(req.status.as_str(), "any") {
        let mut status = String::from_str("status=");
        status.append(req.status.as_str());
        params.push(status);
    }
    if !req.search_query.as_str().is_empty() {
        let mut search = String::from_str("search=");
        search.append(req.search_query.as_str());
        params.push(search);
    }
    proof {
        assert(params@.map_values(|p: String| p@) =~= spec_order_params(
            req.start_date@,
            req.end_date@,
            req.status@,
            req.search_query@,
        ));
    }
    params
}

/// With both no-filter sentinels, the query carries exactly the three fixed
/// parameters, and none of them names a status or search filter.
pub proof fn lemma_no_filter_params(
    start: Seq<char>,
    end: Seq<char>,
    status: Seq<char>,
    search: Seq<char>,
)
    requires
        status == "any"@,
        search.len() == 0,
    ensures
        spec_order_params(start, end, status, search).len() == 3,
        forall|i: int|
            0 <= i < 3 ==> !spec_starts_with(
                #[trigger] spec_order_params(start, end, status, search)[i],
                "status="@,
            ),
        forall|i: int|
            0 <= i < 3 ==> !spec_starts_with(
                #[trigger] spec_order_params(start, end, status, search)[i],
                "search="@,
            ),
{
    reveal_strlit("after=");
    reveal_strlit("before=");
    reveal_strlit("per_page=100");
    reveal_strlit("status=");
    reveal_strlit("search=");
    let ps = spec_order_params(start, end, status, search);
    assert forall|i: int|
        0 <= i < 3 implies !spec_starts_with(#[trigger] ps[i], "status="@) && !spec_starts_with(
        ps[i],
        "search="@,
    ) by {
        assert(ps[0][0] == 'a');
        assert(ps[1][0] == 'b');
        assert(ps[2][0] == 'p');
        if spec_starts_with(ps[i], "status="@) {
            assert(ps[i].take("status="@.len() as int) == "status="@);
            assert(ps[i].take("status="@.len() as int)[0] == ps[i][0]);
            assert(ps[i][0] == 's');
        }
        if spec_starts_with(ps[i], "search="@) {
            assert(ps[i].take("search="@.len() as int) == "search="@);
            assert(ps[i].take("search="@.len() as int)[0] == ps[i][0]);
            assert(ps[i][0] == 's');
        }
    }
}

/// With a concrete status and a non-empty search, both filters appear, after
/// the three fixed parameters.
pub proof fn lemma_filter_params_present(
    start: Seq<char>,
    end: Seq<char>,
    status: Seq<char>,
    search: Seq<char>,
)
    requires
        status != "any"@,
        search.len() > 0,
    ensures
        spec_order_params(start, end, status, search).len() == 5,
        spec_order_params(start, end, status, search)[3] == "status="@ + status,
        spec_order_params(start, end, status, search)[4] == "search="@ + search,
{
}

/// The filter names are absent from every fixed piece of an order-listing
/// URL.  `p` is kept abstract: any seven-character name that starts with `s`,
/// is not followed by `o`, ends with its only `=`, and avoids the pieces'
/// seam characters qualifies, and both `status=` and `search=` do.
proof fn lemma_filter_pattern_free_literals(p: Seq<char>)
    requires
        p.len() == 7,
        p[0] == 's',
        p[1] != 'o',
        forall|k: int| 0 <= k < 7 ==> p[k] != '&' && p[k] != '/' && p[k] != 'w' && p[k] != '?',
        forall|k: int| 0 <= k < 6 ==> p[k] != '=',
    ensures
        !spec_contains("after="@, p),
        !spec_contains("&before="@, p),
        !spec_contains("&per_page=100"@, p),
        !spec_contains("/orders?"@, p),
        !spec_contains("/wp-json/wc/v3"@, p),
        !spec_contains("wp-json/wc/v3"@, p),
{
    reveal_strlit("after=");
    reveal_strlit("&before=");
    reveal_strlit("&per_page=100");
    reveal_strlit("/orders?");
    reveal_strlit("/wp-json/wc/v3");
    reveal_strlit("wp-json/wc/v3");
    assert forall|i: int| 0 <= i && i + 7 <= "&before="@.len() implies #[trigger] "&before="@
        .subrange(i, i + 7) != p by {
        if "&before="@.subrange(i, i + 7) == p {
            assert("&before="@.subrange(i, i + 7)[0] == "&before="@[i]);
        }
    }
    assert forall|i: int| 0 <= i && i + 7 <= "&per_page=100"@.len() implies
        #[trigger] "&per_page=100"@.subrange(i, i + 7) != p by {
        if "&per_page=100"@.subrange(i, i + 7) == p {
            assert("&per_page=100"@.subrange(i, i + 7)[0] == "&per_page=100"@[i]);
        }
    }
    assert forall|i: int| 0 <= i && i + 7 <= "/orders?"@.len() implies #[trigger] "/orders?"@
        .subrange(i, i + 7) != p by {
        if "/orders?"@.subrange(i, i + 7) == p {
            assert("/orders?"@.subrange(i, i + 7)[0] == "/orders?"@[i]);
        }
    }
    assert forall|i: int| 0 <= i && i + 7 <= "/wp-json/wc/v3"@.len() implies
        #[trigger] "/wp-json/wc/v3"@.subrange(i, i + 7) != p by {
        if "/wp-json/wc/v3"@.subrange(i, i + 7) == p {
            assert("/wp-json/wc/v3"@.subrange(i, i + 7)[0] == "/wp-json/wc/v3"@[i]);
            assert("/wp-json/wc/v3"@.subrange(i, i + 7)[1] == "/wp-json/wc/v3"@[i + 1]);
        }
    }
    assert forall|i: int| 0 <= i && i + 7 <= "wp-json/wc/v3"@.len() implies
        #[trigger] "wp-json/wc/v3"@.subrange(i, i + 7) != p by {
        if "wp-json/wc/v3"@.subrange(i, i + 7) == p {
            assert("wp-json/wc/v3"@.subrange(i, i + 7)[0] == "wp-json/wc/v3"@[i]);
            assert("wp-json/wc/v3"@.subrange(i, i + 7)[1] == "wp-json/wc/v3"@[i + 1]);
        }
    }
}

/// With both no-filter sentinels, a filter name is absent from the whole URL,
/// not only from the parameter list, provided the caller's own base URL and
/// dates do not carry the name themselves (a date that reads `status=` would
/// of course surface in the URL).
proof fn lemma_url_avoids_filter_pattern(
    base: Seq<char>,
    start: Seq<char>,
    end: Seq<char>,
    p: Seq<char>,
)
    requires
        p.len() == 7,
        p[0] == 's',
        p[1] != 'o',
        forall|k: int| 0 <= k < 7 ==> p[k] != '&' && p[k] != '/' && p[k] != 'w' && p[k] != '?',
        forall|k: int| 0 <= k < 6 ==> p[k] != '=',
        !spec_contains(base, p),
        !spec_contains(start, p),
        !spec_contains(end, p),
    ensures
        !spec_contains(spec_orders_url(base, start, end, "any"@, Seq::<char>::empty()), p),
{
    reveal_strlit("after=");
    reveal_strlit("before=");
    reveal_strlit("&before=");
    reveal_strlit("per_page=100");
    reveal_strlit("&per_page=100");
    reveal_strlit("/orders?");
    reveal_strlit("/wp-json/wc/v3");
    reveal_strlit("wp-json/wc/v3");
    lemma_filter_pattern_free_literals(p);

    // the query, piece by piece: no seam lets the pattern in
    let pa = "after="@ + start;
    assert("after="@.last() == '=');
    crate::strutil::lemma_concat_avoids_pattern_by_last("after="@, start, p);
    let a2 = pa + "&before="@;
    assert("&before="@[0] == '&');
    crate::strutil::lemma_concat_avoids_pattern_by_first(pa, "&before="@, p);
    let a3 = a2 + end;
    assert(a2.last() == '=');
    crate::strutil::lemma_concat_avoids_pattern_by_last(a2, end, p);
    let a4 = a3 + "&per_page=100"@;
    assert("&per_page=100"@[0] == '&');
    crate::strutil::lemma_concat_avoids_pattern_by_first(a3, "&per_page=100"@, p);

    // the API root and path
    let w = spec_wc_base(base);
    if base.len() > 0 && base[base.len() - 1] == '/' {
        assert("wp-json/wc/v3"@[0] == 'w');
        crate::strutil::lemma_concat_avoids_pattern_by_first(base, "wp-json/wc/v3"@, p);
    } else {
        assert("/wp-json/wc/v3"@[0] == '/');
        crate::strutil::lemma_concat_avoids_pattern_by_first(base, "/wp-json/wc/v3"@, p);
    }
    assert(!spec_contains(w, p));
    let u1 = w + "/orders?"@;
    assert("/orders?"@[0] == '/');
    crate::strutil::lemma_concat_avoids_pattern_by_first(w, "/orders?"@, p);
    assert(u1.last() == '?');
    crate::strutil::lemma_concat_avoids_pattern_by_last(u1, a4, p);

    // the URL is exactly that concatenation
    let params = spec_order_params(start, end, "any"@, Seq::<char>::empty());
    assert(params =~= seq!["after="@ + start, "before="@ + end, "per_page=100"@]);
    let j = spec_join(params, '&');
    let d1 = params.drop_first();
    assert(d1 =~= seq!["before="@ + end, "per_page=100"@]);
    assert(d1.drop_first() =~= seq!["per_page=100"@]);
    assert(spec_join(d1.drop_first(), '&') == "per_page=100"@);
    assert(spec_join(d1, '&') == d1[0] + seq!['&'] + spec_join(d1.drop_first(), '&'));
    assert(j == params[0] + seq!['&'] + spec_join(d1, '&'));
    assert(a4 =~= j);
    assert(spec_orders_url(base, start, end, "any"@, Seq::<char>::empty()) =~= u1 + a4);
}

/// With both no-filter sentinels, the whole order-listing URL carries no
/// `status=` and no `search=` text, as long as the base URL and the two dates
/// do not themselves carry it.
pub proof fn lemma_no_filter_url(
    base: Seq<char>,
    start: Seq<char>,
    end: Seq<char>,
    status: Seq<char>,
    search: Seq<char>,
)
    requires
        status == "any"@,
        search.len() == 0,
        !spec_contains(base, "status="@),
        !spec_contains(start, "status="@),
        !spec_contains(end, "status="@),
        !spec_contains(base, "search="@),
        !spec_contains(start, "search="@),
        !spec_contains(end, "search="@),
    ensures
        !spec_contains(spec_orders_url(base, start, end, status, search), "status="@),
        !spec_contains(spec_orders_url(base, start, end, status, search), "search="@),
{
    reveal_strlit("status=");
    reveal_strlit("search=");
    assert(search =~= Seq::<char>::empty());
    lemma_url_avoids_filter_pattern(base, start, end, "status="@);
    lemma_url_avoids_filter_pattern(base, start, end, "search="@);
}

/// The full order-listing URL: the API root, the orders path, and the
/// `&`-joined query parameters.
pub open spec fn spec_orders_url(
    base: Seq<char>,
    start: Seq<char>,
    end: Seq<char>,
    status: Seq<char>,
    search: Seq<char>,
) -> Seq<char> {
    spec_wc_base(base) + "/orders?"@ + spec_join(spec_order_params(start, end, status, search), '&')
}

/// Builds the order-listing request: the full URL and the Basic-auth header.
pub fn prepare_woo_orders_request(
    req: &OrderSearchRequest,
    base_url: &str,
    consumer_key: &str,
    consumer_secret: &str,
) -> (p: PreparedRequest)
    ensures
        p.url@ == spec_orders_url(base_url@, req.start_date@, req.end_date@, req.status@, req.search_query@),
        p.auth_header@ == spec_basic_auth(consumer_key@, consumer_secret@),
{
    let mut url = wc_base_url(base_url);
    url.append("/orders?");
    let params = build_order_query_params(req);
    let query = join_amp(&params);
    url.append(query.as_str());
    let auth_header = basic_auth_header(consumer_key, consumer_secret);
    PreparedRequest { url, auth_header }
}

/// The error text of a failed HTTP outcome: the status code and what the body
/// or the failure was.
pub open spec fn spec_http_error_text(status: int, reason: Seq<char>) -> Seq<char> {
    "HTTP "@ + spec_decimal(status) + ": "@ + reason
}

fn http_error_text(status: u16, reason: &str) -> (r: String)
    ensures
        r@ == spec_http_error_text(status as int, reason@),
{
    let mut r = String::from_str("HTTP ");
    r.append(decimal_string(status as u64).as_str());
    r.append(": ");
    r.append(reason);
    r
}

/// A success status: the 2xx range.
pub open spec fn spec_status_success(status: int) -> bool {
    200 <= status < 300
}

/// Normalizes an order-listing HTTP outcome.  A success status with a JSON
/// array body reports the orders and their count; every other outcome reports
/// a failure carrying the status and the body or the reason, with no orders.
pub fn parse_woo_orders_response(status: u16, body: &str) -> (r: OrderSearchResponse)
    ensures
        spec_status_success(status as int) ==> (json_array_of(body@) matches Some(os) ==> r.success
            && r.orders@ == os && r.total == os.len() && r.error is None),
        spec_status_success(status as int) && json_array_of(body@) is None ==> !r.success
            && r.orders@.len() == 0 && r.total == 0 && (r.error matches Some(m) && m@
            == spec_http_error_text(status as int, "Failed to parse JSON response"@)),
        !spec_status_success(status as int) ==> !r.success && r.orders@.len() == 0 && r.total == 0
            && (r.error matches Some(m) && m@ == spec_http_error_text(status as int, body@)),
{
    if 200 <= status && status < 300 {
        match parse_json_array(body) {
            Some(orders) => {
                let total = orders.len();
                OrderSearchResponse { success: true, orders, total, error: None }
            },
            None => OrderSearchResponse {
                success: false,
                orders: Vec::new(),
                total: 0,
                error: Some(http_error_text(status, "Failed to parse JSON response")),
            },
        }
    } else {
        OrderSearchResponse {
            success: false,
            orders: Vec::new(),
            total: 0,
            error: Some(http_error_text(status, body)),
        }
    }
}

/// A method that reads `GET` case-insensitively, the only one the read-only
/// passthrough ever sends.
pub open spec fn spec_is_get(m: Seq<char>) -> bool {
    m.len() == 3 && (m[0] == 'G' || m[0] == 'g') && (m[1] == 'E' || m[1] == 'e') && (m[2] == 'T'
        || m[2] == 't')
}

/// Decides `spec_is_get`.
pub fn is_get_method(m: &str) -> (r: bool)
    ensures
        r == spec_is_get(m@),
{
    let n = m.unicode_len();
    if n != 3 {
        return false;
    }
    let c0 = m.get_char(0);
    let c1 = m.get_char(1);
    let c2 = m.get_char(2);
    (c0 == 'G' || c0 == 'g') && (c1 == 'E' || c1 == 'e') && (c2 == 'T' || c2 == 't')
}

/// A request-supplied value wins over the environment-supplied one.
pub open spec fn spec_resolve(req_val: Option<Seq<char>>, env_val: Option<Seq<char>>) -> Option<
    Seq<char>,
> {
    if req_val is Some {
        req_val
    } else {
        env_val
    }
}

fn resolve_value(req_val: &Option<String>, env_val: &Option<String>) -> (r: Option<String>)
    ensures
        opt_view(r) == spec_resolve(opt_view(*req_val), opt_view(*env_val)),
{
    match req_val {
        Some(s) => Some(s.clone()),
        None => match env_val {
            Some(s) => Some(s.clone()),
            None => None,
        },
    }
}

pub open spec fn resolved_url(req: WooCommerceRequest, env: EnvCredentials) -> Option<Seq<char>> {
    spec_resolve(opt_view(req.woo_url), opt_view(env.woo_base_url))
}

pub open spec fn resolved_key(req: WooCommerceRequest, env: EnvCredentials) -> Option<Seq<char>> {
    spec_resolve(opt_view(req.consumer_key), opt_view(env.woo_key))
}

pub open spec fn resolved_secret(req: WooCommerceRequest, env: EnvCredentials) -> Option<
    Seq<char>,
> {
    spec_resolve(opt_view(req.consumer_secret), opt_view(env.woo_secret))
}

pub open spec fn security_violation_text() -> Seq<char> {
    "SECURITY VIOLATION: Only GET requests allowed. This app is read-only."@
}

/// The URL of a read-only passthrough call: the API root and the endpoint,
/// with the endpoint's leading slashes dropped.
pub open spec fn spec_passthrough_url(base: Seq<char>, endpoint: Seq<char>) -> Seq<char> {
    spec_wc_base(base) + "/"@ + spec_trim_leading(endpoint, '/')
}

/// Builds the read-only passthrough request.  Credentials resolve
/// request-first with the environment as fallback, and each is required, in
/// the order URL, key, secret; any method but a case-insensitive `GET` is
/// rejected here, before anything is sent, and the request's `data` is never
/// part of what is prepared.
pub fn prepare_woocommerce_request(req: &WooCommerceRequest, env: &EnvCredentials) -> (r: Result<
    PreparedRequest,
    String,
>)
    ensures
        resolved_url(*req, *env) is None ==> (r matches Err(m) && m@
            == "WooCommerce URL not provided"@),
        resolved_url(*req, *env) is Some && resolved_key(*req, *env) is None ==> (r matches Err(m)
            && m@ == "WooCommerce consumer key not provided"@),
        resolved_url(*req, *env) is Some && resolved_key(*req, *env) is Some && resolved_secret(
            *req,
            *env,
        ) is None ==> (r matches Err(m) && m@ == "WooCommerce consumer secret not provided"@),
        resolved_url(*req, *env) is Some && resolved_key(*req, *env) is Some && resolved_secret(
            *req,
            *env,
        ) is Some && !spec_is_get(req.method@) ==> (r matches Err(m) && m@
            == security_violation_text()),
        resolved_url(*req, *env) is Some && resolved_key(*req, *env) is Some && resolved_secret(
            *req,
            *env,
        ) is Some && spec_is_get(req.method@) ==> (r matches Ok(p) && p.url@
            == spec_passthrough_url(resolved_url(*req, *env)->0, req.endpoint@) && p.auth_header@
            == spec_basic_auth(resolved_key(*req, *env)->0, resolved_secret(*req, *env)->0)),
{
    let url = match resolve_value(&req.woo_url, &env.woo_base_url) {
        Some(u) => u,
        None => {
            return Err(String::from_str("WooCommerce URL not provided"));
        },
    };
    let key = match resolve_value(&req.consumer_key, &env.woo_key) {
        Some(k) => k,
        None => {
            return Err(String::from_str("WooCommerce consumer key not provided"));
        },
    };
    let secret = match resolve_value(&req.consumer_secret, &env.woo_secret) {
        Some(s) => s,
        None => {
            return Err(String::from_str("WooCommerce consumer secret not provided"));
        },
    };
    if !is_get_method(req.method.as_str()) {
        return Err(
            String::from_str("SECURITY VIOLATION: Only GET requests allowed. This app is read-only."),
        );
    }
    let mut full_url = wc_base_url(url.as_str());
    full_url.append("/");
    let trimmed = trim_leading(req.endpoint.as_str(), '/');
    full_url.append(trimmed.as_str());
    let auth_header = basic_auth_header(key.as_str(), secret.as_str());
    Ok(PreparedRequest { url: full_url, auth_header })
}

/// Normalizes a read-only passthrough HTTP outcome, as
/// `parse_woo_orders_response` does for orders: a success status with a JSON
/// body reports the parsed value, every other outcome a failure with the
/// status and the body or the reason.
pub fn parse_woocommerce_response(status: u16, body: &str) -> (r: WooCommerceResponse)
    ensures
        spec_status_success(status as int) ==> (json_doc_of(body@) matches Some(v) ==> r.success
            && r.data == Some(v) && r.error is None),
        spec_status_success(status as int) && json_doc_of(body@) is None ==> !r.success
            && r.data is None && (r.error matches Some(m) && m@ == spec_http_error_text(
            status as int,
            "Failed to parse JSON response"@,
        )),
        !spec_status_success(status as int) ==> !r.success && r.data is None && (r.error matches
            Some(m) && m@ == spec_http_error_text(status as int, body@)),
{
    if 200 <= status && status < 300 {
        match parse_json_value(body) {
            Some(v) => WooCommerceResponse { success: true, data: Some(v), error: None },
            None => WooCommerceResponse {
                success: false,
                data: None,
                error: Some(http_error_text(status, "Failed to parse JSON response")),
            },
        }
    } else {
        WooCommerceResponse {
            success: false,
            data: None,
            error: Some(http_error_text(status, body)),
        }
    }
}

} // verus!
