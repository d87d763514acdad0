//! Payment-gateway response normalization: a transaction-query response body
//! arrives either as a JSON object with a `transactions` array (the modern
//! format) or as `&`-joined, percent-encoded `key=value` pairs (the legacy
//! format), and both become one `TransactionSearchResponse`.

use vstd::prelude::*;
use crate::jsonvals::{
    json_doc_of, json_field_of, json_elems_of, json_array_of, parse_json_value, json_get_field,
    json_as_array, parse_json_array,
};
use crate::strutil::{
    spec_split, spec_split_once, split_char, split_once_char, str_eq, opt_view,
};

verus! {

/// A transaction search, as the GUI shell supplies it.  `transaction_type ==
/// "all"` and an empty `search_query` mean "no filter".
pub struct TransactionSearchRequest {
    pub start_date: String,
    pub end_date: String,
    pub transaction_type: String,
    pub search_query: String,
}

/// The normalized result of a transaction query.  `total` always counts
/// `transactions`; `error` carries the gateway's message when `success` is
/// false.
#[derive(Debug)]
pub struct TransactionSearchResponse {
    pub success: bool,
    pub transactions: Vec<serde_json::Value>,
    pub total: usize,
    pub error: Option<String>,
}

/// What `urlencoding::decode` yields on a text, `None` on a decode failure: a
/// function of the text alone.
pub uninterp spec fn percent_decoded(s: Seq<char>) -> Option<Seq<char>>;

/// Relies on urlencoding::decode: the decoding depends on the text alone, and
/// it fails exactly where the name has no value.
#[verifier::external_body]
fn percent_decode(s: &str) -> (r: Result<String, String>)
    ensures
        match r {
            Ok(d) => percent_decoded(s@) == Some(d@),
            Err(_) => percent_decoded(s@) is None,
        },
{
    match urlencoding::decode(s) {
        Ok(d) => Ok(d.into_owned()),
        Err(e) => Err(format!("Failed to decode response: {}", e)),
    }
}

/// A normalized gateway outcome, at the specification level.
pub ghost struct GatewayOutcome {
    pub success: bool,
    pub transactions: Seq<serde_json::Value>,
    pub error: Option<Seq<char>>,
}

pub open spec fn outcome_state(
    success: bool,
    txs: Seq<serde_json::Value>,
    err: Option<Seq<char>>,
) -> GatewayOutcome {
    GatewayOutcome { success: success, transactions: txs, error: err }
}

/// The modern path: the `transactions` array of a JSON object body, when the
/// body parses and holds one.
pub open spec fn modern_transactions(s: Seq<char>) -> Option<Seq<serde_json::Value>> {
    match json_doc_of(s) {
        None => None,
        Some(doc) => match json_field_of(doc, "transactions"@) {
            None => None,
            Some(t) => json_elems_of(t),
        },
    }
}

/// One pair of the legacy format folded into the outcome; `None` is the hard
/// failure of an undecodable value.  A pair without `=` is ignored;
/// `response` decides success; `responsetext` is kept as the error message
/// only while success stands false; a `transactions` value that parses as a
/// JSON array replaces the list, one that does not is ignored; every other
/// key is ignored.
pub open spec fn legacy_step(acc: GatewayOutcome, pair: Seq<char>) -> Option<GatewayOutcome> {
    match spec_split_once(pair, '=') {
        None => Some(acc),
        Some(kv) => match percent_decoded(kv.1) {
            None => None,
            Some(d) => Some(
                if kv.0 == "response"@ {
                    GatewayOutcome { success: d == "1"@, ..acc }
                } else if kv.0 == "responsetext"@ {
                    if !acc.success {
                        GatewayOutcome { error: Some(d), ..acc }
                    } else {
                        acc
                    }
                } else if kv.0 == "transactions"@ {
                    match json_array_of(d) {
                        Some(txs) => GatewayOutcome { transactions: txs, ..acc },
                        None => acc,
                    }
                } else {
                    acc
                },
            ),
        },
    }
}

pub open spec fn legacy_fold(acc: GatewayOutcome, pairs: Seq<Seq<char>>) -> Option<GatewayOutcome>
    decreases pairs.len(),
{
    if pairs.len() == 0 {
        Some(acc)
    } else {
        match legacy_step(acc, pairs[0]) {
            None => None,
            Some(a) => legacy_fold(a, pairs.drop_first()),
        }
    }
}

pub open spec fn legacy_init() -> GatewayOutcome {
    GatewayOutcome { success: false, transactions: Seq::<serde_json::Value>::empty(), error: None }
}

/// The whole parse, first match wins: the modern path when it applies, else
/// the legacy fold over the `&`-separated pairs.  `None` is the hard decode
/// failure of the legacy path.
pub open spec fn gateway_outcome(s: Seq<char>) -> Option<GatewayOutcome> {
    match modern_transactions(s) {
        Some(txs) => Some(outcome_state(true, txs, None)),
        None => legacy_fold(legacy_init(), spec_split(s, '&')),
    }
}

/// The response record reports the outcome: same verdict, the same
/// transactions in the same order, `total` recomputed as their count, and the
/// same message.
pub open spec fn response_reports(r: TransactionSearchResponse, m: GatewayOutcome) -> bool {
    &&& r.success == m.success
    &&& r.transactions@ == m.transactions
    &&& r.total == m.transactions.len()
    &&& opt_view(r.error) == m.error
}

/// Normalizes a raw gateway response body, in either format.
pub fn parse_mgw_transactions(response_text: &str) -> (r: Result<TransactionSearchResponse, String>)
    ensures
        match gateway_outcome(response_text@) {
            Some(m) => r matches Ok(resp) && response_reports(resp, m),
            None => r is Err,
        },
{
    if let Some(doc) = parse_json_value(response_text) {
        if let Some(t) = json_get_field(&doc, "transactions") {
            if let Some(arr) = json_as_array(&t) {
                let total = arr.len();
                return Ok(
                    TransactionSearchResponse {
                        success: true,
                        transactions: arr,
                        total,
                        error: None,
                    },
                );
            }
        }
    }
    assert(modern_transactions(response_text@) is None);
    let parts = split_char(response_text, '&');
    let ghost pairs = spec_split(response_text@, '&');
    let mut success = false;
    let mut error_message: Option<String> = None;
    let mut transactions: Vec<serde_json::Value> = Vec::new();
    let mut i: usize = 0;
    proof {
        assert(pairs.skip(0) =~= pairs);
    }
    while i < parts.len()
        invariant
            0 <= i <= parts@.len(),
            pairs == spec_split(response_text@, '&'),
            parts@.map_values(|p: String| p@) == pairs,
            modern_transactions(response_text@) is None,
            legacy_fold(legacy_init(), pairs) == legacy_fold(
                outcome_state(success, transactions@, opt_view(error_message)),
                pairs.skip(i as int),
            ),
        decreases parts@.len() - i,
    {
        let ghost acc = outcome_state(success, transactions@, opt_view(error_message));
        let ghost rest = pairs.skip(i as int);
        proof {
            assert(rest[0] == pairs[i as int]);
            assert(rest.drop_first() =~= pairs.skip(i as int + 1));
            assert(pairs[i as int] == parts@.map_values(|p: String| p@)[i as int]);
        }
        let pair = &parts[i];
        match split_once_char(pair.as_str(), '=') {
            None => {
                proof {
                    assert(legacy_step(acc, pairs[i as int]) == Some(acc));
                }
            },
            Some((k, v)) => {
                match percent_decode(v.as_str()) {
                    Err(m) => {
                        proof {
                            assert(legacy_step(acc, pairs[i as int]) is None);
                            assert(legacy_fold(acc, rest) is None);
                        }
                        return Err(m);
                    },
                    Ok(d) => {
                        if str_eq(k.as_str(), "response") {
                            success = str_eq(d.as_str(), "1");
                        } else if str_eq(k.as_str(), "responsetext") {
                            if !success {
                                error_message = Some(d);
                            }
                        } else if str_eq(k.as_str(), "transactions") {
                            if let Some(txs) = parse_json_array(d.as_str()) {
                                transactions = txs;
                            }
                        }
                        proof {
                            assert(legacy_step(acc, pairs[i as int]) == Some(
                                outcome_state(success, transactions@, opt_view(error_message)),
                            ));
                        }
                    },
                }
            },
        }
        i = i + 1;
    }
    proof {
        assert(pairs.skip(i as int) =~= Seq::<Seq<char>>::empty());
    }
    let total = transactions.len();
    Ok(
        TransactionSearchResponse {
            success,
            transactions,
            total,
            error: error_message,
        },
    )
}

/// The form fields of a transaction query, in order: the credentials and the
/// fixed query type, the date window, then the optional search filter (only
/// when the query is non-empty) and the optional type filter (only when it is
/// not the `"all"` sentinel).
pub open spec fn spec_transaction_params(
    key: Seq<char>,
    start: Seq<char>,
    end: Seq<char>,
    ttype: Seq<char>,
    search: Seq<char>,
) -> Seq<(Seq<char>, Seq<char>)> {
    let base = seq![
        ("username"@, key),
        ("password"@, Seq::<char>::empty()),
        ("type"@, "query"@),
        ("start_date"@, start),
        ("end_date"@, end),
    ];
    let with_search = if search.len() > 0 {
        base.push(("search"@, search))
    } else {
        base
    };
    if ttype != "all"@ {
        with_search.push(("transaction_type"@, ttype))
    } else {
        with_search
    }
}

/// Builds the form fields a transaction query sends.
pub fn build_transaction_params(req: &TransactionSearchRequest, gateway_key: &str) -> (params: Vec<
    (String, String),
>)
    ensures
        params@.map_values(|p: (String, String)| (p.0@, p.1@)) == spec_transaction_params(
            gateway_key@,
            req.start_date@,
            req.end_date@,
            req.transaction_type@,
            req.search_query@,
        ),
{
    let mut params: Vec<(String, String)> = Vec::new();
    params.push((String::from_str("username"), gateway_key.to_owned()));
    params.push((String::from_str("password"), String::new()));
    params.push((String::from_str("type"), String::from_str("query")));
    params.push((String::from_str("start_date"), req.start_date.clone()));
    params.push((String::from_str("end_date"), req.end_date.clone()));
    if !req.search_query.as_str().is_empty() {
        params.push((String::from_str("search"), req.search_query.clone()));
    }
    if !str_eq(req.transaction_type.as_str(), "all") {
        params.push((String::from_str("transaction_type"), req.transaction_type.clone()));
    }
    proof {
        assert(params@.map_values(|p: (String, String)| (p.0@, p.1@)) =~= spec_transaction_params(
            gateway_key@,
            req.start_date@,
            req.end_date@,
            req.transaction_type@,
            req.search_query@,
        ));
    }
    params
}

} // verus!
