use base64::Engine;
use hmac::Mac;
use sha2::Digest;
use trading_agent::kraken_futures::{
    auth_path, base_url, candles_query, candles_url, order_book_from_response, order_book_query, order_book_url,
    prepare_private_request, private_url, sign, ticker_from_response, ticker_url, HttpMethod,
};
use trading_agent::kraken_types::{
    CancelAllOrders, CancelOrder, KrakenEnvironment, KrakenFuturesOrderBook, LeveragePreference, OrderBookResponse,
    Ticker, TickersResponse,
};

const SECRET: &str = "c2VjcmV0LWtleS1mb3ItdGVzdHM=";

fn expected_signature(post: &str, nonce: &str, path: &str) -> String {
    let key = base64::engine::general_purpose::STANDARD.decode(SECRET).unwrap();
    let digest = sha2::Sha256::new().chain_update(format!("{}{}{}", post, nonce, path).as_bytes()).finalize();
    let tag = <hmac::Hmac<sha2::Sha512> as hmac::digest::KeyInit>::new_from_slice(&key)
        .unwrap()
        .chain_update(digest)
        .finalize()
        .into_bytes();
    base64::engine::general_purpose::STANDARD.encode(tag)
}

#[test]
fn environments_have_their_addresses() {
    assert_eq!(base_url(KrakenEnvironment::Live), "https://futures.kraken.com");
    assert_eq!(base_url(KrakenEnvironment::Demo), "https://demo-futures.kraken.com");
    assert_eq!(KrakenEnvironment::default(), KrakenEnvironment::Live);
}

#[test]
fn endpoint_addresses() {
    let base = "https://demo-futures.kraken.com";
    assert_eq!(private_url(base, "sendorder"), "https://demo-futures.kraken.com/derivatives/api/v3/sendorder");
    assert_eq!(auth_path("sendorder"), "/api/v3/sendorder");
    assert_eq!(ticker_url(base, "PF_XBTUSD"), "https://demo-futures.kraken.com/derivatives/api/v3/ticker/PF_XBTUSD");
    assert_eq!(candles_url(base, "PF_XBTUSD", "15m"), "https://demo-futures.kraken.com/api/charts/v1/trade/PF_XBTUSD/15m");
    assert_eq!(order_book_url(base), "https://demo-futures.kraken.com/derivatives/api/v3/orderbook");
    assert_eq!(order_book_query("PF_XBTUSD"), vec![("symbol".to_string(), "PF_XBTUSD".to_string())]);
}

#[test]
fn candle_query_holds_given_parameters_in_order() {
    assert_eq!(
        candles_query(Some(100), None, None),
        vec![("count".to_string(), "100".to_string())]
    );
    assert_eq!(
        candles_query(Some(200), Some(-5), Some(1731801600)),
        vec![
            ("count".to_string(), "200".to_string()),
            ("from".to_string(), "-5".to_string()),
            ("to".to_string(), "1731801600".to_string()),
        ]
    );
    assert!(candles_query(None, None, None).is_empty());
}

#[test]
fn signature_matches_the_scheme() {
    let s = sign(Some(SECRET), "symbol=PF_XBTUSD&side=buy", "1731801600000", "/api/v3/sendorder").unwrap();
    assert_eq!(s, expected_signature("symbol=PF_XBTUSD&side=buy", "1731801600000", "/api/v3/sendorder"));
    let other = sign(Some(SECRET), "symbol=PF_XBTUSD&side=sell", "1731801600000", "/api/v3/sendorder").unwrap();
    assert_ne!(s, other);
}

#[test]
fn signing_needs_a_valid_secret() {
    assert_eq!(sign(None, "", "1", "/api/v3/x").unwrap_err(), "No api secret found.");
    let e = sign(Some("not base64!"), "", "1", "/api/v3/x").unwrap_err();
    assert!(e.starts_with("Invalid base64 API secret: "));
}

#[test]
fn private_post_request_is_signed_with_form_body() {
    let req = prepare_private_request(
        Some("key-1"),
        Some(SECRET),
        "https://demo-futures.kraken.com",
        HttpMethod::Post,
        "sendorder",
        Some(Ok("symbol=PF_XBTUSD".to_string())),
        1731801600000,
    )
    .unwrap();
    assert_eq!(req.method, HttpMethod::Post);
    assert_eq!(req.url, "https://demo-futures.kraken.com/derivatives/api/v3/sendorder");
    let sig = expected_signature("symbol=PF_XBTUSD", "1731801600000", "/api/v3/sendorder");
    assert_eq!(
        req.headers,
        vec![
            ("APIKey".to_string(), "key-1".to_string()),
            ("Nonce".to_string(), "1731801600000".to_string()),
            ("Authent".to_string(), sig),
            ("Content-Type".to_string(), "application/x-www-form-urlencoded".to_string()),
        ]
    );
    assert_eq!(req.body.as_deref(), Some("symbol=PF_XBTUSD"));
}

#[test]
fn private_get_request_has_no_body() {
    let req = prepare_private_request(
        Some("key-1"),
        Some(SECRET),
        "https://futures.kraken.com",
        HttpMethod::Get,
        "openpositions",
        None,
        42,
    )
    .unwrap();
    assert_eq!(req.headers.len(), 3);
    assert_eq!(req.headers[1].1, "42");
    assert_eq!(req.headers[2].1, expected_signature("", "42", "/api/v3/openpositions"));
    assert!(req.body.is_none());
}

#[test]
fn private_request_errors_in_order() {
    let e = prepare_private_request(None, None, "b", HttpMethod::Get, "openpositions", None, 1).unwrap_err();
    assert_eq!(e, "Client must be authenticated \u{2013} use KrakenFuturesRestClient::authenticated()");
    let e = prepare_private_request(Some("k"), None, "b", HttpMethod::Put, "leveragepreferences", Some(Err("bad".to_string())), 1)
        .unwrap_err();
    assert_eq!(e, "Failed to urlencode payload for leveragepreferences: bad");
    let e = prepare_private_request(Some("k"), None, "b", HttpMethod::Put, "leveragepreferences", Some(Ok("a=1".to_string())), 1)
        .unwrap_err();
    assert_eq!(e, "No api secret found.");
}

#[test]
fn ticker_answer_is_checked() {
    let ok = TickersResponse {
        result: "success".to_string(),
        server_time: "t".to_string(),
        ticker: Ticker { symbol: "PF_XBTUSD".to_string(), last: 1.5f64, mark_price: 1.0, index_price: 1.0 },
        errors: vec![],
        error: None,
    };
    assert_eq!(ticker_from_response(ok, "PF_XBTUSD").unwrap().last, 1.5);
    let bad = TickersResponse {
        result: "error".to_string(),
        server_time: "t".to_string(),
        ticker: Ticker { symbol: "X".to_string(), last: 0.0f64, mark_price: 0.0, index_price: 0.0 },
        errors: vec![],
        error: Some("apiLimitExceeded".to_string()),
    };
    assert_eq!(
        ticker_from_response(bad, "PF_XBTUSD").unwrap_err(),
        "Kraken ticker error for PF_XBTUSD: Some(\"apiLimitExceeded\")"
    );
}

#[test]
fn order_book_answer_is_checked() {
    let bad: OrderBookResponse<f64> = OrderBookResponse {
        result: "error".to_string(),
        server_time: "t".to_string(),
        order_book: KrakenFuturesOrderBook { bids: vec![], asks: vec![] },
        errors: vec![],
        error: None,
    };
    assert_eq!(order_book_from_response(bad, "PF_XBTUSD").unwrap_err(), "Kraken orderbook error for PF_XBTUSD: None");
    let ok = OrderBookResponse {
        result: "success".to_string(),
        server_time: "t".to_string(),
        order_book: KrakenFuturesOrderBook { bids: vec![(99.0f64, 1.0)], asks: vec![(101.0, 2.0)] },
        errors: vec![],
        error: None,
    };
    let book = order_book_from_response(ok, "PF_XBTUSD").unwrap();
    assert_eq!(book.asks, vec![(101.0, 2.0)]);
}

#[test]
fn payload_constructors() {
    let c = CancelOrder::by_order_id("abc");
    assert_eq!(c.order_id.as_deref(), Some("abc"));
    assert!(c.cli_ord_id.is_none());
    assert_eq!(CancelAllOrders::for_symbol(Some("PF_XBTUSD")).symbol.as_deref(), Some("PF_XBTUSD"));
    assert!(CancelAllOrders::for_symbol(None).symbol.is_none());
    let l = LeveragePreference::new("PF_XBTUSD", Some(3));
    assert_eq!(l.symbol, "PF_XBTUSD");
    assert_eq!(l.max_leverage, Some(3));
}
