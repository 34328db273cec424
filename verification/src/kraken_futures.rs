use vstd::prelude::*;
use vstd::string::StringExecFns;
use vstd::utf8::encode_utf8;
use base64::Engine;
use hmac::Mac;
use sha2::Digest;

use crate::kraken_types::{KrakenEnvironment, KrakenFuturesOrderBook, OrderBookResponse, Ticker, TickersResponse};
use crate::text::{decimal_digits, decimal_u64, decimal_i64, signed_decimal, str_eq};

verus! {

/// The base address of the live exchange.
pub open spec fn live_base_url() -> Seq<char> {
    "https://futures.kraken.com"@
}

/// The base address of the demo exchange.
pub open spec fn demo_base_url() -> Seq<char> {
    "https://demo-futures.kraken.com"@
}

/// The base address of an environment.
pub open spec fn environment_url(env: KrakenEnvironment) -> Seq<char> {
    match env {
        KrakenEnvironment::Live => live_base_url(),
        KrakenEnvironment::Demo => demo_base_url(),
    }
}

/// The base address of `env`.
pub fn base_url(env: KrakenEnvironment) -> (s: &'static str)
    ensures
        s@ == environment_url(env),
{
    match env {
        KrakenEnvironment::Live => "https://futures.kraken.com",
        KrakenEnvironment::Demo => "https://demo-futures.kraken.com",
    }
}

/// The path of a private endpoint, as the signature covers it.
pub open spec fn auth_path_text(endpoint: Seq<char>) -> Seq<char> {
    "/api/v3/"@ + endpoint
}

/// The address of a private endpoint.
pub open spec fn private_url_text(base: Seq<char>, endpoint: Seq<char>) -> Seq<char> {
    base + "/derivatives/api/v3/"@ + endpoint
}

/// The path of the private endpoint `endpoint`, as the signature covers it.
pub fn auth_path(endpoint: &str) -> (s: String)
    ensures
        s@ == auth_path_text(endpoint@),
{
    String::from_str("/api/v3/").concat(endpoint)
}

/// The address of the private endpoint `endpoint` under `base`.
pub fn private_url(base: &str, endpoint: &str) -> (s: String)
    ensures
        s@ == private_url_text(base@, endpoint@),
{
    let mut s = String::from_str(base);
    s.append("/derivatives/api/v3/");
    s.append(endpoint);
    s
}

/// The address of the ticker of `symbol` under `base`.
pub fn ticker_url(base: &str, symbol: &str) -> (s: String)
    ensures
        s@ == base@ + "/derivatives/api/v3/ticker/"@ + symbol@,
{
    let mut s = String::from_str(base);
    s.append("/derivatives/api/v3/ticker/");
    s.append(symbol);
    s
}

/// The address of the `resolution` candles of `symbol` under `base`.
pub fn candles_url(base: &str, symbol: &str, resolution: &str) -> (s: String)
    ensures
        s@ == base@ + "/api/charts/v1/trade/"@ + symbol@ + "/"@ + resolution@,
{
    let mut s = String::from_str(base);
    s.append("/api/charts/v1/trade/");
    s.append(symbol);
    s.append("/");
    s.append(resolution);
    s
}

/// The address of the order book under `base`; the symbol goes in the query.
pub fn order_book_url(base: &str) -> (s: String)
    ensures
        s@ == base@ + "/derivatives/api/v3/orderbook"@,
{
    let mut s = String::from_str(base);
    s.append("/derivatives/api/v3/orderbook");
    s
}

/// The query of an order book request.
pub fn order_book_query(symbol: &str) -> (q: Vec<(String, String)>)
    ensures
        q@.len() == 1,
        q@[0].0@ == "symbol"@,
        q@[0].1@ == symbol@,
{
    let mut q: Vec<(String, String)> = Vec::new();
    q.push((String::from_str("symbol"), symbol.to_string()));
    q
}

/// The query of a candle request: `count`, `from` and `to`, each where given,
/// in that order, as decimal text.
pub open spec fn candles_query_view(count: Option<u32>, from: Option<i64>, to: Option<i64>) -> Seq<(Seq<char>, Seq<char>)> {
    (match count {
        Some(c) => seq![("count"@, decimal_digits(c as nat))],
        None => Seq::empty(),
    }) + (match from {
        Some(f) => seq![("from"@, signed_decimal(f as int))],
        None => Seq::empty(),
    }) + (match to {
        Some(t) => seq![("to"@, signed_decimal(t as int))],
        None => Seq::empty(),
    })
}

/// The texts of query pairs.
pub open spec fn pairs_view(q: Seq<(String, String)>) -> Seq<(Seq<char>, Seq<char>)> {
    q.map_values(|p: (String, String)| (p.0@, p.1@))
}

/// The query of a candle request.
pub fn candles_query(count: Option<u32>, from: Option<i64>, to: Option<i64>) -> (q: Vec<(String, String)>)
    ensures
        pairs_view(q@) == candles_query_view(count, from, to),
{
    let mut q: Vec<(String, String)> = Vec::new();
    if let Some(c) = count {
        q.push((String::from_str("count"), decimal_u64(c as u64)));
    }
    let ghost q1 = q@;
    if let Some(f) = from {
        q.push((String::from_str("from"), decimal_i64(f)));
    }
    let ghost q2 = q@;
    if let Some(t) = to {
        q.push((String::from_str("to"), decimal_i64(t)));
    }
    assert(pairs_view(q@) =~= candles_query_view(count, from, to));
    q
}

/// What the standard base64 engine of `base64` decodes `input` to, or the
/// text of its `DecodeError`.
pub uninterp spec fn base64_decoded(input: Seq<u8>) -> Result<Seq<u8>, Seq<char>>;

/// The standard base64 text (with padding) of `bytes`.
pub uninterp spec fn base64_text(bytes: Seq<u8>) -> Seq<char>;

/// The SHA-256 digest of `bytes`.
pub uninterp spec fn sha256_digest(bytes: Seq<u8>) -> Seq<u8>;

/// The HMAC-SHA-512 tag of `message` under `key`.
pub uninterp spec fn hmac_sha512_tag(key: Seq<u8>, message: Seq<u8>) -> Seq<u8>;

/// Calls `base64::engine::general_purpose::STANDARD.decode`. Claimed: the
/// result is `base64_decoded` of the input, the error as its `Display` text.
#[verifier::external_body]
fn base64_decode(input: &[u8]) -> (r: Result<Vec<u8>, String>)
    ensures
        (match r {
            Ok(v) => base64_decoded(input@) == Ok::<Seq<u8>, Seq<char>>(v@),
            Err(e) => base64_decoded(input@) == Err::<Seq<u8>, Seq<char>>(e@),
        }),
{
    base64::engine::general_purpose::STANDARD.decode(input).map_err(|e| e.to_string())
}

/// Calls `base64::engine::general_purpose::STANDARD.encode`. Claimed: the
/// result is `base64_text` of the input. The engine panics only when the
/// encoded length overflows `usize`, which the bound on the input excludes.
#[verifier::external_body]
fn base64_encode(bytes: &[u8]) -> (s: String)
    requires
        bytes@.len() <= usize::MAX / 2,
    ensures
        s@ == base64_text(bytes@),
{
    base64::engine::general_purpose::STANDARD.encode(bytes)
}

/// Calls `sha2::Sha256` (`new`, `chain_update`, `finalize`). Claimed: the
/// result is `sha256_digest` of the input, 32 bytes long.
#[verifier::external_body]
fn sha256(bytes: &[u8]) -> (d: Vec<u8>)
    ensures
        d@ == sha256_digest(bytes@),
        d@.len() == 32,
{
    sha2::Sha256::new().chain_update(bytes).finalize().to_vec()
}

/// Calls `hmac::Hmac<sha2::Sha512>` (`new_from_slice`, `chain_update`,
/// `finalize`). Claimed: the tag is `hmac_sha512_tag` of key and message,
/// 64 bytes long; `new_from_slice` accepts keys of every length.
#[verifier::external_body]
fn hmac_sha512(key: &[u8], message: &[u8]) -> (r: Result<Vec<u8>, String>)
    ensures
        r is Ok,
        (match r {
            Ok(t) => t@ == hmac_sha512_tag(key@, message@) && t@.len() == 64,
            Err(_) => true,
        }),
{
    match <hmac::Hmac<sha2::Sha512> as hmac::digest::KeyInit>::new_from_slice(key) {
        Ok(m) => Ok(m.chain_update(message).finalize().into_bytes().to_vec()),
        Err(e) => Err(e.to_string()),
    }
}

/// The `Authent` value of a private request: the base64 HMAC-SHA-512, keyed by
/// the base64-decoded secret, of the SHA-256 of post data, nonce and path.
pub open spec fn signature_text(secret: Seq<char>, post_data: Seq<char>, nonce: Seq<char>, path: Seq<char>) -> Result<Seq<char>, Seq<char>> {
    match base64_decoded(encode_utf8(secret)) {
        Err(e) => Err("Invalid base64 API secret: "@ + e),
        Ok(key) => Ok(base64_text(hmac_sha512_tag(key, sha256_digest(encode_utf8(post_data + nonce + path))))),
    }
}

/// Signs a private request with the API secret, if there is one.
pub fn sign(api_secret: Option<&str>, post_data: &str, nonce: &str, endpoint_path: &str) -> (r: Result<String, String>)
    ensures
        (match api_secret {
            None => r matches Err(e) && e@ == "No api secret found."@,
            Some(secret) => match signature_text(secret@, post_data@, nonce@, endpoint_path@) {
                Ok(s) => r matches Ok(t) && t@ == s,
                Err(m) => r matches Err(e) && e@ == m,
            },
        }),
{
    let secret = match api_secret {
        Some(s) => s,
        None => return Err(String::from_str("No api secret found.")),
    };
    let key = match base64_decode(secret.as_bytes()) {
        Ok(k) => k,
        Err(e) => return Err(String::from_str("Invalid base64 API secret: ").concat(e.as_str())),
    };
    let mut message = String::from_str(post_data);
    message.append(nonce);
    message.append(endpoint_path);
    let digest = sha256(message.as_str().as_bytes());
    let tag = match hmac_sha512(key.as_slice(), digest.as_slice()) {
        Ok(t) => t,
        Err(e) => return Err(String::from_str("HMAC key error: ").concat(e.as_str())),
    };
    Ok(base64_encode(tag.as_slice()))
}

/// The HTTP method of a request.
#[derive(Debug, Clone, Copy, PartialEq, Eq, Structural)]
pub enum HttpMethod {
    Get,
    Post,
    Put,
}

/// A request ready to send: method, address, headers in order and body.
#[derive(Debug)]
pub struct PreparedRequest {
    pub method: HttpMethod,
    pub url: String,
    pub headers: Vec<(String, String)>,
    pub body: Option<String>,
}

/// The post data of a private request: the encoded payload for POST and PUT,
/// nothing otherwise.
pub open spec fn post_data_text(method: HttpMethod, payload: Option<Result<Seq<char>, Seq<char>>>) -> Result<Seq<char>, Seq<char>> {
    match payload {
        Some(p) => if method == HttpMethod::Post || method == HttpMethod::Put { p } else { Ok(Seq::empty()) },
        None => Ok(Seq::empty()),
    }
}

/// The texts of a payload as a caller hands it over: the url-encoded payload
/// or the encoder's error.
pub open spec fn payload_view(p: Option<Result<String, String>>) -> Option<Result<Seq<char>, Seq<char>>> {
    match p {
        Some(Ok(s)) => Some(Ok::<Seq<char>, Seq<char>>(s@)),
        Some(Err(e)) => Some(Err::<Seq<char>, Seq<char>>(e@)),
        None => None,
    }
}

/// `r` is the signed request to the private endpoint `endpoint` under `base`:
/// the key, the nonce, the signature over post data, nonce and path, and the
/// post data as form body when there is any.
pub open spec fn is_signed_request(r: PreparedRequest, api_key: Seq<char>, base: Seq<char>, method: HttpMethod,
    endpoint: Seq<char>, post_data: Seq<char>, nonce: Seq<char>, signature: Seq<char>) -> bool
{
    &&& r.method == method
    &&& r.url@ == private_url_text(base, endpoint)
    &&& pairs_view(r.headers@) == seq![("APIKey"@, api_key), ("Nonce"@, nonce), ("Authent"@, signature)]
        + (if post_data.len() > 0 {
            seq![("Content-Type"@, "application/x-www-form-urlencoded"@)]
        } else {
            Seq::empty()
        })
    &&& (post_data.len() > 0 ==> (r.body matches Some(b) && b@ == post_data))
    &&& (post_data.len() == 0 ==> r.body is None)
}

/// Prepares a signed request to a private endpoint. `payload` is the
/// url-encoded payload (or the encoder's error), `nonce` the time in
/// milliseconds. A missing key, an unencodable payload for POST or PUT, and a
/// missing or malformed secret each fail, in that order.
pub fn prepare_private_request(
    api_key: Option<&str>,
    api_secret: Option<&str>,
    base: &str,
    method: HttpMethod,
    endpoint: &str,
    payload: Option<Result<String, String>>,
    nonce: u64,
) -> (r: Result<PreparedRequest, String>)
    ensures
        (match api_key {
            None => r matches Err(e) && e@ == "Client must be authenticated \u{2013} use KrakenFuturesRestClient::authenticated()"@,
            Some(key) => match post_data_text(method, payload_view(payload)) {
                Err(m) => r matches Err(e) && e@ == "Failed to urlencode payload for "@ + endpoint@ + ": "@ + m,
                Ok(post) => match api_secret {
                    None => r matches Err(e) && e@ == "No api secret found."@,
                    Some(secret) => match signature_text(secret@, post, decimal_digits(nonce as nat), auth_path_text(endpoint@)) {
                        Err(m) => r matches Err(e) && e@ == m,
                        Ok(sig) => r matches Ok(req) && is_signed_request(req, key@, base@, method, endpoint@, post, decimal_digits(nonce as nat), sig),
                    },
                },
            },
        }),
{
    let key = match api_key {
        Some(k) => k,
        None => return Err(String::from_str("Client must be authenticated \u{2013} use KrakenFuturesRestClient::authenticated()")),
    };
    let ghost pv = payload_view(payload);
    let post_data: String = match payload {
        Some(p) => {
            if method == HttpMethod::Post || method == HttpMethod::Put {
                match p {
                    Ok(s) => s,
                    Err(e) => {
                        let mut m = String::from_str("Failed to urlencode payload for ");
                        m.append(endpoint);
                        m.append(": ");
                        m.append(e.as_str());
                        return Err(m);
                    }
                }
            } else {
                String::new()
            }
        }
        None => String::new(),
    };
    assert(post_data_text(method, pv) == Ok::<Seq<char>, Seq<char>>(post_data@));
    let nonce_str = decimal_u64(nonce);
    let path = auth_path(endpoint);
    let authent = match sign(api_secret, post_data.as_str(), nonce_str.as_str(), path.as_str()) {
        Ok(a) => a,
        Err(e) => return Err(e),
    };
    let url = private_url(base, endpoint);
    let mut headers: Vec<(String, String)> = Vec::new();
    headers.push((String::from_str("APIKey"), key.to_string()));
    headers.push((String::from_str("Nonce"), nonce_str));
    headers.push((String::from_str("Authent"), authent));
    let ghost h3 = headers@;
    let has_body = post_data.unicode_len() > 0;
    let body = if has_body {
        headers.push((String::from_str("Content-Type"), String::from_str("application/x-www-form-urlencoded")));
        Some(post_data)
    } else {
        None
    };
    let req = PreparedRequest { method, url, headers, body };
    assert(pairs_view(req.headers@) =~= seq![("APIKey"@, key@), ("Nonce"@, decimal_digits(nonce as nat)), ("Authent"@, authent@)]
        + (if post_data@.len() > 0 {
            seq![("Content-Type"@, "application/x-www-form-urlencoded"@)]
        } else {
            Seq::empty()
        }));
    Ok(req)
}

/// The text that `{:?}` gives of an optional text: `None`, or `Some(` and the
/// text quoted with Rust's escapes and `)`.
pub uninterp spec fn option_debug_text(o: Option<Seq<char>>) -> Seq<char>;

/// Formats an optional text with `{:?}` (std's `Debug` for `Option<String>`).
/// Claimed: the result is `option_debug_text` of the texts.
#[verifier::external_body]
fn debug_option(o: &Option<String>) -> (s: String)
    ensures
        s@ == option_debug_text(match *o {
            Some(t) => Some(t@),
            None => None,
        }),
{
    format!("{:?}", o)
}

/// The optional text's view.
pub open spec fn opt_text(o: Option<String>) -> Option<Seq<char>> {
    match o {
        Some(t) => Some(t@),
        None => None,
    }
}

/// The ticker of an answer that reports success; otherwise an error naming
/// the symbol and the exchange's error.
pub fn ticker_from_response<N>(resp: TickersResponse<N>, symbol: &str) -> (r: Result<Ticker<N>, String>)
    ensures
        (if resp.result@ == "success"@ {
            r == Ok::<Ticker<N>, String>(resp.ticker)
        } else {
            r matches Err(e) && e@ == "Kraken ticker error for "@ + symbol@ + ": "@ + option_debug_text(opt_text(resp.error))
        }),
{
    if str_eq(resp.result.as_str(), "success") {
        Ok(resp.ticker)
    } else {
        let mut m = String::from_str("Kraken ticker error for ");
        m.append(symbol);
        m.append(": ");
        m.append(debug_option(&resp.error).as_str());
        Err(m)
    }
}

/// The order book of an answer that reports success; otherwise an error
/// naming the symbol and the exchange's error.
pub fn order_book_from_response<N>(resp: OrderBookResponse<N>, symbol: &str) -> (r: Result<KrakenFuturesOrderBook<N>, String>)
    ensures
        (if resp.result@ == "success"@ {
            r == Ok::<KrakenFuturesOrderBook<N>, String>(resp.order_book)
        } else {
            r matches Err(e) && e@ == "Kraken orderbook error for "@ + symbol@ + ": "@ + option_debug_text(opt_text(resp.error))
        }),
{
    if str_eq(resp.result.as_str(), "success") {
        Ok(resp.order_book)
    } else {
        let mut m = String::from_str("Kraken orderbook error for ");
        m.append(symbol);
        m.append(": ");
        m.append(debug_option(&resp.error).as_str());
        Err(m)
    }
}

/// The path that a signature covers is the private address of the endpoint
/// with the base address and the "/derivatives" prefix taken off.
pub proof fn lemma_signed_path_within_url(base: Seq<char>, endpoint: Seq<char>)
    ensures
        private_url_text(base, endpoint) == base + "/derivatives"@ + auth_path_text(endpoint),
{
    reveal_strlit("/derivatives/api/v3/");
    reveal_strlit("/derivatives");
    reveal_strlit("/api/v3/");
    assert("/derivatives/api/v3/"@ =~= "/derivatives"@ + "/api/v3/"@);
    assert(private_url_text(base, endpoint) =~= base + "/derivatives"@ + auth_path_text(endpoint));
}

} // verus!
