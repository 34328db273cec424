use vstd::prelude::*;
use serde_json::Value;

verus! {

/// Which Kraken Futures environment a client talks to.
#[derive(Debug, Clone, Copy, PartialEq, Eq, Structural)]
pub enum KrakenEnvironment {
    Live,
    Demo,
}

impl Default for KrakenEnvironment {
    fn default() -> (e: Self)
        ensures
            e == KrakenEnvironment::Live,
    {
        KrakenEnvironment::Live
    }
}

/// An order as the `sendorder` endpoint takes it; `N` is the numeric type of
/// sizes and prices.
#[derive(Debug)]
pub struct SendOrder<N> {
    pub symbol: String,
    pub side: String,
    pub size: N,
    pub order_type: String,
    pub limit_price: Option<N>,
    pub stop_price: Option<N>,
    pub trigger_signal: Option<String>,
    pub reduce_only: Option<bool>,
    pub cli_ord_id: Option<String>,
}

/// A change to an open order.
#[derive(Debug)]
pub struct EditOrder<N> {
    pub order_id: Option<String>,
    pub cli_ord_id: Option<String>,
    pub limit_price: Option<N>,
    pub stop_price: Option<N>,
    pub size: Option<N>,
}

/// The `cancelorder` payload.
#[derive(Debug)]
pub struct CancelOrder {
    pub order_id: Option<String>,
    pub cli_ord_id: Option<String>,
}

impl CancelOrder {
    /// The payload that cancels the order with the exchange's id `order_id`.
    pub fn by_order_id(order_id: &str) -> (c: Self)
        ensures
            c.order_id matches Some(id) && id@ == order_id@,
            c.cli_ord_id is None,
    {
        CancelOrder { order_id: Some(order_id.to_string()), cli_ord_id: None }
    }
}

/// The answer to `sendorder`.
#[derive(Debug)]
pub struct SendOrderResponse {
    pub result: String,
    pub send_status: SendStatus,
    pub server_time: String,
}

/// Whether and how an order was accepted.
#[derive(Debug)]
pub struct SendStatus {
    pub status: String,
    pub order_id: Option<String>,
    pub order_events: Option<Vec<Value>>,
    pub received_time: String,
    pub cli_ord_id: Option<String>,
}

/// The `cancelallorders` payload: all orders, or those of one symbol.
#[derive(Debug)]
pub struct CancelAllOrders {
    pub symbol: Option<String>,
}

impl CancelAllOrders {
    /// The payload that cancels the orders of `symbol`, or all orders.
    pub fn for_symbol(symbol: Option<&str>) -> (c: Self)
        ensures
            symbol is None ==> c.symbol is None,
            symbol matches Some(s) ==> c.symbol matches Some(t) && t@ == s@,
    {
        match symbol {
            Some(s) => CancelAllOrders { symbol: Some(s.to_string()) },
            None => CancelAllOrders { symbol: None },
        }
    }
}

/// The `leveragepreferences` payload; no maximum leverage means cross margin.
#[derive(Debug)]
pub struct LeveragePreference {
    pub symbol: String,
    pub max_leverage: Option<u8>,
}

impl LeveragePreference {
    /// The payload that sets the maximum leverage of `symbol`.
    pub fn new(symbol: &str, max_leverage: Option<u8>) -> (p: Self)
        ensures
            p.symbol@ == symbol@,
            p.max_leverage == max_leverage,
    {
        LeveragePreference { symbol: symbol.to_string(), max_leverage }
    }
}

/// The answer to `leveragepreferences`.
#[derive(Debug)]
pub struct LeverageResponse {
    pub result: String,
    pub server_time: String,
    pub errors: Vec<String>,
    pub error: Option<String>,
}

/// The answer to the ticker endpoint.
#[derive(Debug)]
pub struct TickersResponse<N> {
    pub result: String,
    pub server_time: String,
    pub ticker: Ticker<N>,
    pub errors: Vec<String>,
    pub error: Option<String>,
}

/// The latest prices of one instrument.
#[derive(Debug)]
pub struct Ticker<N> {
    pub symbol: String,
    pub last: N,
    pub mark_price: N,
    pub index_price: N,
}

/// The answer to `openpositions`.
#[derive(Debug)]
pub struct OpenPositionsResponse<N> {
    pub result: String,
    pub open_positions: Vec<OpenPosition<N>>,
    pub server_time: String,
    pub errors: Vec<String>,
    pub error: Option<String>,
}

/// One open position: side is "long" or "short".
#[derive(Debug)]
pub struct OpenPosition<N> {
    pub symbol: String,
    pub side: String,
    pub size: N,
    pub price: N,
    pub fill_time: Option<String>,
    pub unrealized_funding: Option<N>,
    pub pnl_currency: Option<String>,
    pub max_fixed_leverage: Option<N>,
}

/// The answer to the candle chart endpoint.
#[derive(Debug)]
pub struct KrakenMarketCandlesResponse {
    pub candles: Vec<KrakenFutureCandle>,
}

/// One candle as the exchange sends it: prices and volume as decimal text.
#[derive(Debug, Clone)]
pub struct KrakenFutureCandle {
    pub time: i64,
    pub open: String,
    pub high: String,
    pub low: String,
    pub close: String,
    pub volume: String,
}

/// The answer to the order book endpoint.
#[derive(Debug)]
pub struct OrderBookResponse<N> {
    pub result: String,
    pub server_time: String,
    pub order_book: KrakenFuturesOrderBook<N>,
    pub errors: Vec<String>,
    pub error: Option<String>,
}

/// Bids and asks as (price, volume), best first.
#[derive(Debug)]
pub struct KrakenFuturesOrderBook<N> {
    pub bids: Vec<(N, N)>,
    pub asks: Vec<(N, N)>,
}

} // verus!
