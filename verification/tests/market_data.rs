use trading_agent::kraken_types::KrakenFuturesOrderBook;
use trading_agent::polymarket::{
    polymarket_tool_name, question_excerpt, relevant_events, sentiment_line, sentiment_text, title_is_relevant,
    PolymarketEvent, PolymarketMarket, PolymarketTag,
};
use trading_agent::ta::{Candle, DataFrame, OrderBook};
use trading_agent::config::Config;

fn candle(t: i64, c: f64) -> Candle<f64> {
    Candle { time: t, open: c - 1.0, high: c + 2.0, low: c - 2.0, close: c, volume: 10.0 * c }
}

fn market(q: &str, active: Option<bool>, closed: Option<bool>, prices: Option<&str>) -> PolymarketMarket<f64> {
    PolymarketMarket {
        question: Some(q.to_string()),
        outcome_prices: prices.map(|p| p.to_string()),
        volume_24hr: Some(1000.0),
        active,
        closed,
    }
}

fn event(title: Option<&str>, markets: Vec<PolymarketMarket<f64>>) -> PolymarketEvent<f64> {
    PolymarketEvent {
        title: title.map(|t| t.to_string()),
        volume_24hr: Some(5.0),
        tags: vec![PolymarketTag { label: Some("Crypto".to_string()) }],
        markets,
    }
}

#[test]
fn data_frame_from_candles() {
    let df = DataFrame::from_candles(vec![candle(1, 100.0), candle(2, 101.0), candle(3, 102.0)]);
    assert_eq!(df.len(), 3);
    assert!(!df.is_empty());
    assert_eq!(df.timestamp_col(), &[1, 2, 3]);
    assert_eq!(df.close_col(), &[100.0, 101.0, 102.0]);
    assert_eq!(df.open_col(), &[99.0, 100.0, 101.0]);
    assert_eq!(df.high_col(), &[102.0, 103.0, 104.0]);
    assert_eq!(df.low_col(), &[98.0, 99.0, 100.0]);
    assert_eq!(df.volume, vec![1000.0, 1010.0, 1020.0]);
}

#[test]
fn last_rows() {
    let df = DataFrame::from_candles(vec![candle(1, 100.0), candle(2, 101.0), candle(3, 102.0)]);
    let tail = df.last_n(2);
    assert_eq!(tail.timestamp_col(), &[2, 3]);
    assert_eq!(tail.close_col(), &[101.0, 102.0]);
    let all = df.last_n(10);
    assert_eq!(all.len(), 3);
    let none = df.last_n(0);
    assert!(none.is_empty());
    assert_eq!(df.last_n(2).last_n(1).timestamp_col(), df.last_n(1).timestamp_col());
    let empty: DataFrame<f64> = DataFrame::from_candles(vec![]);
    assert!(empty.is_empty());
}

#[test]
fn order_book_from_exchange() {
    let b = OrderBook::from_kraken(KrakenFuturesOrderBook { bids: vec![(99.0f64, 1.0)], asks: vec![(101.0, 2.0)] });
    assert_eq!(b.bids, vec![(99.0, 1.0)]);
    assert_eq!(b.asks, vec![(101.0, 2.0)]);
    let d: OrderBook<f64> = OrderBook::default();
    assert!(d.bids.is_empty() && d.asks.is_empty());
}

#[test]
fn relevance_by_title() {
    assert!(title_is_relevant(&Some("Will Bitcoin hit $150k by June 30, 2026?".to_string())));
    assert!(title_is_relevant(&Some("Fed decision in December".to_string())));
    assert!(title_is_relevant(&Some("MegaETH market cap".to_string())));
    assert!(!title_is_relevant(&Some("Super Bowl winner".to_string())));
    assert!(!title_is_relevant(&None));
}

#[test]
fn events_keep_only_relevant_and_open_markets() {
    let events = vec![
        event(Some("Bitcoin above 100k?"), vec![
            market("open one", Some(true), Some(false), None),
            market("closed one", Some(true), Some(true), None),
            market("unknown", None, Some(false), None),
        ]),
        event(Some("Super Bowl"), vec![market("sports", Some(true), Some(false), None)]),
        event(Some("Crypto ETF approvals"), vec![market("inactive", Some(false), Some(false), None)]),
        event(Some("ETH flips BTC"), vec![market("q", Some(true), Some(false), None)]),
    ];
    let kept = relevant_events(events);
    assert_eq!(kept.len(), 2);
    assert_eq!(kept[0].title.as_deref(), Some("Bitcoin above 100k?"));
    assert_eq!(kept[0].markets.len(), 1);
    assert_eq!(kept[0].markets[0].question.as_deref(), Some("open one"));
    assert_eq!(kept[1].title.as_deref(), Some("ETH flips BTC"));
    assert_eq!(kept[1].tags.len(), 1);
}

#[test]
fn outcome_price_texts() {
    let t = market("q", None, None, Some("[\"0.65\", \"0.35\"]")).outcome_price_texts();
    assert_eq!(t, (Some("0.65".to_string()), Some("0.35".to_string())));
    assert_eq!(market("q", None, None, None).outcome_price_texts(), (None, None));
    assert_eq!(market("q", None, None, Some("")).outcome_price_texts(), (None, None));
    assert_eq!(market("q", None, None, Some("[]")).outcome_price_texts(), (None, None));
    assert_eq!(
        market("q", None, None, Some("garbage")).outcome_price_texts(),
        (Some("0.5".to_string()), Some("0.5".to_string()))
    );
    assert_eq!(market("q", None, None, Some("[\"0.9\"]")).outcome_price_texts(), (Some("0.9".to_string()), None));
}

#[test]
fn sentiment_report() {
    assert_eq!(sentiment_text(&vec![]), "No relevant Polymarket activity right now");
    let l1 = sentiment_line("Will Bitcoin hit $150k by June 30, 2026?", "1", "5820000.0");
    assert_eq!(l1, "\"Will Bitcoin hit $150k by June 30, 2026?\" (1%) vol=$5820000.0");
    let l2 = sentiment_line("MegaETH market cap (FDV) >$2B one day after launch?", "26", "212000.0");
    assert_eq!(sentiment_text(&vec![l1.clone(), l2.clone()]), format!("{} | {}", l1, l2));
    let long: String = std::iter::repeat('x').take(150).collect();
    assert_eq!(question_excerpt(&long).chars().count(), 100);
    assert_eq!(question_excerpt("short"), "short");
    assert_eq!(polymarket_tool_name(), "get_polymarket_sentiment");
}

#[test]
fn config_reports_the_first_missing_setting() {
    let s = |v: &str| Some(v.to_string());
    let c = Config::from_values(s("k"), s("sec"), s("llm"), s("https://openrouter.ai/api/v1"), s("x-ai/grok-4.1-fast")).ok().unwrap();
    assert_eq!(c.kraken_futures_api_key, "k");
    assert_eq!(c.llm_model_name, "x-ai/grok-4.1-fast");
    let e = Config::from_values(s("k"), None, None, s("u"), s("m")).err().unwrap();
    assert_eq!(e, "KRAKEN_FUTURES_API_SECRET is missing from .env / environment");
    let e = Config::from_values(s("k"), s("s"), s("l"), s("u"), None).err().unwrap();
    assert_eq!(e, "LLM_MODEL_NAME is missing from .env / environment");
    let e = Config::from_values(None, s("s"), s("l"), s("u"), s("m")).err().unwrap();
    assert_eq!(e, "KRAKEN_FUTURES_API_KEY is missing from .env / environment");
}
