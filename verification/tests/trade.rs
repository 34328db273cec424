use trading_agent::kraken_types::{OpenPosition, SendOrder};
use trading_agent::trade::{
    plan_position, select_position, CloseTrade, CloseTradeStep, EntryConfig, OpenTrade, OpenTradeStep, OrderSide,
    PositionPlan, StopConfig, TakeProfitConfig, Trade, TradeConfig, TradeError, TradeManager, TradeRequest,
    TriggerSignal,
};
use trading_agent::workflow::Action;

fn demo_config() -> TradeConfig<f64> {
    TradeConfig {
        symbol: "PF_XBTUSD".to_string(),
        side: OrderSide::Buy,
        size: 0.001,
        entry: EntryConfig::Market,
        stop_loss: Some(StopConfig { trigger_price: 76000.0, trigger_signal: TriggerSignal::Mark, limit_price: Some(75000.0) }),
        take_profit: Some(TakeProfitConfig { trigger_price: 80000.0, trigger_signal: TriggerSignal::Mark, limit_price: Some(81000.0) }),
        leverage: Some(1),
    }
}

fn position(side: &str, size: f64) -> OpenPosition<f64> {
    OpenPosition {
        symbol: "PF_XBTUSD".to_string(),
        side: side.to_string(),
        size,
        price: 78000.0,
        fill_time: None,
        unrealized_funding: None,
        pnl_currency: None,
        max_fixed_leverage: None,
    }
}

fn sent(req: TradeRequest<f64>) -> SendOrder<f64> {
    match req {
        TradeRequest::Send(o) => o,
        other => panic!("expected an order, got {:?}", other),
    }
}

#[test]
fn entry_order_of_market_buy() {
    let tm = TradeManager::new(());
    let o = tm.get_entry_order(&demo_config());
    assert_eq!(o.order_type, "mkt");
    assert_eq!(o.symbol, "PF_XBTUSD");
    assert_eq!(o.side, "buy");
    assert_eq!(o.size, 0.001);
    assert_eq!(o.limit_price, None);
    assert_eq!(o.stop_price, None);
    assert_eq!(o.trigger_signal, None);
    assert_eq!(o.reduce_only, Some(false));
    assert_eq!(o.cli_ord_id, None);
}

#[test]
fn entry_order_of_limit_sell() {
    let tm = TradeManager::new(());
    let mut c = demo_config();
    c.side = OrderSide::Sell;
    c.entry = EntryConfig::Limit { limit_price: 77000.5 };
    let o = tm.get_entry_order(&c);
    assert_eq!(o.order_type, "lmt");
    assert_eq!(o.side, "sell");
    assert_eq!(o.limit_price, Some(77000.5));
}

#[test]
fn stop_and_take_profit_orders_sit_on_the_other_side() {
    let tm = TradeManager::new(());
    let c = demo_config();
    let sl = tm.get_stop_order(&c).unwrap();
    assert_eq!(sl.order_type, "stp");
    assert_eq!(sl.side, "sell");
    assert_eq!(sl.stop_price, Some(76000.0));
    assert_eq!(sl.limit_price, Some(75000.0));
    assert_eq!(sl.trigger_signal.as_deref(), Some("mark"));
    assert_eq!(sl.reduce_only, Some(false));
    let tp = tm.get_take_profit_order(&c).unwrap();
    assert_eq!(tp.order_type, "take_profit");
    assert_eq!(tp.side, "sell");
    assert_eq!(tp.stop_price, Some(80000.0));
    assert_eq!(tp.limit_price, Some(81000.0));
    assert_eq!(tp.reduce_only, Some(true));
}

#[test]
fn no_protective_orders_without_config() {
    let tm = TradeManager::new(());
    let mut c = demo_config();
    c.stop_loss = None;
    c.take_profit = None;
    assert!(tm.get_stop_order(&c).is_none());
    assert!(tm.get_take_profit_order(&c).is_none());
}

#[test]
fn trigger_signal_and_side_words() {
    assert_eq!(TriggerSignal::Mark.as_str(), "mark");
    assert_eq!(TriggerSignal::Index.as_str(), "index");
    assert_eq!(TriggerSignal::Last.as_str(), "last");
    let c = demo_config();
    assert_eq!(c.side_str(), "buy");
    assert_eq!(c.toggled_side_str(), "sell");
}

#[test]
fn open_trade_places_stop_loss_take_profit_then_entry() {
    let (state, req) = OpenTrade::start(demo_config());
    match req {
        TradeRequest::SetLeverage { symbol, leverage } => {
            assert_eq!(symbol, "PF_XBTUSD");
            assert_eq!(leverage, Some(1));
        }
        other => panic!("unexpected {:?}", other),
    }
    let (state, req) = match state.on_leverage_set(Ok(())) {
        OpenTradeStep::Next(s, r) => (s, r),
        OpenTradeStep::Finished(_) => panic!("finished early"),
    };
    assert_eq!(sent(req).order_type, "stp");
    let (state, req) = match state.on_order_answer(Ok("placed".to_string())) {
        OpenTradeStep::Next(s, r) => (s, r),
        OpenTradeStep::Finished(_) => panic!("finished early"),
    };
    assert_eq!(sent(req).order_type, "take_profit");
    let (state, req) = match state.on_order_answer(Ok("placed".to_string())) {
        OpenTradeStep::Next(s, r) => (s, r),
        OpenTradeStep::Finished(_) => panic!("finished early"),
    };
    assert_eq!(sent(req).order_type, "mkt");
    match state.on_order_answer(Ok("placed".to_string())) {
        OpenTradeStep::Finished(Ok(Trade { config, entry, stop_loss, take_profit })) => {
            assert_eq!(config.symbol, "PF_XBTUSD");
            assert_eq!(entry.order_type, "mkt");
            assert_eq!(stop_loss.unwrap().order_type, "stp");
            assert_eq!(take_profit.unwrap().order_type, "take_profit");
        }
        _ => panic!("expected a trade"),
    }
}

#[test]
fn rejected_stop_loss_cancels_everything_and_fails() {
    let (state, _) = OpenTrade::start(demo_config());
    let state = match state.on_leverage_set(Ok(())) {
        OpenTradeStep::Next(s, _) => s,
        _ => panic!(),
    };
    let state = match state.on_order_answer(Ok("insufficientAvailableFunds".to_string())) {
        OpenTradeStep::Next(s, TradeRequest::CancelAll { symbol }) => {
            assert_eq!(symbol, "PF_XBTUSD");
            s
        }
        _ => panic!("expected a cancellation"),
    };
    match state.on_cleanup_done(Err("network down".to_string())) {
        OpenTradeStep::Finished(Err(e)) => {
            assert_eq!(e.message(), "Failed to place SL: insufficientAvailableFunds");
        }
        _ => panic!("expected a failure"),
    }
}

#[test]
fn rejected_entry_reports_entry() {
    let mut c = demo_config();
    c.stop_loss = None;
    c.take_profit = None;
    let (state, _) = OpenTrade::start(c);
    let state = match state.on_leverage_set(Ok(())) {
        OpenTradeStep::Next(s, req) => {
            assert_eq!(sent(req).order_type, "mkt");
            s
        }
        _ => panic!(),
    };
    let state = match state.on_order_answer(Ok("rejected".to_string())) {
        OpenTradeStep::Next(s, TradeRequest::CancelAll { .. }) => s,
        _ => panic!(),
    };
    match state.on_cleanup_done(Ok(())) {
        OpenTradeStep::Finished(Err(e)) => assert_eq!(e.message(), "Failed to place entry: rejected"),
        _ => panic!(),
    }
}

#[test]
fn take_profit_rejection_message() {
    let e = TradeError::TakeProfitRejected("x".to_string());
    assert_eq!(e.message(), "Failed to place TP: x");
}

#[test]
fn leverage_error_fails_without_orders() {
    let (state, _) = OpenTrade::start(demo_config());
    match state.on_leverage_set(Err("HTTP 500: boom".to_string())) {
        OpenTradeStep::Finished(Err(TradeError::Exchange(m))) => assert_eq!(m, "HTTP 500: boom"),
        _ => panic!(),
    }
}

#[test]
fn exchange_error_on_order_fails_at_once() {
    let (state, _) = OpenTrade::start(demo_config());
    let state = match state.on_leverage_set(Ok(())) {
        OpenTradeStep::Next(s, _) => s,
        _ => panic!(),
    };
    match state.on_order_answer(Err("timeout".to_string())) {
        OpenTradeStep::Finished(Err(e)) => assert_eq!(e.message(), "timeout"),
        _ => panic!(),
    }
}

#[test]
fn close_long_sells_reduce_only_then_cancels() {
    let pos = position("long", 0.002);
    let (state, req) = CloseTrade::start(&pos, 0.002f64).unwrap();
    let o = sent(req);
    assert_eq!(o.order_type, "mkt");
    assert_eq!(o.side, "sell");
    assert_eq!(o.size, 0.002);
    assert_eq!(o.reduce_only, Some(true));
    let state = match state.on_order_answer::<f64>(Ok("placed".to_string())) {
        CloseTradeStep::Next(s, TradeRequest::CancelAll { symbol }) => {
            assert_eq!(symbol, "PF_XBTUSD");
            s
        }
        _ => panic!(),
    };
    assert!(matches!(state.on_cleanup_done::<f64>(Err("x".to_string())), CloseTradeStep::Finished(Ok(()))));
}

#[test]
fn close_short_buys() {
    let pos = position("short", -0.002);
    let (_, req) = CloseTrade::start(&pos, 0.002f64).unwrap();
    assert_eq!(sent(req).side, "buy");
}

#[test]
fn close_unknown_side_fails() {
    let pos = position("flat", 0.0);
    match CloseTrade::start(&pos, 0.0f64) {
        Err(e) => assert_eq!(e.message(), "Unknown position side: flat"),
        Ok(_) => panic!(),
    }
}

#[test]
fn close_rejected_reports_status() {
    let pos = position("long", 1.0);
    let (state, _) = CloseTrade::start(&pos, 1.0f64).unwrap();
    match state.on_order_answer::<f64>(Ok("rejected".to_string())) {
        CloseTradeStep::Finished(Err(e)) => assert_eq!(e.message(), "Failed to place close order: rejected"),
        _ => panic!(),
    }
}

#[test]
fn position_plans() {
    let long = position("long", 1.0);
    let short = position("short", -1.0);
    assert_eq!(plan_position(Action::Buy, Some(&long)), PositionPlan::KeepPosition);
    assert_eq!(plan_position(Action::Buy, Some(&short)), PositionPlan::CloseThenOpen);
    assert_eq!(plan_position::<f64>(Action::Buy, None), PositionPlan::Open);
    assert_eq!(plan_position(Action::Sell, Some(&short)), PositionPlan::KeepPosition);
    assert_eq!(plan_position(Action::Sell, Some(&long)), PositionPlan::CloseThenOpen);
    assert_eq!(plan_position(Action::Hold, Some(&long)), PositionPlan::Hold);
    assert_eq!(plan_position::<f64>(Action::Hold, None), PositionPlan::Hold);
}

#[test]
fn select_first_position_of_symbol() {
    let mut a = position("long", 1.0);
    a.symbol = "PF_ETHUSD".to_string();
    let b = position("short", -2.0);
    let mut c = position("long", 3.0);
    c.size = 3.0;
    let found = select_position(vec![a, b, c], "PF_XBTUSD").unwrap();
    assert_eq!(found.side, "short");
    assert_eq!(found.size, -2.0);
    assert!(select_position(vec![position("long", 1.0)], "PF_SOLUSD").is_none());
}
