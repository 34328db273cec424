use trading_agent::market_regimes::{Liquidity, MarketRegimes, Squeeze, TrendStrength, Volatility};
use trading_agent::trade::{EntryConfig, OrderSide, TriggerSignal};
use trading_agent::workflow::{
    plan_trade, regime_prompt, should_execute, Action, ConfidenceLevel, PlanError, PriceOffset, RegimeInterpretation,
    RiskLevel, Workflow,
};

fn interp(action: Action, c: ConfidenceLevel, r: RiskLevel) -> RegimeInterpretation {
    RegimeInterpretation { action, reason: "strong bullish EMA200 bias".to_string(), confidence_level: c, risk_level: r }
}

fn regimes() -> MarketRegimes {
    MarketRegimes {
        trend: TrendStrength::StrongUp,
        volatility: Volatility::High,
        liquidity: Liquidity::Medium,
        squeeze: Squeeze::Expansion,
        price_above_ema200: true,
        rsi_oversold: false,
        rsi_overbought: true,
    }
}

#[test]
fn to_order_side_maps_actions() {
    assert_eq!(Action::Buy.to_order_side(), Some(OrderSide::Buy));
    assert_eq!(Action::Sell.to_order_side(), Some(OrderSide::Sell));
    assert_eq!(Action::Hold.to_order_side(), None);
}

#[test]
fn only_confident_buys_and_sells_are_executed() {
    assert!(should_execute(&interp(Action::Buy, ConfidenceLevel::High, RiskLevel::Low)));
    assert!(should_execute(&interp(Action::Sell, ConfidenceLevel::VeryHigh, RiskLevel::Low)));
    assert!(!should_execute(&interp(Action::Hold, ConfidenceLevel::VeryHigh, RiskLevel::Low)));
    assert!(!should_execute(&interp(Action::Buy, ConfidenceLevel::Medium, RiskLevel::Low)));
    assert!(!should_execute(&interp(Action::Buy, ConfidenceLevel::VeryLow, RiskLevel::High)));
}

#[test]
fn plan_for_each_risk_level() {
    let p = plan_trade(&interp(Action::Buy, ConfidenceLevel::High, RiskLevel::Low), 50).unwrap();
    assert_eq!(p.side, OrderSide::Buy);
    assert_eq!(p.leverage, Some(1));
    assert_eq!(p.size_hundredths, 1);
    assert_eq!(p.stop_loss, PriceOffset::Below(250));
    assert_eq!(p.take_profit, PriceOffset::Above(600));
    assert_eq!(p.trigger_signal, TriggerSignal::Mark);
    let p = plan_trade(&interp(Action::Sell, ConfidenceLevel::High, RiskLevel::Medium), 50).unwrap();
    assert_eq!(p.leverage, Some(3));
    assert_eq!(p.size_hundredths, 2);
    assert_eq!(p.stop_loss, PriceOffset::Above(150));
    assert_eq!(p.take_profit, PriceOffset::Below(450));
    let p = plan_trade(&interp(Action::Buy, ConfidenceLevel::High, RiskLevel::High), 50).unwrap();
    assert_eq!(p.leverage, Some(5));
    assert_eq!(p.size_hundredths, 3);
    assert_eq!(p.stop_loss, PriceOffset::Below(100));
    assert_eq!(p.take_profit, PriceOffset::Above(400));
    assert_eq!(p.stop_limit, PriceOffset::Below(50));
    assert_eq!(p.take_profit_limit, PriceOffset::Above(50));
}

#[test]
fn limit_buffer_keeps_its_direction_on_either_side() {
    let p = plan_trade(&interp(Action::Sell, ConfidenceLevel::VeryHigh, RiskLevel::Low), 25).unwrap();
    assert_eq!(p.stop_loss, PriceOffset::Above(250));
    assert_eq!(p.stop_limit, PriceOffset::Below(25));
    assert_eq!(p.take_profit_limit, PriceOffset::Above(25));
}

#[test]
fn holding_plans_no_trade() {
    let e = plan_trade(&interp(Action::Hold, ConfidenceLevel::High, RiskLevel::Low), 50).unwrap_err();
    assert_eq!(e, PlanError::Hold);
    assert_eq!(e.message(), "Hold \u{2014} no trade action");
}

#[test]
fn plan_becomes_a_trade_config() {
    let p = plan_trade(&interp(Action::Buy, ConfidenceLevel::High, RiskLevel::Low), 50).unwrap();
    let c = p.into_config("PF_XBTUSD", 0.01f64, 97.5, 97.0, 106.0, 106.5);
    assert_eq!(c.symbol, "PF_XBTUSD");
    assert_eq!(c.side, OrderSide::Buy);
    assert_eq!(c.size, 0.01);
    assert!(matches!(c.entry, EntryConfig::Market));
    let sl = c.stop_loss.unwrap();
    assert_eq!(sl.trigger_price, 97.5);
    assert_eq!(sl.limit_price, Some(97.0));
    assert_eq!(sl.trigger_signal, TriggerSignal::Mark);
    let tp = c.take_profit.unwrap();
    assert_eq!(tp.trigger_price, 106.0);
    assert_eq!(tp.limit_price, Some(106.5));
    assert_eq!(c.leverage, Some(1));
}

#[test]
fn summary_lists_every_regime() {
    assert_eq!(
        regimes().summary(),
        "Current market regimes:\n- Trend Strength: StrongUp\n- Volatility: High\n- Liquidity: Medium\n- Squeeze: Expansion\n- Price > EMA200: true\n- RSI oversold: false\n- RSI overbought: true"
    );
}

#[test]
fn prompt_names_the_symbol() {
    let p = regime_prompt("PF_XBTUSD", &regimes());
    assert!(p.starts_with("Current technical regimes for PF_XBTUSD:\nCurrent market regimes:\n"));
    assert_eq!(p, format!("Current technical regimes for PF_XBTUSD:\n{}", regimes().summary()));
}

#[test]
fn workflow_defaults_to_fifteen_minutes() {
    let w = Workflow::new("PF_XBTUSD", (), 7u8);
    assert_eq!(w.cycle_duration, 900);
    assert_eq!(w.symbol, "PF_XBTUSD");
    assert_eq!(w.kraken_client, 7);
    assert_eq!(*w.trade_manager.client(), 7);
    let w = Workflow::with_duration("PF_ETHUSD", (), 1u8, 60);
    assert_eq!(w.cycle_duration, 60);
}
