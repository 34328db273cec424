use vstd::prelude::*;

use vstd::string::StringExecFns;

use crate::market_regimes::{summary_text, MarketRegimes};
use crate::trade::{
    EntryConfig, OrderSide, StopConfig, TakeProfitConfig, TradeConfig, TradeManager, TriggerSignal,
};

verus! {

/// What the regime interpreter advises.
#[derive(Debug, Clone, Copy, PartialEq, Eq, Structural)]
pub enum Action {
    Buy,
    Sell,
    Hold,
}

impl Action {
    /// The order side that carries out the advice; `Hold` has none.
    pub fn to_order_side(&self) -> (s: Option<OrderSide>)
        ensures
            *self == Action::Buy ==> s == Some(OrderSide::Buy),
            *self == Action::Sell ==> s == Some(OrderSide::Sell),
            *self == Action::Hold ==> s is None,
    {
        match self {
            Action::Buy => Some(OrderSide::Buy),
            Action::Sell => Some(OrderSide::Sell),
            Action::Hold => None,
        }
    }
}


/// How sure the interpreter is of its advice.
#[derive(Debug, Clone, Copy, PartialEq, Eq, Structural)]
pub enum ConfidenceLevel {
    VeryLow,
    Low,
    Medium,
    High,
    VeryHigh,
}

/// How much risk the interpreter advises taking.
#[derive(Debug, Clone, Copy, PartialEq, Eq, Structural)]
pub enum RiskLevel {
    Low,
    Medium,
    High,
}

/// The interpreter's structured advice.
#[derive(Debug, Clone)]
pub struct RegimeInterpretation {
    pub action: Action,
    pub reason: String,
    pub confidence_level: ConfidenceLevel,
    pub risk_level: RiskLevel,
}

/// Advice is acted on only when it is to buy or sell with high or very high
/// confidence.
pub open spec fn acts_on(action: Action, confidence: ConfidenceLevel) -> bool {
    (confidence == ConfidenceLevel::High || confidence == ConfidenceLevel::VeryHigh)
        && action != Action::Hold
}

/// Only strong advice is traded on: a cycle acts exactly when the advice is
/// to buy or to sell with high or very high confidence. Holding never trades,
/// nor does advice of very low, low or medium confidence.
pub proof fn lemma_acts_only_on_strong_advice(action: Action, confidence: ConfidenceLevel)
    ensures
        acts_on(action, confidence) ==> confidence == ConfidenceLevel::High
            || confidence == ConfidenceLevel::VeryHigh,
        acts_on(action, confidence) ==> action == Action::Buy || action == Action::Sell,
        !acts_on(action, ConfidenceLevel::VeryLow),
        !acts_on(action, ConfidenceLevel::Low),
        !acts_on(action, ConfidenceLevel::Medium),
        !acts_on(Action::Hold, confidence),
        acts_on(Action::Buy, ConfidenceLevel::High) && acts_on(Action::Buy, ConfidenceLevel::VeryHigh),
        acts_on(Action::Sell, ConfidenceLevel::High) && acts_on(Action::Sell, ConfidenceLevel::VeryHigh),
{
}

/// Whether a cycle trades on `interpretation`.
pub fn should_execute(interpretation: &RegimeInterpretation) -> (b: bool)
    ensures
        b == acts_on(interpretation.action, interpretation.confidence_level),
{
    (interpretation.confidence_level == ConfidenceLevel::High
        || interpretation.confidence_level == ConfidenceLevel::VeryHigh)
        && interpretation.action != Action::Hold
}

/// The prompt of one cycle: the symbol and its regime report.
pub open spec fn regime_prompt_text(symbol: Seq<char>, regimes: MarketRegimes) -> Seq<char> {
    "Current technical regimes for "@ + symbol + ":\n"@ + summary_text(regimes)
}

/// The prompt that asks the interpreter about `symbol` in `regimes`.
pub fn regime_prompt(symbol: &str, regimes: &MarketRegimes) -> (p: String)
    ensures
        p@ == regime_prompt_text(symbol@, *regimes),
{
    let mut p = String::from_str("Current technical regimes for ");
    p.append(symbol);
    p.append(":\n");
    p.append(regimes.summary().as_str());
    p
}

/// Where a protective price lies relative to the current price, as a distance
/// in basis points (hundredths of a percent).
#[derive(Debug, Clone, Copy, PartialEq, Eq, Structural)]
pub enum PriceOffset {
    Below(u32),
    Above(u32),
}

/// The trade that an interpretation calls for, before prices are known:
/// the size is in hundredths of a contract; the stop-loss and take-profit
/// triggers lie at their offsets from the current price, and their limit
/// prices at `stop_limit` and `take_profit_limit` from those triggers.
#[derive(Debug, Clone, Copy, PartialEq, Eq, Structural)]
pub struct TradePlan {
    pub side: OrderSide,
    pub leverage: Option<u8>,
    pub size_hundredths: u32,
    pub stop_loss: PriceOffset,
    pub take_profit: PriceOffset,
    pub stop_limit: PriceOffset,
    pub take_profit_limit: PriceOffset,
    pub trigger_signal: TriggerSignal,
}

/// The leverage, size (hundredths), stop-loss distance and take-profit
/// distance (basis points) of each risk level.
pub open spec fn risk_parameters(r: RiskLevel) -> (Option<u8>, u32, u32, u32) {
    match r {
        RiskLevel::Low => (Some(1u8), 1u32, 250u32, 600u32),
        RiskLevel::Medium => (Some(3u8), 2u32, 150u32, 450u32),
        RiskLevel::High => (Some(5u8), 3u32, 100u32, 400u32),
    }
}

/// The plan for `side` at risk level `r` with a limit buffer of `buffer`
/// basis points: the stop-loss lies on the losing side of the entry and the
/// take-profit on the winning side; whatever the side, the stop's limit lies
/// below its trigger and the take-profit's limit above its trigger.
pub open spec fn plan_for(side: OrderSide, r: RiskLevel, buffer: u32) -> TradePlan {
    let (leverage, size, sl, tp) = risk_parameters(r);
    TradePlan {
        side,
        leverage,
        size_hundredths: size,
        stop_loss: match side {
            OrderSide::Buy => PriceOffset::Below(sl),
            OrderSide::Sell => PriceOffset::Above(sl),
        },
        take_profit: match side {
            OrderSide::Buy => PriceOffset::Above(tp),
            OrderSide::Sell => PriceOffset::Below(tp),
        },
        stop_limit: PriceOffset::Below(buffer),
        take_profit_limit: PriceOffset::Above(buffer),
        trigger_signal: TriggerSignal::Mark,
    }
}

/// Why no trade could be planned.
#[derive(Debug, Clone, Copy, PartialEq, Eq, Structural)]
pub enum PlanError {
    /// The advice is to hold.
    Hold,
}

impl PlanError {
    /// The text of this error.
    pub fn message(&self) -> (m: String)
        ensures
            m@ == "Hold \u{2014} no trade action"@,
    {
        String::from_str("Hold \u{2014} no trade action")
    }
}

/// The trade that `interpretation` calls for, with limit prices
/// `limit_buffer_bps` basis points beyond the triggers; holding calls for none.
pub fn plan_trade(interpretation: &RegimeInterpretation, limit_buffer_bps: u32) -> (r: Result<TradePlan, PlanError>)
    ensures
        (match r {
            Ok(plan) => {
                &&& interpretation.action != Action::Hold
                &&& interpretation.action.to_order_side_spec() matches Some(side)
                    && plan == plan_for(side, interpretation.risk_level, limit_buffer_bps)
            },
            Err(e) => interpretation.action == Action::Hold && e == PlanError::Hold,
        }),
{
    let side = match interpretation.action.to_order_side() {
        Some(s) => s,
        None => return Err(PlanError::Hold),
    };
    let (leverage, size, sl, tp): (Option<u8>, u32, u32, u32) = match interpretation.risk_level {
        RiskLevel::Low => (Some(1u8), 1u32, 250u32, 600u32),
        RiskLevel::Medium => (Some(3u8), 2u32, 150u32, 450u32),
        RiskLevel::High => (Some(5u8), 3u32, 100u32, 400u32),
    };
    let (stop_loss, take_profit) = match side {
        OrderSide::Buy => (PriceOffset::Below(sl), PriceOffset::Above(tp)),
        OrderSide::Sell => (PriceOffset::Above(sl), PriceOffset::Below(tp)),
    };
    Ok(TradePlan {
        side,
        leverage,
        size_hundredths: size,
        stop_loss,
        take_profit,
        stop_limit: PriceOffset::Below(limit_buffer_bps),
        take_profit_limit: PriceOffset::Above(limit_buffer_bps),
        trigger_signal: TriggerSignal::Mark,
    })
}

impl Action {
    /// The order side of an advice, as a specification.
    pub open spec fn to_order_side_spec(&self) -> Option<OrderSide> {
        match self {
            Action::Buy => Some(OrderSide::Buy),
            Action::Sell => Some(OrderSide::Sell),
            Action::Hold => None,
        }
    }
}

impl TradePlan {
    /// The trade configuration of this plan for `symbol`, given the size and
    /// the prices worked out from the plan: a market entry, a stop-loss and a
    /// take-profit with limit prices, triggered by the plan's signal.
    pub fn into_config<N>(self, symbol: &str, size: N, stop_trigger: N, stop_limit: N, take_profit_trigger: N, take_profit_limit: N) -> (c: TradeConfig<N>)
        ensures
            c.symbol@ == symbol@,
            c.side == self.side,
            c.size == size,
            c.entry is Market,
            c.stop_loss == Some(StopConfig { trigger_price: stop_trigger, trigger_signal: self.trigger_signal, limit_price: Some(stop_limit) }),
            c.take_profit == Some(TakeProfitConfig { trigger_price: take_profit_trigger, trigger_signal: self.trigger_signal, limit_price: Some(take_profit_limit) }),
            c.leverage == self.leverage,
    {
        TradeConfig {
            symbol: symbol.to_string(),
            side: self.side,
            size,
            entry: EntryConfig::Market,
            stop_loss: Some(StopConfig { trigger_price: stop_trigger, trigger_signal: self.trigger_signal, limit_price: Some(stop_limit) }),
            take_profit: Some(TakeProfitConfig { trigger_price: take_profit_trigger, trigger_signal: self.trigger_signal, limit_price: Some(take_profit_limit) }),
            leverage: self.leverage,
        }
    }
}

/// Protective orders sit on the right sides of the entry, their limit prices
/// lie below the stop's trigger and above the take-profit's trigger, the
/// reward targeted exceeds the risk taken at every level, and a higher risk
/// level means more leverage, a larger size and a tighter stop-loss.
pub proof fn lemma_trade_plan_shape(side: OrderSide, r: RiskLevel, buffer: u32)
    ensures
        side == OrderSide::Buy ==> plan_for(side, r, buffer).stop_loss is Below && plan_for(side, r, buffer).take_profit is Above,
        side == OrderSide::Sell ==> plan_for(side, r, buffer).stop_loss is Above && plan_for(side, r, buffer).take_profit is Below,
        plan_for(side, r, buffer).stop_limit == PriceOffset::Below(buffer),
        plan_for(side, r, buffer).take_profit_limit == PriceOffset::Above(buffer),
        risk_parameters(r).3 > risk_parameters(r).2,
        risk_parameters(RiskLevel::Low).0->0 < risk_parameters(RiskLevel::Medium).0->0 < risk_parameters(RiskLevel::High).0->0,
        risk_parameters(RiskLevel::Low).1 < risk_parameters(RiskLevel::Medium).1 < risk_parameters(RiskLevel::High).1,
        risk_parameters(RiskLevel::Low).2 > risk_parameters(RiskLevel::Medium).2 > risk_parameters(RiskLevel::High).2,
{
}

/// The default length of a trading cycle, in seconds.
pub open spec fn default_cycle_seconds() -> u64 {
    900
}

/// A trading workflow for one symbol: the model provider `P`, the exchange
/// client `K` and the trade manager built on it.
pub struct Workflow<P, K> {
    pub provider: P,
    pub cycle_duration: u64,
    pub symbol: String,
    pub kraken_client: K,
    pub trade_manager: TradeManager<K>,
}

impl<P, K: Clone> Workflow<P, K> {
    /// A workflow for `symbol` with cycles of fifteen minutes.
    pub fn new(symbol: &str, provider: P, kraken_client: K) -> (w: Self)
        ensures
            w.symbol@ == symbol@,
            w.cycle_duration == default_cycle_seconds(),
            w.provider == provider,
            w.kraken_client == kraken_client,
    {
        Self::with_duration(symbol, provider, kraken_client, 15 * 60)
    }

    /// A workflow for `symbol` with cycles of `cycle_duration` seconds.
    pub fn with_duration(symbol: &str, provider: P, kraken_client: K, cycle_duration: u64) -> (w: Self)
        ensures
            w.symbol@ == symbol@,
            w.cycle_duration == cycle_duration,
            w.provider == provider,
            w.kraken_client == kraken_client,
    {
        let manager_client = kraken_client.clone();
        Workflow {
            provider,
            cycle_duration,
            symbol: symbol.to_string(),
            kraken_client,
            trade_manager: TradeManager::new(manager_client),
        }
    }
}

} // verus!
