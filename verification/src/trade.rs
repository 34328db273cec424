use vstd::prelude::*;
use vstd::string::StringExecFns;

use crate::kraken_types::{OpenPosition, SendOrder};
use crate::text::str_eq;
use crate::workflow::Action;

verus! {

/// The side of an order.
#[derive(Debug, Clone, Copy, PartialEq, Eq, Structural)]
pub enum OrderSide {
    Buy,
    Sell,
}

/// The exchange's word for an order side.
pub open spec fn side_text(s: OrderSide) -> Seq<char> {
    match s {
        OrderSide::Buy => "buy"@,
        OrderSide::Sell => "sell"@,
    }
}

/// The side that closes or protects a position opened on side `s`.
pub open spec fn opposite_side(s: OrderSide) -> OrderSide {
    match s {
        OrderSide::Buy => OrderSide::Sell,
        OrderSide::Sell => OrderSide::Buy,
    }
}

/// How the position is entered.
#[derive(Debug, Clone, Copy)]
pub enum EntryConfig<N> {
    Market,
    Limit { limit_price: N },
}

/// Which price a conditional order is triggered by.
#[derive(Debug, Clone, Copy, PartialEq, Eq, Structural)]
pub enum TriggerSignal {
    Mark,
    Index,
    Last,
}

/// The exchange's word for a trigger signal.
pub open spec fn signal_text(t: TriggerSignal) -> Seq<char> {
    match t {
        TriggerSignal::Mark => "mark"@,
        TriggerSignal::Index => "index"@,
        TriggerSignal::Last => "last"@,
    }
}

/// Protective and closing orders lie on the side opposite the entry: the
/// opposite of a side is never that side, taking it twice gives the side
/// back, and in the exchange's words a buy is protected by a sell and a sell
/// by a buy.
pub proof fn lemma_opposite_side(s: OrderSide)
    ensures
        opposite_side(s) != s,
        opposite_side(opposite_side(s)) == s,
        side_text(OrderSide::Buy) == "buy"@,
        side_text(OrderSide::Sell) == "sell"@,
        side_text(opposite_side(OrderSide::Buy)) == "sell"@,
        side_text(opposite_side(OrderSide::Sell)) == "buy"@,
        side_text(opposite_side(s)) != side_text(s),
{
    reveal_strlit("buy");
    reveal_strlit("sell");
    assert(side_text(opposite_side(s))[0] != side_text(s)[0]);
}

/// Each trigger signal is sent as its own lowercase word, and different
/// signals are sent as different words.
pub proof fn lemma_signal_words(a: TriggerSignal, b: TriggerSignal)
    ensures
        signal_text(TriggerSignal::Mark) == "mark"@,
        signal_text(TriggerSignal::Index) == "index"@,
        signal_text(TriggerSignal::Last) == "last"@,
        signal_text(a) == signal_text(b) ==> a == b,
{
    reveal_strlit("mark");
    reveal_strlit("index");
    reveal_strlit("last");
    if signal_text(a) == signal_text(b) && a != b {
        assert(signal_text(a)[0] != signal_text(b)[0]);
    }
}

impl TriggerSignal {
    /// The exchange's word for this trigger signal.
    pub fn as_str(&self) -> (s: &'static str)
        ensures
            s@ == signal_text(*self),
    {
        match self {
            TriggerSignal::Mark => "mark",
            TriggerSignal::Index => "index",
            TriggerSignal::Last => "last",
        }
    }
}

/// A stop-loss: triggered at `trigger_price`, filled at `limit_price` if given.
#[derive(Debug, Clone, Copy)]
pub struct StopConfig<N> {
    pub trigger_price: N,
    pub trigger_signal: TriggerSignal,
    pub limit_price: Option<N>,
}

/// A take-profit: triggered at `trigger_price`, filled at `limit_price` if given.
#[derive(Debug, Clone, Copy)]
pub struct TakeProfitConfig<N> {
    pub trigger_price: N,
    pub trigger_signal: TriggerSignal,
    pub limit_price: Option<N>,
}

/// Everything that opening one trade needs.
#[derive(Debug)]
pub struct TradeConfig<N> {
    pub symbol: String,
    pub side: OrderSide,
    pub size: N,
    pub entry: EntryConfig<N>,
    pub stop_loss: Option<StopConfig<N>>,
    pub take_profit: Option<TakeProfitConfig<N>>,
    pub leverage: Option<u8>,
}

impl<N> TradeConfig<N> {
    /// The exchange's word for the entry side.
    pub fn side_str(&self) -> (s: &'static str)
        ensures
            s@ == side_text(self.side),
    {
        match self.side {
            OrderSide::Buy => "buy",
            OrderSide::Sell => "sell",
        }
    }

    /// The exchange's word for the side opposite to the entry side.
    pub fn toggled_side_str(&self) -> (s: &'static str)
        ensures
            s@ == side_text(opposite_side(self.side)),
    {
        match self.side {
            OrderSide::Buy => "sell",
            OrderSide::Sell => "buy",
        }
    }
}

/// An opened trade: its configuration and the orders that were placed for it.
#[derive(Debug)]
pub struct Trade<N> {
    pub config: TradeConfig<N>,
    pub entry: SendOrder<N>,
    pub stop_loss: Option<SendOrder<N>>,
    pub take_profit: Option<SendOrder<N>>,
}

/// `o` is the entry order of `c`.
pub open spec fn is_entry_order<N>(o: SendOrder<N>, c: TradeConfig<N>) -> bool {
    &&& o.symbol@ == c.symbol@
    &&& o.side@ == side_text(c.side)
    &&& o.size == c.size
    &&& o.stop_price is None
    &&& o.trigger_signal is None
    &&& o.reduce_only == Some(false)
    &&& o.cli_ord_id is None
    &&& match c.entry {
        EntryConfig::Market => o.order_type@ == "mkt"@ && o.limit_price is None,
        EntryConfig::Limit { limit_price } => o.order_type@ == "lmt"@ && o.limit_price == Some(limit_price),
    }
}

/// `o` is the stop-loss order of `c` for the stop `sl`: on the opposite side,
/// triggered at the stop's trigger price.
pub open spec fn is_stop_order<N>(o: SendOrder<N>, c: TradeConfig<N>, sl: StopConfig<N>) -> bool {
    &&& o.order_type@ == "stp"@
    &&& o.symbol@ == c.symbol@
    &&& o.side@ == side_text(opposite_side(c.side))
    &&& o.size == c.size
    &&& o.limit_price == sl.limit_price
    &&& o.stop_price == Some(sl.trigger_price)
    &&& o.trigger_signal matches Some(t) && t@ == signal_text(sl.trigger_signal)
    &&& o.reduce_only == Some(false)
    &&& o.cli_ord_id is None
}

/// `o` is the take-profit order of `c` for `tp`: reduce-only, on the opposite side.
pub open spec fn is_take_profit_order<N>(o: SendOrder<N>, c: TradeConfig<N>, tp: TakeProfitConfig<N>) -> bool {
    &&& o.order_type@ == "take_profit"@
    &&& o.symbol@ == c.symbol@
    &&& o.side@ == side_text(opposite_side(c.side))
    &&& o.size == c.size
    &&& o.limit_price == tp.limit_price
    &&& o.stop_price == Some(tp.trigger_price)
    &&& o.trigger_signal matches Some(t) && t@ == signal_text(tp.trigger_signal)
    &&& o.reduce_only == Some(true)
    &&& o.cli_ord_id is None
}

/// Builds and places the orders of a trade through an exchange client `C`.
pub struct TradeManager<C> {
    client: C,
}

impl<C> TradeManager<C> {
    pub closed spec fn spec_client(&self) -> C {
        self.client
    }

    /// A manager that trades through `client`.
    pub fn new(client: C) -> (m: Self)
        ensures
            m.spec_client() == client,
    {
        TradeManager { client }
    }

    /// The exchange client.
    pub fn client(&self) -> (c: &C)
        ensures
            *c == self.spec_client(),
    {
        &self.client
    }

    /// The order that opens the position of `trade_config`.
    pub fn get_entry_order<N: Copy>(&self, trade_config: &TradeConfig<N>) -> (o: SendOrder<N>)
        ensures
            is_entry_order(o, *trade_config),
    {
        build_entry_order(trade_config)
    }

    /// The stop-loss order of `trade_config`, if it has a stop-loss.
    pub fn get_stop_order<N: Copy>(&self, trade_config: &TradeConfig<N>) -> (o: Option<SendOrder<N>>)
        ensures
            trade_config.stop_loss is None ==> o is None,
            trade_config.stop_loss matches Some(sl) ==> o matches Some(so) && is_stop_order(so, *trade_config, sl),
    {
        build_stop_order(trade_config)
    }

    /// The take-profit order of `trade_config`, if it has a take-profit.
    pub fn get_take_profit_order<N: Copy>(&self, trade_config: &TradeConfig<N>) -> (o: Option<SendOrder<N>>)
        ensures
            trade_config.take_profit is None ==> o is None,
            trade_config.take_profit matches Some(tp) ==> o matches Some(to) && is_take_profit_order(to, *trade_config, tp),
    {
        build_take_profit_order(trade_config)
    }
}

fn build_entry_order<N: Copy>(c: &TradeConfig<N>) -> (o: SendOrder<N>)
    ensures
        is_entry_order(o, *c),
{
    match c.entry {
        EntryConfig::Market => SendOrder {
            order_type: String::from_str("mkt"),
            symbol: c.symbol.clone(),
            side: String::from_str(c.side_str()),
            size: c.size,
            limit_price: None,
            stop_price: None,
            trigger_signal: None,
            reduce_only: Some(false),
            cli_ord_id: None,
        },
        EntryConfig::Limit { limit_price } => SendOrder {
            order_type: String::from_str("lmt"),
            symbol: c.symbol.clone(),
            side: String::from_str(c.side_str()),
            size: c.size,
            limit_price: Some(limit_price),
            stop_price: None,
            trigger_signal: None,
            reduce_only: Some(false),
            cli_ord_id: None,
        },
    }
}

fn build_stop_order<N: Copy>(c: &TradeConfig<N>) -> (o: Option<SendOrder<N>>)
    ensures
        c.stop_loss is None ==> o is None,
        c.stop_loss matches Some(sl) ==> o matches Some(so) && is_stop_order(so, *c, sl),
{
    match c.stop_loss {
        None => None,
        Some(sl) => Some(SendOrder {
            order_type: String::from_str("stp"),
            symbol: c.symbol.clone(),
            side: String::from_str(c.toggled_side_str()),
            size: c.size,
            limit_price: sl.limit_price,
            stop_price: Some(sl.trigger_price),
            trigger_signal: Some(String::from_str(sl.trigger_signal.as_str())),
            reduce_only: Some(false),
            cli_ord_id: None,
        }),
    }
}

fn build_take_profit_order<N: Copy>(c: &TradeConfig<N>) -> (o: Option<SendOrder<N>>)
    ensures
        c.take_profit is None ==> o is None,
        c.take_profit matches Some(tp) ==> o matches Some(to) && is_take_profit_order(to, *c, tp),
{
    match c.take_profit {
        None => None,
        Some(tp) => Some(SendOrder {
            order_type: String::from_str("take_profit"),
            symbol: c.symbol.clone(),
            side: String::from_str(c.toggled_side_str()),
            size: c.size,
            limit_price: tp.limit_price,
            stop_price: Some(tp.trigger_price),
            trigger_signal: Some(String::from_str(tp.trigger_signal.as_str())),
            reduce_only: Some(true),
            cli_ord_id: None,
        }),
    }
}


/// Why opening or closing a trade failed.
#[derive(Debug)]
pub enum TradeError {
    /// The exchange could not be reached or refused the request.
    Exchange(String),
    /// The stop-loss order came back with this status instead of "placed".
    StopLossRejected(String),
    /// The take-profit order came back with this status instead of "placed".
    TakeProfitRejected(String),
    /// The entry order came back with this status instead of "placed".
    EntryRejected(String),
    /// The position's side is neither "long" nor "short".
    UnknownPositionSide(String),
    /// The closing order came back with this status instead of "placed".
    CloseRejected(String),
}

/// The text of a trade error.
pub open spec fn trade_error_text(e: TradeError) -> Seq<char> {
    match e {
        TradeError::Exchange(m) => m@,
        TradeError::StopLossRejected(s) => "Failed to place SL: "@ + s@,
        TradeError::TakeProfitRejected(s) => "Failed to place TP: "@ + s@,
        TradeError::EntryRejected(s) => "Failed to place entry: "@ + s@,
        TradeError::UnknownPositionSide(s) => "Unknown position side: "@ + s@,
        TradeError::CloseRejected(s) => "Failed to place close order: "@ + s@,
    }
}

impl TradeError {
    /// The text of this error.
    pub fn message(&self) -> (m: String)
        ensures
            m@ == trade_error_text(*self),
    {
        match self {
            TradeError::Exchange(m) => m.clone(),
            TradeError::StopLossRejected(s) => String::from_str("Failed to place SL: ").concat(s.as_str()),
            TradeError::TakeProfitRejected(s) => String::from_str("Failed to place TP: ").concat(s.as_str()),
            TradeError::EntryRejected(s) => String::from_str("Failed to place entry: ").concat(s.as_str()),
            TradeError::UnknownPositionSide(s) => String::from_str("Unknown position side: ").concat(s.as_str()),
            TradeError::CloseRejected(s) => String::from_str("Failed to place close order: ").concat(s.as_str()),
        }
    }
}

/// A request that opening or closing a trade makes of the exchange.
#[derive(Debug)]
pub enum TradeRequest<N> {
    /// Set the maximum leverage of `symbol` (none: cross margin).
    SetLeverage { symbol: String, leverage: Option<u8> },
    /// Send this order.
    Send(SendOrder<N>),
    /// Cancel every open order of `symbol`.
    CancelAll { symbol: String },
}

/// The part an order plays in a trade.
#[derive(Debug, Clone, Copy, PartialEq, Eq, Structural)]
pub enum OrderRole {
    StopLoss,
    TakeProfit,
    Entry,
}

/// The protective orders of a trade, in the order they are placed:
/// the stop-loss first, then the take-profit, each where configured.
pub open spec fn protective_roles<N>(c: TradeConfig<N>) -> Seq<OrderRole> {
    (if c.stop_loss is Some { seq![OrderRole::StopLoss] } else { Seq::empty() })
        + (if c.take_profit is Some { seq![OrderRole::TakeProfit] } else { Seq::empty() })
}

/// The orders of a trade in the order they are placed: the protective
/// orders, then the entry.
pub open spec fn planned_roles<N>(c: TradeConfig<N>) -> Seq<OrderRole> {
    protective_roles(c).push(OrderRole::Entry)
}

/// `o` is the order that plays `role` in the trade `c`.
pub open spec fn is_order_for<N>(o: SendOrder<N>, c: TradeConfig<N>, role: OrderRole) -> bool {
    match role {
        OrderRole::StopLoss => c.stop_loss matches Some(sl) && is_stop_order(o, c, sl),
        OrderRole::TakeProfit => c.take_profit matches Some(tp) && is_take_profit_order(o, c, tp),
        OrderRole::Entry => is_entry_order(o, c),
    }
}

/// The error reported when the order playing `role` comes back with `status`.
pub open spec fn rejection(role: OrderRole, status: String) -> TradeError {
    match role {
        OrderRole::StopLoss => TradeError::StopLossRejected(status),
        OrderRole::TakeProfit => TradeError::TakeProfitRejected(status),
        OrderRole::Entry => TradeError::EntryRejected(status),
    }
}

/// `t` holds `c` and exactly the orders that `c` calls for.
pub open spec fn is_trade_of<N>(t: Trade<N>, c: TradeConfig<N>) -> bool {
    &&& t.config == c
    &&& is_entry_order(t.entry, c)
    &&& (c.stop_loss is None ==> t.stop_loss is None)
    &&& (c.stop_loss matches Some(sl) ==> t.stop_loss matches Some(o) && is_stop_order(o, c, sl))
    &&& (c.take_profit is None ==> t.take_profit is None)
    &&& (c.take_profit matches Some(tp) ==> t.take_profit matches Some(o) && is_take_profit_order(o, c, tp))
}

/// Where opening a trade stands.
#[derive(Debug)]
pub enum OpenTradePhase {
    /// The leverage request is out.
    AwaitingLeverage,
    /// The order at `next` in the plan is out.
    AwaitingOrder,
    /// An order was rejected; the cancellation of all orders is out.
    AwaitingCleanup(TradeError),
}

/// Opening a trade: set the leverage, place the stop-loss, the take-profit
/// and then the entry; on the first rejected order cancel every order of the
/// symbol and fail.
pub struct OpenTrade<N> {
    pub config: TradeConfig<N>,
    pub next: usize,
    pub phase: OpenTradePhase,
    /// The roles whose orders the exchange has answered "placed".
    pub confirmed: Ghost<Seq<OrderRole>>,
}

/// What opening a trade does next.
pub enum OpenTradeStep<N> {
    /// Make this request and hand its answer to the state.
    Next(OpenTrade<N>, TradeRequest<N>),
    /// Opening is over.
    Finished(Result<Trade<N>, TradeError>),
}

fn placed_text() -> (s: &'static str)
    ensures
        s@ == "placed"@,
{
    "placed"
}

fn planned_len<N>(c: &TradeConfig<N>) -> (n: usize)
    ensures
        n == planned_roles(*c).len(),
{
    let mut n: usize = 1;
    if c.stop_loss.is_some() {
        n = n + 1;
    }
    if c.take_profit.is_some() {
        n = n + 1;
    }
    n
}

fn role_at<N>(c: &TradeConfig<N>, k: usize) -> (r: OrderRole)
    requires
        k < planned_roles(*c).len(),
    ensures
        r == planned_roles(*c)[k as int],
{
    let has_sl = c.stop_loss.is_some();
    let has_tp = c.take_profit.is_some();
    let n_protective: usize = if has_sl && has_tp { 2 } else if has_sl || has_tp { 1 } else { 0 };
    if k == n_protective {
        OrderRole::Entry
    } else if k == 0 && has_sl {
        OrderRole::StopLoss
    } else {
        OrderRole::TakeProfit
    }
}

fn order_for_role<N: Copy>(c: &TradeConfig<N>, role: OrderRole) -> (o: SendOrder<N>)
    requires
        role == OrderRole::StopLoss ==> c.stop_loss is Some,
        role == OrderRole::TakeProfit ==> c.take_profit is Some,
    ensures
        is_order_for(o, *c, role),
{
    match role {
        OrderRole::StopLoss => build_stop_order(c).unwrap(),
        OrderRole::TakeProfit => build_take_profit_order(c).unwrap(),
        OrderRole::Entry => build_entry_order(c),
    }
}

proof fn lemma_planned_role_configured<N>(c: TradeConfig<N>, k: int)
    requires
        0 <= k < planned_roles(c).len(),
    ensures
        planned_roles(c)[k] == OrderRole::StopLoss ==> c.stop_loss is Some,
        planned_roles(c)[k] == OrderRole::TakeProfit ==> c.take_profit is Some,
{
}

impl<N: Copy> OpenTrade<N> {
    /// The roles the plan's orders play, in placing order.
    pub open spec fn plan(&self) -> Seq<OrderRole> {
        planned_roles(self.config)
    }

    /// The state is consistent: while an order is out, the orders before it
    /// in the plan have been confirmed.
    pub open spec fn wf(&self) -> bool {
        match self.phase {
            OpenTradePhase::AwaitingLeverage => self.confirmed@ == Seq::<OrderRole>::empty(),
            OpenTradePhase::AwaitingOrder => self.next < self.plan().len()
                && self.confirmed@ == self.plan().take(self.next as int),
            OpenTradePhase::AwaitingCleanup(_) => self.next < self.plan().len()
                && self.confirmed@ == self.plan().take(self.next as int),
        }
    }

    /// Starts opening the trade `config`: its first request sets the leverage.
    pub fn start(config: TradeConfig<N>) -> (r: (OpenTrade<N>, TradeRequest<N>))
        ensures
            r.0.config == config,
            r.0.phase is AwaitingLeverage,
            r.0.wf(),
            r.1 matches TradeRequest::SetLeverage { symbol, leverage }
                && symbol@ == config.symbol@ && leverage == config.leverage,
    {
        let request = TradeRequest::SetLeverage { symbol: config.symbol.clone(), leverage: config.leverage };
        (OpenTrade { config, next: 0, phase: OpenTradePhase::AwaitingLeverage, confirmed: Ghost(Seq::empty()) }, request)
    }

    /// Takes the answer to the leverage request: on success the first order of
    /// the plan goes out, on failure opening fails with the exchange's error.
    pub fn on_leverage_set(self, answer: Result<(), String>) -> (step: OpenTradeStep<N>)
        requires
            self.wf(),
            self.phase is AwaitingLeverage,
        ensures
            answer matches Err(e) ==> step == OpenTradeStep::<N>::Finished(Err(TradeError::Exchange(e))),
            answer is Ok ==> (step matches OpenTradeStep::Next(s, TradeRequest::Send(o))
                && s.config == self.config && s.next == 0 && s.phase is AwaitingOrder && s.wf()
                && s.confirmed@ == Seq::<OrderRole>::empty()
                && is_order_for(o, self.config, self.plan()[0])),
    {
        match answer {
            Err(e) => OpenTradeStep::Finished(Err(TradeError::Exchange(e))),
            Ok(()) => {
                let role = role_at(&self.config, 0);
                proof { lemma_planned_role_configured(self.config, 0); }
                let order = order_for_role(&self.config, role);
                let OpenTrade { config, next: _, phase: _, confirmed: _ } = self;
                let s = OpenTrade { config, next: 0, phase: OpenTradePhase::AwaitingOrder, confirmed: Ghost(Seq::empty()) };
                assert(s.plan().take(0) =~= Seq::<OrderRole>::empty());
                OpenTradeStep::Next(s, TradeRequest::Send(order))
            }
        }
    }

    /// Takes the answer to the order that is out: "placed" sends the next
    /// order of the plan or, after the entry, finishes with the trade; any
    /// other status cancels every order of the symbol before failing; an
    /// exchange error fails at once.
    pub fn on_order_answer(self, answer: Result<String, String>) -> (step: OpenTradeStep<N>)
        requires
            self.wf(),
            self.phase is AwaitingOrder,
        ensures
            (match answer {
                Err(e) => step == OpenTradeStep::<N>::Finished(Err(TradeError::Exchange(e))),
                Ok(status) => if status@ != "placed"@ {
                    step matches OpenTradeStep::Next(s, TradeRequest::CancelAll { symbol })
                    && symbol@ == self.config.symbol@
                    && s.config == self.config && s.next == self.next && s.wf()
                    && s.phase == OpenTradePhase::AwaitingCleanup(rejection(self.plan()[self.next as int], status))
                } else if self.next + 1 < self.plan().len() {
                    step matches OpenTradeStep::Next(s, TradeRequest::Send(o))
                    && s.config == self.config && s.next == self.next + 1 && s.phase is AwaitingOrder && s.wf()
                    && s.confirmed@ == self.confirmed@.push(self.plan()[self.next as int])
                    && is_order_for(o, self.config, self.plan()[self.next + 1])
                } else {
                    step matches OpenTradeStep::Finished(Ok(t)) && is_trade_of(t, self.config)
                    && self.confirmed@.push(OrderRole::Entry) == self.plan()
                },
            }),
    {
        match answer {
            Err(e) => OpenTradeStep::Finished(Err(TradeError::Exchange(e))),
            Ok(status) => {
                let role = role_at(&self.config, self.next);
                let placed = str_eq(status.as_str(), placed_text());
                if !placed {
                    let symbol = self.config.symbol.clone();
                    let failure = match role {
                        OrderRole::StopLoss => TradeError::StopLossRejected(status),
                        OrderRole::TakeProfit => TradeError::TakeProfitRejected(status),
                        OrderRole::Entry => TradeError::EntryRejected(status),
                    };
                    let OpenTrade { config, next, phase: _, confirmed } = self;
                    OpenTradeStep::Next(
                        OpenTrade { config, next, phase: OpenTradePhase::AwaitingCleanup(failure), confirmed },
                        TradeRequest::CancelAll { symbol },
                    )
                } else if self.next + 1 < planned_len(&self.config) {
                    let k = self.next + 1;
                    let next_role = role_at(&self.config, k);
                    proof { lemma_planned_role_configured(self.config, k as int); }
                    let order = order_for_role(&self.config, next_role);
                    let ghost confirmed = self.confirmed@.push(role);
                    let OpenTrade { config, next: _, phase: _, confirmed: _ } = self;
                    let s = OpenTrade { config, next: k, phase: OpenTradePhase::AwaitingOrder, confirmed: Ghost(confirmed) };
                    assert(s.plan().take(k as int) =~= s.plan().take(k - 1).push(role));
                    OpenTradeStep::Next(s, TradeRequest::Send(order))
                } else {
                    assert(self.plan().take(self.next as int).push(OrderRole::Entry) =~= self.plan());
                    let entry = build_entry_order(&self.config);
                    let stop_loss = build_stop_order(&self.config);
                    let take_profit = build_take_profit_order(&self.config);
                    let OpenTrade { config, next: _, phase: _, confirmed: _ } = self;
                    OpenTradeStep::Finished(Ok(Trade { config, entry, stop_loss, take_profit }))
                }
            }
        }
    }

    /// Takes the answer to the cancellation after a rejected order: opening
    /// fails with the rejection, whether or not the cancellation succeeded.
    pub fn on_cleanup_done(self, answer: Result<(), String>) -> (step: OpenTradeStep<N>)
        requires
            self.wf(),
            self.phase is AwaitingCleanup,
        ensures
            self.phase matches OpenTradePhase::AwaitingCleanup(failure)
                && step == OpenTradeStep::<N>::Finished(Err(failure)),
    {
        let OpenTrade { config: _, next: _, phase, confirmed: _ } = self;
        match phase {
            OpenTradePhase::AwaitingCleanup(failure) => OpenTradeStep::Finished(Err(failure)),
            _ => {
                assert(false);
                OpenTradeStep::Finished(Err(TradeError::Exchange(String::new())))
            }
        }
    }
}

/// The entry order is placed last: every order before it in the plan is a
/// protective order, and the plan holds a stop-loss (take-profit) exactly
/// when the configuration has one.
pub proof fn lemma_entry_placed_last<N>(c: TradeConfig<N>)
    ensures
        planned_roles(c).last() == OrderRole::Entry,
        forall|k: int| 0 <= k < planned_roles(c).len() - 1 ==> planned_roles(c)[k] != OrderRole::Entry,
        planned_roles(c).drop_last() == protective_roles(c),
        protective_roles(c).contains(OrderRole::StopLoss) <==> c.stop_loss is Some,
        protective_roles(c).contains(OrderRole::TakeProfit) <==> c.take_profit is Some,
{
    assert(planned_roles(c).drop_last() =~= protective_roles(c));
    if c.stop_loss is Some {
        assert(protective_roles(c)[0] == OrderRole::StopLoss);
    }
    if c.take_profit is Some {
        assert(protective_roles(c)[protective_roles(c).len() - 1] == OrderRole::TakeProfit);
    }
}


/// `o` is the order that closes a position of `symbol` held on the side whose
/// exchange word is `position_side`: a reduce-only market order on the other
/// side, of `size`.
pub open spec fn is_close_order<N>(o: SendOrder<N>, symbol: Seq<char>, position_side: Seq<char>, size: N) -> bool {
    &&& o.order_type@ == "mkt"@
    &&& o.symbol@ == symbol
    &&& (position_side == "long"@ ==> o.side@ == "sell"@)
    &&& (position_side == "short"@ ==> o.side@ == "buy"@)
    &&& o.size == size
    &&& o.limit_price is None
    &&& o.stop_price is None
    &&& o.trigger_signal is None
    &&& o.reduce_only == Some(true)
    &&& o.cli_ord_id is None
}

/// Where closing a position stands.
#[derive(Debug, Clone, Copy, PartialEq, Eq, Structural)]
pub enum CloseTradePhase {
    /// The closing order is out.
    AwaitingClose,
    /// The closing order was placed; the cancellation of the symbol's other
    /// orders is out.
    AwaitingCleanup,
}

/// Closing a position: a reduce-only market order on the other side, then the
/// cancellation of every remaining order of the symbol.
#[derive(Debug)]
pub struct CloseTrade {
    pub symbol: String,
    pub phase: CloseTradePhase,
}

/// What closing a position does next.
#[derive(Debug)]
pub enum CloseTradeStep<N> {
    /// Make this request and hand its answer to the state.
    Next(CloseTrade, TradeRequest<N>),
    /// Closing is over.
    Finished(Result<(), TradeError>),
}

impl CloseTrade {
    /// Starts closing `position`; `size` is the absolute size of the position.
    /// A side other than "long" or "short" fails at once.
    pub fn start<N: Copy>(position: &OpenPosition<N>, size: N) -> (r: Result<(CloseTrade, TradeRequest<N>), TradeError>)
        ensures
            (match r {
                Ok((s, req)) => {
                    &&& position.side@ == "long"@ || position.side@ == "short"@
                    &&& s.symbol@ == position.symbol@
                    &&& s.phase == CloseTradePhase::AwaitingClose
                    &&& req matches TradeRequest::Send(o) && is_close_order(o, position.symbol@, position.side@, size)
                },
                Err(e) => {
                    &&& position.side@ != "long"@
                    &&& position.side@ != "short"@
                    &&& e matches TradeError::UnknownPositionSide(side) && side@ == position.side@
                },
            }),
    {
        proof {
            reveal_strlit("long");
            reveal_strlit("short");
            reveal_strlit("buy");
            reveal_strlit("sell");
        }
        let close_side: &str = if str_eq(position.side.as_str(), "long") {
            "sell"
        } else if str_eq(position.side.as_str(), "short") {
            "buy"
        } else {
            return Err(TradeError::UnknownPositionSide(position.side.clone()));
        };
        assert("long"@.len() != "short"@.len());
        assert(position.side@ == "long"@ ==> close_side@ == "sell"@);
        assert(position.side@ == "short"@ ==> close_side@ == "buy"@);
        let order = SendOrder {
            order_type: String::from_str("mkt"),
            symbol: position.symbol.clone(),
            side: String::from_str(close_side),
            size,
            limit_price: None,
            stop_price: None,
            trigger_signal: None,
            reduce_only: Some(true),
            cli_ord_id: None,
        };
        Ok((CloseTrade { symbol: position.symbol.clone(), phase: CloseTradePhase::AwaitingClose }, TradeRequest::Send(order)))
    }

    /// Takes the answer to the closing order: "placed" goes on to cancel the
    /// symbol's remaining orders; any other status, or an exchange error, fails.
    pub fn on_order_answer<N>(self, answer: Result<String, String>) -> (step: CloseTradeStep<N>)
        requires
            self.phase == CloseTradePhase::AwaitingClose,
        ensures
            (match answer {
                Err(e) => step == CloseTradeStep::<N>::Finished(Err(TradeError::Exchange(e))),
                Ok(status) => if status@ == "placed"@ {
                    step matches CloseTradeStep::Next(s, TradeRequest::CancelAll { symbol })
                    && symbol@ == self.symbol@ && s.symbol == self.symbol
                    && s.phase == CloseTradePhase::AwaitingCleanup
                } else {
                    step == CloseTradeStep::<N>::Finished(Err(TradeError::CloseRejected(status)))
                },
            }),
    {
        match answer {
            Err(e) => CloseTradeStep::Finished(Err(TradeError::Exchange(e))),
            Ok(status) => {
                if str_eq(status.as_str(), placed_text()) {
                    let symbol = self.symbol.clone();
                    CloseTradeStep::Next(CloseTrade { symbol: self.symbol, phase: CloseTradePhase::AwaitingCleanup }, TradeRequest::CancelAll { symbol })
                } else {
                    CloseTradeStep::Finished(Err(TradeError::CloseRejected(status)))
                }
            }
        }
    }

    /// Takes the answer to the cancellation: the position is closed whether or
    /// not the cancellation succeeded.
    pub fn on_cleanup_done<N>(self, answer: Result<(), String>) -> (step: CloseTradeStep<N>)
        requires
            self.phase == CloseTradePhase::AwaitingCleanup,
        ensures
            step == CloseTradeStep::<N>::Finished(Ok(())),
    {
        CloseTradeStep::Finished(Ok(()))
    }
}

/// What an advice asks of the current position.
#[derive(Debug, Clone, Copy, PartialEq, Eq, Structural)]
pub enum PositionPlan {
    /// The advice is to hold: nothing is done.
    Hold,
    /// The position already lies on the advised side: nothing is done.
    KeepPosition,
    /// There is no position: open one.
    Open,
    /// The position lies on another side: close it, then open one.
    CloseThenOpen,
}

/// The position side that an advice aims for.
pub open spec fn desired_side_text(a: Action) -> Seq<char> {
    match a {
        Action::Buy => "long"@,
        Action::Sell => "short"@,
        Action::Hold => Seq::empty(),
    }
}

/// Buying aims for a long position and selling for a short one, and a
/// closing order sells a long position and buys back a short one.
pub proof fn lemma_position_sides<N>(o: SendOrder<N>, symbol: Seq<char>, size: N)
    ensures
        desired_side_text(Action::Buy) == "long"@,
        desired_side_text(Action::Sell) == "short"@,
        desired_side_text(Action::Buy) != desired_side_text(Action::Sell),
        is_close_order(o, symbol, "long"@, size) ==> o.side@ == "sell"@ && o.reduce_only == Some(true),
        is_close_order(o, symbol, "short"@, size) ==> o.side@ == "buy"@ && o.reduce_only == Some(true),
{
    reveal_strlit("long");
    reveal_strlit("short");
    assert(desired_side_text(Action::Buy)[0] != desired_side_text(Action::Sell)[0]);
}

/// The plan for `action` given the current position's side, if any.
pub open spec fn position_plan(action: Action, current_side: Option<Seq<char>>) -> PositionPlan {
    if action == Action::Hold {
        PositionPlan::Hold
    } else {
        match current_side {
            None => PositionPlan::Open,
            Some(side) => if side == desired_side_text(action) {
                PositionPlan::KeepPosition
            } else {
                PositionPlan::CloseThenOpen
            },
        }
    }
}

/// Decides what to do with the current position for `action`.
pub fn plan_position<N>(action: Action, current: Option<&OpenPosition<N>>) -> (p: PositionPlan)
    ensures
        p == position_plan(action, match current { Some(pos) => Some(pos.side@), None => None }),
{
    match action {
        Action::Hold => PositionPlan::Hold,
        Action::Buy | Action::Sell => match current {
            None => PositionPlan::Open,
            Some(pos) => {
                let wanted: &str = if action == Action::Buy { "long" } else { "short" };
                if str_eq(pos.side.as_str(), wanted) {
                    PositionPlan::KeepPosition
                } else {
                    PositionPlan::CloseThenOpen
                }
            }
        },
    }
}

/// The first position of `symbol` among `positions`, if there is one.
pub fn select_position<N>(positions: Vec<OpenPosition<N>>, symbol: &str) -> (r: Option<OpenPosition<N>>)
    ensures
        (match r {
            None => forall|i: int| 0 <= i < positions@.len() ==> positions@[i].symbol@ != symbol@,
            Some(p) => exists|i: int| 0 <= i < positions@.len() && positions@[i] == p
                && p.symbol@ == symbol@
                && forall|j: int| 0 <= j < i ==> positions@[j].symbol@ != symbol@,
        }),
{
    match first_position_index(&positions, symbol) {
        None => None,
        Some(i) => {
            let mut rest = positions;
            let p = rest.remove(i);
            Some(p)
        }
    }
}

/// The index of the first position of `symbol`, if there is one.
fn first_position_index<N>(positions: &Vec<OpenPosition<N>>, symbol: &str) -> (r: Option<usize>)
    ensures
        (match r {
            None => forall|i: int| 0 <= i < positions@.len() ==> positions@[i].symbol@ != symbol@,
            Some(i) => i < positions@.len() && positions@[i as int].symbol@ == symbol@
                && forall|j: int| 0 <= j < i ==> positions@[j].symbol@ != symbol@,
        }),
{
    let mut i: usize = 0;
    while i < positions.len()
        invariant
            i <= positions@.len(),
            forall|j: int| 0 <= j < i ==> positions@[j].symbol@ != symbol@,
        decreases positions@.len() - i,
    {
        if str_eq(positions[i].symbol.as_str(), symbol) {
            return Some(i);
        }
        i += 1;
    }
    None
}

/// A position that already lies on the advised side is left alone, holding
/// never trades, and a position on any other side is closed before a new one
/// is opened.
pub proof fn lemma_aligned_position_untouched(action: Action, side: Seq<char>)
    ensures
        action == Action::Hold ==> position_plan(action, Some(side)) == PositionPlan::Hold
            && position_plan(action, None) == PositionPlan::Hold,
        action == Action::Buy && side == "long"@ ==> position_plan(action, Some(side)) == PositionPlan::KeepPosition,
        action == Action::Sell && side == "short"@ ==> position_plan(action, Some(side)) == PositionPlan::KeepPosition,
        action != Action::Hold && side != desired_side_text(action) ==>
            position_plan(action, Some(side)) == PositionPlan::CloseThenOpen,
        action != Action::Hold ==> position_plan(action, None) == PositionPlan::Open,
{
}

} // verus!
