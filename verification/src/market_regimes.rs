use vstd::prelude::*;
use vstd::string::StringExecFns;

verus! {

/// Direction and strength of the prevailing trend.
#[derive(Debug, Clone, Copy, PartialEq, Eq, Structural)]
pub enum TrendStrength {
    StrongUp,
    WeakUp,
    Ranging,
    WeakDown,
    StrongDown,
}

/// Volatility regime.
#[derive(Debug, Clone, Copy, PartialEq, Eq, Structural)]
pub enum Volatility {
    Low,
    Normal,
    High,
}

/// Order-book liquidity regime.
#[derive(Debug, Clone, Copy, PartialEq, Eq, Structural)]
pub enum Liquidity {
    Low,
    Medium,
    High,
}

/// Bollinger-band squeeze regime.
#[derive(Debug, Clone, Copy, PartialEq, Eq, Structural)]
pub enum Squeeze {
    StrongSqueeze,
    Normal,
    Expansion,
}

/// The technical regimes of a market at one moment.
#[derive(Debug, Clone, Copy)]
pub struct MarketRegimes {
    pub trend: TrendStrength,
    pub volatility: Volatility,
    pub liquidity: Liquidity,
    pub squeeze: Squeeze,
    pub price_above_ema200: bool,
    pub rsi_oversold: bool,
    pub rsi_overbought: bool,
}

pub open spec fn trend_text(t: TrendStrength) -> Seq<char> {
    match t {
        TrendStrength::StrongUp => "StrongUp"@,
        TrendStrength::WeakUp => "WeakUp"@,
        TrendStrength::Ranging => "Ranging"@,
        TrendStrength::WeakDown => "WeakDown"@,
        TrendStrength::StrongDown => "StrongDown"@,
    }
}

pub open spec fn volatility_text(v: Volatility) -> Seq<char> {
    match v {
        Volatility::Low => "Low"@,
        Volatility::Normal => "Normal"@,
        Volatility::High => "High"@,
    }
}

pub open spec fn liquidity_text(l: Liquidity) -> Seq<char> {
    match l {
        Liquidity::Low => "Low"@,
        Liquidity::Medium => "Medium"@,
        Liquidity::High => "High"@,
    }
}

pub open spec fn squeeze_text(s: Squeeze) -> Seq<char> {
    match s {
        Squeeze::StrongSqueeze => "StrongSqueeze"@,
        Squeeze::Normal => "Normal"@,
        Squeeze::Expansion => "Expansion"@,
    }
}

pub open spec fn bool_text(b: bool) -> Seq<char> {
    if b { "true"@ } else { "false"@ }
}

/// The report handed to the regime interpreter: one line per regime.
pub open spec fn summary_text(r: MarketRegimes) -> Seq<char> {
    "Current market regimes:\n- Trend Strength: "@ + trend_text(r.trend)
        + "\n- Volatility: "@ + volatility_text(r.volatility)
        + "\n- Liquidity: "@ + liquidity_text(r.liquidity)
        + "\n- Squeeze: "@ + squeeze_text(r.squeeze)
        + "\n- Price > EMA200: "@ + bool_text(r.price_above_ema200)
        + "\n- RSI oversold: "@ + bool_text(r.rsi_oversold)
        + "\n- RSI overbought: "@ + bool_text(r.rsi_overbought)
}

fn trend_str(t: TrendStrength) -> (s: &'static str)
    ensures s@ == trend_text(t),
{
    match t {
        TrendStrength::StrongUp => "StrongUp",
        TrendStrength::WeakUp => "WeakUp",
        TrendStrength::Ranging => "Ranging",
        TrendStrength::WeakDown => "WeakDown",
        TrendStrength::StrongDown => "StrongDown",
    }
}

fn volatility_str(v: Volatility) -> (s: &'static str)
    ensures s@ == volatility_text(v),
{
    match v {
        Volatility::Low => "Low",
        Volatility::Normal => "Normal",
        Volatility::High => "High",
    }
}

fn liquidity_str(l: Liquidity) -> (s: &'static str)
    ensures s@ == liquidity_text(l),
{
    match l {
        Liquidity::Low => "Low",
        Liquidity::Medium => "Medium",
        Liquidity::High => "High",
    }
}

fn squeeze_str(q: Squeeze) -> (s: &'static str)
    ensures s@ == squeeze_text(q),
{
    match q {
        Squeeze::StrongSqueeze => "StrongSqueeze",
        Squeeze::Normal => "Normal",
        Squeeze::Expansion => "Expansion",
    }
}

fn bool_str(b: bool) -> (s: &'static str)
    ensures s@ == bool_text(b),
{
    if b { "true" } else { "false" }
}

impl MarketRegimes {
    /// Renders the regimes as the multi-line report sent to the interpreter.
    pub fn summary(&self) -> (s: String)
        ensures s@ == summary_text(*self),
    {
        let mut s = String::from_str("Current market regimes:\n- Trend Strength: ");
        s.append(trend_str(self.trend));
        s.append("\n- Volatility: ");
        s.append(volatility_str(self.volatility));
        s.append("\n- Liquidity: ");
        s.append(liquidity_str(self.liquidity));
        s.append("\n- Squeeze: ");
        s.append(squeeze_str(self.squeeze));
        s.append("\n- Price > EMA200: ");
        s.append(bool_str(self.price_above_ema200));
        s.append("\n- RSI oversold: ");
        s.append(bool_str(self.rsi_oversold));
        s.append("\n- RSI overbought: ");
        s.append(bool_str(self.rsi_overbought));
        s
    }
}

/// Each regime is reported under its variant's own name, so that different
/// levels of one regime always read differently in the report.
pub proof fn lemma_regime_names_distinct(
    t1: TrendStrength,
    t2: TrendStrength,
    v1: Volatility,
    v2: Volatility,
    l1: Liquidity,
    l2: Liquidity,
    q1: Squeeze,
    q2: Squeeze,
    b1: bool,
    b2: bool,
)
    ensures
        trend_text(TrendStrength::StrongUp) == "StrongUp"@,
        trend_text(TrendStrength::WeakUp) == "WeakUp"@,
        trend_text(TrendStrength::Ranging) == "Ranging"@,
        trend_text(TrendStrength::WeakDown) == "WeakDown"@,
        trend_text(TrendStrength::StrongDown) == "StrongDown"@,
        volatility_text(Volatility::Low) == "Low"@,
        volatility_text(Volatility::Normal) == "Normal"@,
        volatility_text(Volatility::High) == "High"@,
        liquidity_text(Liquidity::Low) == "Low"@,
        liquidity_text(Liquidity::Medium) == "Medium"@,
        liquidity_text(Liquidity::High) == "High"@,
        squeeze_text(Squeeze::StrongSqueeze) == "StrongSqueeze"@,
        squeeze_text(Squeeze::Normal) == "Normal"@,
        squeeze_text(Squeeze::Expansion) == "Expansion"@,
        bool_text(true) == "true"@,
        bool_text(false) == "false"@,
        trend_text(t1) == trend_text(t2) ==> t1 == t2,
        volatility_text(v1) == volatility_text(v2) ==> v1 == v2,
        liquidity_text(l1) == liquidity_text(l2) ==> l1 == l2,
        squeeze_text(q1) == squeeze_text(q2) ==> q1 == q2,
        bool_text(b1) == bool_text(b2) ==> b1 == b2,
{
    reveal_strlit("StrongUp");
    reveal_strlit("WeakUp");
    reveal_strlit("Ranging");
    reveal_strlit("WeakDown");
    reveal_strlit("StrongDown");
    reveal_strlit("Low");
    reveal_strlit("Normal");
    reveal_strlit("High");
    reveal_strlit("Medium");
    reveal_strlit("StrongSqueeze");
    reveal_strlit("Expansion");
    reveal_strlit("true");
    reveal_strlit("false");
    if trend_text(t1) == trend_text(t2) && t1 != t2 {
        assert(trend_text(t1)[0] != trend_text(t2)[0] || trend_text(t1)[4] != trend_text(t2)[4]
            || trend_text(t1).len() != trend_text(t2).len());
    }
    if volatility_text(v1) == volatility_text(v2) && v1 != v2 {
        assert(volatility_text(v1)[0] != volatility_text(v2)[0]);
    }
    if liquidity_text(l1) == liquidity_text(l2) && l1 != l2 {
        assert(liquidity_text(l1)[0] != liquidity_text(l2)[0]);
    }
    if squeeze_text(q1) == squeeze_text(q2) && q1 != q2 {
        assert(squeeze_text(q1)[0] != squeeze_text(q2)[0]);
    }
    if bool_text(b1) == bool_text(b2) && b1 != b2 {
        assert(bool_text(b1)[0] != bool_text(b2)[0]);
    }
}

} // verus!
