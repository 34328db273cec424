use vstd::prelude::*;

use crate::kraken_types::KrakenFuturesOrderBook;

verus! {

/// One OHLCV candle: opening time (unix seconds) and prices and volume of
/// numeric type `N`.
#[derive(Debug, Clone, Copy)]
pub struct Candle<N> {
    pub time: i64,
    pub open: N,
    pub high: N,
    pub low: N,
    pub close: N,
    pub volume: N,
}

/// Candles stored column by column.
#[derive(Debug, Clone)]
pub struct DataFrame<N> {
    pub timestamp: Vec<i64>,
    pub open: Vec<N>,
    pub high: Vec<N>,
    pub low: Vec<N>,
    pub close: Vec<N>,
    pub volume: Vec<N>,
}

/// `df` holds exactly the candles `candles`, column by column.
pub open spec fn holds_candles<N>(df: DataFrame<N>, candles: Seq<Candle<N>>) -> bool {
    &&& df.timestamp@.len() == candles.len()
    &&& df.open@.len() == candles.len()
    &&& df.high@.len() == candles.len()
    &&& df.low@.len() == candles.len()
    &&& df.close@.len() == candles.len()
    &&& df.volume@.len() == candles.len()
    &&& forall|i: int| 0 <= i < candles.len() ==> {
        &&& #[trigger] df.timestamp@[i] == candles[i].time
        &&& df.open@[i] == candles[i].open
        &&& df.high@[i] == candles[i].high
        &&& df.low@[i] == candles[i].low
        &&& df.close@[i] == candles[i].close
        &&& df.volume@[i] == candles[i].volume
    }
}

fn suffix<X: Copy>(v: &Vec<X>, start: usize) -> (r: Vec<X>)
    requires
        start <= v@.len(),
    ensures
        r@ == v@.subrange(start as int, v@.len() as int),
{
    let mut r: Vec<X> = Vec::new();
    let mut i = start;
    while i < v.len()
        invariant
            start <= i <= v@.len(),
            r@ == v@.subrange(start as int, i as int),
        decreases v@.len() - i,
    {
        r.push(v[i]);
        i += 1;
        assert(r@ =~= v@.subrange(start as int, i as int));
    }
    r
}

impl<N: Copy> DataFrame<N> {
    /// All columns have the same length.
    pub open spec fn wf(&self) -> bool {
        &&& self.open@.len() == self.close@.len()
        &&& self.high@.len() == self.close@.len()
        &&& self.low@.len() == self.close@.len()
        &&& self.volume@.len() == self.close@.len()
        &&& self.timestamp@.len() == self.close@.len()
    }

    /// The frame's rows as candles.
    pub open spec fn rows(&self) -> Seq<Candle<N>> {
        Seq::new(self.close@.len(), |i: int| Candle {
            time: self.timestamp@[i],
            open: self.open@[i],
            high: self.high@[i],
            low: self.low@[i],
            close: self.close@[i],
            volume: self.volume@[i],
        })
    }

    /// The frame of `candles`, in order.
    pub fn from_candles(candles: Vec<Candle<N>>) -> (df: Self)
        ensures
            holds_candles(df, candles@),
            df.wf(),
            df.rows() == candles@,
    {
        let len = candles.len();
        let mut timestamp: Vec<i64> = Vec::with_capacity(len);
        let mut open: Vec<N> = Vec::with_capacity(len);
        let mut high: Vec<N> = Vec::with_capacity(len);
        let mut low: Vec<N> = Vec::with_capacity(len);
        let mut close: Vec<N> = Vec::with_capacity(len);
        let mut volume: Vec<N> = Vec::with_capacity(len);
        for i in 0..len
            invariant
                len == candles@.len(),
                holds_candles(
                    DataFrame { timestamp, open, high, low, close, volume },
                    candles@.subrange(0, i as int),
                ),
        {
            let c = candles[i];
            timestamp.push(c.time);
            open.push(c.open);
            high.push(c.high);
            low.push(c.low);
            close.push(c.close);
            volume.push(c.volume);
        }
        assert(candles@.subrange(0, len as int) =~= candles@);
        let df = DataFrame { timestamp, open, high, low, close, volume };
        assert(df.rows() =~= candles@);
        df
    }

    /// The opening times.
    pub fn timestamp_col(&self) -> (c: &[i64])
        ensures
            c@ == self.timestamp@,
    {
        self.timestamp.as_slice()
    }

    /// The opening prices.
    pub fn open_col(&self) -> (c: &[N])
        ensures
            c@ == self.open@,
    {
        self.open.as_slice()
    }

    /// The high prices.
    pub fn high_col(&self) -> (c: &[N])
        ensures
            c@ == self.high@,
    {
        self.high.as_slice()
    }

    /// The low prices.
    pub fn low_col(&self) -> (c: &[N])
        ensures
            c@ == self.low@,
    {
        self.low.as_slice()
    }

    /// The closing prices.
    pub fn close_col(&self) -> (c: &[N])
        ensures
            c@ == self.close@,
    {
        self.close.as_slice()
    }

    /// The number of rows.
    pub fn len(&self) -> (n: usize)
        ensures
            n == self.close@.len(),
    {
        self.close.len()
    }

    /// Whether the frame has no rows.
    pub fn is_empty(&self) -> (b: bool)
        ensures
            b == (self.close@.len() == 0),
    {
        self.close.len() == 0
    }

    /// The last `n` rows, or all rows if there are fewer.
    pub fn last_n(&self, n: usize) -> (df: DataFrame<N>)
        requires
            self.wf(),
        ensures
            df.wf(),
            df.rows() == self.rows().subrange(
                self.rows().len() - (if n < self.rows().len() { n as int } else { self.rows().len() as int }),
                self.rows().len() as int,
            ),
    {
        let len = self.len();
        let k = if n < len { n } else { len };
        let start = len - k;
        let df = DataFrame {
            timestamp: suffix(&self.timestamp, start),
            open: suffix(&self.open, start),
            high: suffix(&self.high, start),
            low: suffix(&self.low, start),
            close: suffix(&self.close, start),
            volume: suffix(&self.volume, start),
        };
        assert(df.rows() =~= self.rows().subrange(start as int, len as int));
        df
    }
}

/// Taking the last `a` rows and then the last `b` of those is taking the last
/// `min(a, b)` rows; taking as many rows as there are keeps them all.
pub proof fn lemma_last_n_compose<N>(rows: Seq<Candle<N>>, a: nat, b: nat)
    ensures
        ({
            let ka = if a < rows.len() { a as int } else { rows.len() as int };
            let first = rows.subrange(rows.len() - ka, rows.len() as int);
            let kb = if b < first.len() { b as int } else { first.len() as int };
            let m = if a < b { a } else { b };
            let km = if m < rows.len() { m as int } else { rows.len() as int };
            first.subrange(first.len() - kb, first.len() as int) == rows.subrange(rows.len() - km, rows.len() as int)
        }),
        rows.subrange(0, rows.len() as int) == rows,
{
    let ka = if a < rows.len() { a as int } else { rows.len() as int };
    let first = rows.subrange(rows.len() - ka, rows.len() as int);
    let kb = if b < first.len() { b as int } else { first.len() as int };
    let m = if a < b { a } else { b };
    let km = if m < rows.len() { m as int } else { rows.len() as int };
    assert(first.subrange(first.len() - kb, first.len() as int) =~= rows.subrange(rows.len() - km, rows.len() as int));
    assert(rows.subrange(0, rows.len() as int) =~= rows);
}

/// An order book: bids and asks as (price, volume), best first.
#[derive(Debug, Clone)]
pub struct OrderBook<N> {
    pub bids: Vec<(N, N)>,
    pub asks: Vec<(N, N)>,
}

impl<N> Default for OrderBook<N> {
    fn default() -> (b: Self)
        ensures
            b.bids@.len() == 0,
            b.asks@.len() == 0,
    {
        OrderBook { bids: Vec::new(), asks: Vec::new() }
    }
}

impl<N> OrderBook<N> {
    /// The book as the exchange sent it.
    pub fn from_kraken(book: KrakenFuturesOrderBook<N>) -> (b: Self)
        ensures
            b.bids@ == book.bids@,
            b.asks@ == book.asks@,
    {
        OrderBook { bids: book.bids, asks: book.asks }
    }
}

} // verus!
