use vstd::prelude::*;
use vstd::string::StringExecFns;
use vstd::string::StrSliceExecFns;

use crate::text::{contains_seq, contains_str, joined, join_strings, lowercase_text, str_eq, to_lowercase};

verus! {

/// A prediction-market event with its markets; `N` is the numeric type of
/// volumes.
#[derive(Debug)]
pub struct PolymarketEvent<N> {
    pub title: Option<String>,
    pub volume_24hr: Option<N>,
    pub tags: Vec<PolymarketTag>,
    pub markets: Vec<PolymarketMarket<N>>,
}

/// A label attached to an event.
#[derive(Debug)]
pub struct PolymarketTag {
    pub label: Option<String>,
}

/// One market of an event: its question, the outcome prices as JSON text
/// (the "Yes" price first), the day's volume and whether it is open.
#[derive(Debug)]
pub struct PolymarketMarket<N> {
    pub question: Option<String>,
    pub outcome_prices: Option<String>,
    pub volume_24hr: Option<N>,
    pub active: Option<bool>,
    pub closed: Option<bool>,
}

/// The topics that make an event relevant to crypto trading.
pub open spec fn mentions_crypto(lowered: Seq<char>) -> bool {
    ||| contains_seq(lowered, "bitcoin"@)
    ||| contains_seq(lowered, "btc"@)
    ||| contains_seq(lowered, "crypto"@)
    ||| contains_seq(lowered, "eth"@)
    ||| contains_seq(lowered, "ethereum"@)
    ||| contains_seq(lowered, "fed"@)
    ||| contains_seq(lowered, "macro"@)
}

/// An event is relevant when its lowercased title (empty if missing) mentions
/// one of the topics.
pub open spec fn is_relevant_title(title: Option<String>) -> bool {
    mentions_crypto(lowercase_text(match title {
        Some(t) => t@,
        None => Seq::empty(),
    }))
}

/// An event is relevant exactly when its lowercased title mentions bitcoin,
/// btc, crypto, eth, ethereum, fed or macro; each of these alone makes it
/// relevant.
pub proof fn lemma_relevant_title_keywords(title: String)
    ensures
        contains_seq(lowercase_text(title@), "bitcoin"@) ==> is_relevant_title(Some(title)),
        contains_seq(lowercase_text(title@), "btc"@) ==> is_relevant_title(Some(title)),
        contains_seq(lowercase_text(title@), "crypto"@) ==> is_relevant_title(Some(title)),
        contains_seq(lowercase_text(title@), "eth"@) ==> is_relevant_title(Some(title)),
        contains_seq(lowercase_text(title@), "ethereum"@) ==> is_relevant_title(Some(title)),
        contains_seq(lowercase_text(title@), "fed"@) ==> is_relevant_title(Some(title)),
        contains_seq(lowercase_text(title@), "macro"@) ==> is_relevant_title(Some(title)),
        is_relevant_title(Some(title)) ==> {
            let t = lowercase_text(title@);
            contains_seq(t, "bitcoin"@) || contains_seq(t, "btc"@) || contains_seq(t, "crypto"@)
                || contains_seq(t, "eth"@) || contains_seq(t, "ethereum"@) || contains_seq(t, "fed"@)
                || contains_seq(t, "macro"@)
        },
{
}

/// A market is open when it is marked active and marked not closed.
pub open spec fn is_open_market<N>(m: PolymarketMarket<N>) -> bool {
    m.active == Some(true) && m.closed == Some(false)
}

/// The open markets among `ms`, in order.
pub open spec fn open_markets<N>(ms: Seq<PolymarketMarket<N>>) -> Seq<PolymarketMarket<N>>
    decreases ms.len(),
{
    if ms.len() == 0 {
        Seq::empty()
    } else if is_open_market(ms.last()) {
        open_markets(ms.drop_last()).push(ms.last())
    } else {
        open_markets(ms.drop_last())
    }
}

/// An event's title, volume, tags and markets.
pub open spec fn event_parts<N>(e: PolymarketEvent<N>) -> (Option<String>, Option<N>, Seq<PolymarketTag>, Seq<PolymarketMarket<N>>) {
    (e.title, e.volume_24hr, e.tags@, e.markets@)
}

/// The relevant events among `events` that have open markets, each reduced to
/// its open markets, in order.
pub open spec fn relevant_parts<N>(events: Seq<PolymarketEvent<N>>) -> Seq<(Option<String>, Option<N>, Seq<PolymarketTag>, Seq<PolymarketMarket<N>>)>
    decreases events.len(),
{
    if events.len() == 0 {
        Seq::empty()
    } else {
        let e = events.last();
        let open = open_markets(e.markets@);
        if is_relevant_title(e.title) && open.len() > 0 {
            relevant_parts(events.drop_last()).push((e.title, e.volume_24hr, e.tags@, open))
        } else {
            relevant_parts(events.drop_last())
        }
    }
}

/// Keeping the open markets keeps exactly the markets marked active and not
/// closed: every kept market is one of the given ones and is open, every
/// open market given is kept, and nothing else is added.
pub proof fn lemma_open_markets<N>(ms: Seq<PolymarketMarket<N>>)
    ensures
        open_markets(ms).len() <= ms.len(),
        forall|i: int| 0 <= i < open_markets(ms).len() ==> {
            let m = #[trigger] open_markets(ms)[i];
            &&& m.active == Some(true)
            &&& m.closed == Some(false)
            &&& ms.contains(m)
        },
        forall|i: int| 0 <= i < ms.len() && ms[i].active == Some(true) && ms[i].closed == Some(false)
            ==> open_markets(ms).contains(#[trigger] ms[i]),
    decreases ms.len(),
{
    if ms.len() > 0 {
        let init = ms.drop_last();
        lemma_open_markets(init);
        assert forall|i: int| 0 <= i < open_markets(ms).len() implies {
            let m = #[trigger] open_markets(ms)[i];
            &&& m.active == Some(true)
            &&& m.closed == Some(false)
            &&& ms.contains(m)
        } by {
            let m = open_markets(ms)[i];
            if i < open_markets(init).len() {
                assert(m == open_markets(init)[i]);
                let j = choose|j: int| 0 <= j < init.len() && init[j] == m;
                assert(ms[j] == m);
            } else {
                assert(m == ms.last());
                assert(ms[ms.len() - 1] == m);
            }
        }
        assert forall|i: int| 0 <= i < ms.len() && ms[i].active == Some(true) && ms[i].closed == Some(false)
            implies open_markets(ms).contains(#[trigger] ms[i]) by {
            if i < ms.len() - 1 {
                assert(init[i] == ms[i]);
                let j = choose|j: int| 0 <= j < open_markets(init).len() && open_markets(init)[j] == init[i];
                assert(open_markets(ms)[j] == ms[i]);
            } else {
                assert(open_markets(ms).last() == ms[i]);
                assert(open_markets(ms)[open_markets(ms).len() - 1] == ms[i]);
            }
        }
    }
}

/// The events kept for the sentiment report are exactly the relevant events
/// with at least one open market: each kept entry has a relevant title and a
/// nonempty list of open markets taken from one of the given events, and
/// every such event is kept.
pub proof fn lemma_relevant_parts<N>(events: Seq<PolymarketEvent<N>>)
    ensures
        relevant_parts(events).len() <= events.len(),
        forall|i: int| 0 <= i < relevant_parts(events).len() ==> {
            let p = #[trigger] relevant_parts(events)[i];
            &&& is_relevant_title(p.0)
            &&& p.3.len() > 0
            &&& exists|j: int| 0 <= j < events.len() && events[j].title == p.0 && p.3 == open_markets(events[j].markets@)
        },
        forall|j: int| 0 <= j < events.len() && is_relevant_title(events[j].title)
            && open_markets(events[j].markets@).len() > 0
            ==> relevant_parts(events).contains(
                (events[j].title, events[j].volume_24hr, events[j].tags@, open_markets((#[trigger] events[j]).markets@)),
            ),
    decreases events.len(),
{
    if events.len() > 0 {
        let init = events.drop_last();
        let e = events.last();
        lemma_relevant_parts(init);
        assert forall|i: int| 0 <= i < relevant_parts(events).len() implies {
            let p = #[trigger] relevant_parts(events)[i];
            &&& is_relevant_title(p.0)
            &&& p.3.len() > 0
            &&& exists|j: int| 0 <= j < events.len() && events[j].title == p.0 && p.3 == open_markets(events[j].markets@)
        } by {
            let p = relevant_parts(events)[i];
            if i < relevant_parts(init).len() {
                assert(p == relevant_parts(init)[i]);
                let j = choose|j: int| 0 <= j < init.len() && init[j].title == p.0 && p.3 == open_markets(init[j].markets@);
                assert(events[j] == init[j]);
            } else {
                assert(events[events.len() - 1] == e);
            }
        }
        assert forall|j: int| 0 <= j < events.len() && is_relevant_title(events[j].title)
            && open_markets(events[j].markets@).len() > 0
            implies relevant_parts(events).contains(
                (events[j].title, events[j].volume_24hr, events[j].tags@, open_markets((#[trigger] events[j]).markets@)),
            ) by {
            let q = (events[j].title, events[j].volume_24hr, events[j].tags@, open_markets(events[j].markets@));
            if j < events.len() - 1 {
                assert(init[j] == events[j]);
                let k = choose|k: int| 0 <= k < relevant_parts(init).len() && relevant_parts(init)[k] == q;
                assert(relevant_parts(events)[k] == q);
            } else {
                assert(e == events[j]);
                assert(relevant_parts(events)[relevant_parts(events).len() - 1] == q);
            }
        }
    }
}

/// Whether `title` makes an event relevant.
pub fn title_is_relevant(title: &Option<String>) -> (b: bool)
    ensures
        b == is_relevant_title(*title),
{
    let lowered = match title {
        Some(t) => to_lowercase(t.as_str()),
        None => to_lowercase(""),
    };
    proof {
        reveal_strlit("");
    }
    assert(title.is_none() ==> ""@ == Seq::<char>::empty());
    let s = lowered.as_str();
    contains_str(s, "bitcoin") || contains_str(s, "btc") || contains_str(s, "crypto")
        || contains_str(s, "eth") || contains_str(s, "ethereum") || contains_str(s, "fed")
        || contains_str(s, "macro")
}

/// Keeps the open markets, in order.
pub fn keep_open_markets<N>(markets: Vec<PolymarketMarket<N>>) -> (r: Vec<PolymarketMarket<N>>)
    ensures
        r@ == open_markets(markets@),
{
    let ghost all = markets@;
    let mut rest = markets;
    let total = rest.len();
    let mut kept: Vec<PolymarketMarket<N>> = Vec::new();
    let mut k: usize = 0;
    while rest.len() > 0
        invariant
            all.len() == total,
            k + rest@.len() == all.len(),
            rest@ == all.subrange(k as int, all.len() as int),
            kept@ == open_markets(all.subrange(0, k as int)),
        decreases rest@.len(),
    {
        let m = rest.remove(0);
        assert(all.subrange(0, k + 1).drop_last() =~= all.subrange(0, k as int));
        assert(all.subrange(0, k + 1).last() == m);
        let open = match (m.active, m.closed) {
            (Some(true), Some(false)) => true,
            _ => false,
        };
        if open {
            kept.push(m);
        }
        k = k + 1;
        assert(rest@ =~= all.subrange(k as int, all.len() as int));
    }
    assert(all.subrange(0, all.len() as int) =~= all);
    kept
}

/// The relevant events that still have open markets, each reduced to its open
/// markets, in their original order.
pub fn relevant_events<N>(events: Vec<PolymarketEvent<N>>) -> (r: Vec<PolymarketEvent<N>>)
    ensures
        r@.map_values(|e: PolymarketEvent<N>| event_parts(e)) == relevant_parts(events@),
{
    let ghost all = events@;
    let mut rest = events;
    let total = rest.len();
    let mut kept: Vec<PolymarketEvent<N>> = Vec::new();
    let mut k: usize = 0;
    while rest.len() > 0
        invariant
            all.len() == total,
            k + rest@.len() == all.len(),
            rest@ == all.subrange(k as int, all.len() as int),
            kept@.map_values(|e: PolymarketEvent<N>| event_parts(e)) == relevant_parts(all.subrange(0, k as int)),
        decreases rest@.len(),
    {
        let e = rest.remove(0);
        assert(all.subrange(0, k + 1).drop_last() =~= all.subrange(0, k as int));
        assert(all.subrange(0, k + 1).last() == e);
        let relevant = title_is_relevant(&e.title);
        let PolymarketEvent { title, volume_24hr, tags, markets } = e;
        let open = keep_open_markets(markets);
        if relevant && open.len() > 0 {
            let ghost before = kept@;
            kept.push(PolymarketEvent { title, volume_24hr, tags, markets: open });
            assert(kept@.map_values(|e: PolymarketEvent<N>| event_parts(e))
                =~= before.map_values(|e: PolymarketEvent<N>| event_parts(e)).push(event_parts(kept@.last())));
        }
        k = k + 1;
        assert(rest@ =~= all.subrange(k as int, all.len() as int));
    }
    assert(all.subrange(0, all.len() as int) =~= all);
    kept
}

/// What `serde_json::from_str::<Vec<String>>` reads from `text`: the list of
/// strings, or nothing when the text is not a JSON array of strings.
pub uninterp spec fn json_string_list(text: Seq<char>) -> Option<Seq<Seq<char>>>;

/// Calls `serde_json::from_str::<Vec<String>>`. Claimed: the result is
/// `json_string_list` of the text.
#[verifier::external_body]
fn parse_string_list(text: &str) -> (r: Option<Vec<String>>)
    ensures
        (match r {
            Some(v) => json_string_list(text@) == Some(v@.map_values(|s: String| s@)),
            None => json_string_list(text@) is None,
        }),
{
    serde_json::from_str::<Vec<String>>(text).ok()
}

/// The texts of the "Yes" and "No" prices of an outcome-price field: none for
/// a missing, empty or "[]" field, "0.5" each for text that is not a JSON
/// list of strings, else the list's first two entries where present.
pub open spec fn outcome_texts(p: Option<Seq<char>>) -> (Option<Seq<char>>, Option<Seq<char>>) {
    match p {
        Some(s) if s.len() > 0 && s != "[]"@ => match json_string_list(s) {
            Some(list) => (
                if list.len() > 0 { Some(list[0]) } else { None },
                if list.len() > 1 { Some(list[1]) } else { None },
            ),
            None => (Some("0.5"@), Some("0.5"@)),
        },
        _ => (None, None),
    }
}

impl<N> PolymarketMarket<N> {
    /// The texts of the "Yes" and "No" prices; a missing text stands for a
    /// price of one half.
    pub fn outcome_price_texts(&self) -> (r: (Option<String>, Option<String>))
        ensures
            (match r {
                (a, b) => (match a { Some(t) => Some(t@), None => None::<Seq<char>> },
                    match b { Some(t) => Some(t@), None => None::<Seq<char>> })
                    == outcome_texts(match self.outcome_prices { Some(t) => Some(t@), None => None::<Seq<char>> }),
            }),
    {
        proof {
            reveal_strlit("[]");
            reveal_strlit("0.5");
        }
        let s = match &self.outcome_prices {
            Some(s) => s,
            None => return (None, None),
        };
        if s.unicode_len() == 0 || str_eq(s.as_str(), "[]") {
            return (None, None);
        }
        match parse_string_list(s.as_str()) {
            None => (Some(String::from_str("0.5")), Some(String::from_str("0.5"))),
            Some(list) => {
                let first = if list.len() > 0 { Some(list[0].clone()) } else { None };
                let second = if list.len() > 1 { Some(list[1].clone()) } else { None };
                (first, second)
            }
        }
    }
}

/// The first hundred characters of a question.
pub fn question_excerpt(question: &str) -> (s: String)
    ensures
        s@ == question@.subrange(0, if question@.len() < 100 { question@.len() as int } else { 100 }),
{
    let n = question.unicode_len();
    let end = if n < 100 { n } else { 100 };
    String::from_str(question.substring_char(0, end))
}

/// One market's line of the sentiment report: the quoted question, the "Yes"
/// probability and the day's volume, as the texts given.
pub fn sentiment_line(question_text: &str, percent_text: &str, volume_text: &str) -> (s: String)
    ensures
        s@ == "\""@ + question_text@ + "\" ("@ + percent_text@ + "%) vol=$"@ + volume_text@,
{
    let mut s = String::from_str("\"");
    s.append(question_text);
    s.append("\" (");
    s.append(percent_text);
    s.append("%) vol=$");
    s.append(volume_text);
    s
}

/// The sentiment report: the lines joined by " | ", or a notice when there
/// are none.
pub fn sentiment_text(lines: &Vec<String>) -> (s: String)
    ensures
        lines@.len() == 0 ==> s@ == "No relevant Polymarket activity right now"@,
        lines@.len() > 0 ==> s@ == joined(lines@.map_values(|l: String| l@), " | "@),
{
    if lines.len() == 0 {
        String::from_str("No relevant Polymarket activity right now")
    } else {
        join_strings(lines, " | ")
    }
}

/// The name of the sentiment tool.
pub fn polymarket_tool_name() -> (s: &'static str)
    ensures
        s@ == "get_polymarket_sentiment"@,
{
    "get_polymarket_sentiment"
}

} // verus!
