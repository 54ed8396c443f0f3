//! Aggregation of a daily quote series into its period statistics.

use vstd::prelude::*;

verus! {

/// One trading day's data. Prices (`open`, `high`, `low`, `close`,
/// `adjclose`) are fixed-point, in hundredths of a currency unit.
#[derive(Clone, Copy, Debug, PartialEq, Eq, Structural)]
pub struct Quote {
    pub timestamp: u64,
    pub open: u64,
    pub high: u64,
    pub low: u64,
    pub volume: u64,
    pub close: u64,
    pub adjclose: u64,
}

/// The aggregate of a quote series: the period high, the period low, and
/// the close of the chronologically last quote ("current" price).
///
/// For a well-formed, non-empty series `low <= current <= high` holds;
/// malformed upstream data can break it, and it is not checked here.
#[derive(Clone, Copy, Debug, PartialEq, Eq, Structural)]
pub struct QuoteHistory {
    pub high: u64,
    pub low: u64,
    pub current: u64,
}

impl Default for QuoteHistory {
    /// The "no data" sentinel: `high` below any real price, `low` above
    /// any real price, `current` zero.
    fn default() -> (r: Self)
        ensures
            r.high == 0,
            r.low == u64::MAX,
            r.current == 0,
    {
        QuoteHistory { high: 0, low: u64::MAX, current: 0 }
    }
}

/// The period high of a quote series: the maximum of the quotes' `high`
/// fields, starting from the sentinel 0.
pub open spec fn seq_high(s: Seq<Quote>) -> int
    decreases s.len(),
{
    if s.len() == 0 {
        0
    } else if seq_high(s.drop_last()) >= s.last().high {
        seq_high(s.drop_last())
    } else {
        s.last().high as int
    }
}

/// The period low of a quote series: the minimum of the quotes' `low`
/// fields, starting from the sentinel `u64::MAX`.
pub open spec fn seq_low(s: Seq<Quote>) -> int
    decreases s.len(),
{
    if s.len() == 0 {
        u64::MAX as int
    } else if seq_low(s.drop_last()) <= s.last().low {
        seq_low(s.drop_last())
    } else {
        s.last().low as int
    }
}

/// The current price of a quote series: the close of the last quote, or
/// the sentinel 0 when there is none.
pub open spec fn seq_current(s: Seq<Quote>) -> int
    decreases s.len(),
{
    if s.len() == 0 {
        0
    } else {
        s.last().close as int
    }
}

/// The period high is an upper bound on every quote's `high`, and for a
/// non-empty series it is attained by some quote, i.e. it is the maximum.
pub proof fn lemma_high_is_max(s: Seq<Quote>)
    ensures
        forall|i: int| 0 <= i < s.len() ==> s[i].high as int <= seq_high(s),
        s.len() > 0 ==> exists|i: int| 0 <= i < s.len() && seq_high(s) == s[i].high as int,
    decreases s.len(),
{
    if s.len() > 0 {
        lemma_high_is_max(s.drop_last());
        assert forall|i: int| 0 <= i < s.len() implies s[i].high as int <= seq_high(s) by {
            if i < s.len() - 1 {
                assert(s.drop_last()[i] == s[i]);
            }
        }
        if seq_high(s.drop_last()) >= s.last().high {
            if s.len() == 1 {
                assert(seq_high(s) == s[0].high as int);
            } else {
                let j = choose|j: int|
                    0 <= j < s.drop_last().len() && seq_high(s.drop_last()) == s.drop_last()[j].high as int;
                assert(seq_high(s) == s[j].high as int);
            }
        } else {
            assert(seq_high(s) == s[s.len() - 1].high as int);
        }
    }
}

/// The period low is a lower bound on every quote's `low`, and for a
/// non-empty series it is attained by some quote, i.e. it is the minimum.
pub proof fn lemma_low_is_min(s: Seq<Quote>)
    ensures
        forall|i: int| 0 <= i < s.len() ==> seq_low(s) <= s[i].low as int,
        s.len() > 0 ==> exists|i: int| 0 <= i < s.len() && seq_low(s) == s[i].low as int,
    decreases s.len(),
{
    if s.len() > 0 {
        lemma_low_is_min(s.drop_last());
        assert forall|i: int| 0 <= i < s.len() implies seq_low(s) <= s[i].low as int by {
            if i < s.len() - 1 {
                assert(s.drop_last()[i] == s[i]);
            }
        }
        if seq_low(s.drop_last()) <= s.last().low {
            if s.len() == 1 {
                assert(seq_low(s) == s[0].low as int);
            } else {
                let j = choose|j: int|
                    0 <= j < s.drop_last().len() && seq_low(s.drop_last()) == s.drop_last()[j].low as int;
                assert(seq_low(s) == s[j].low as int);
            }
        } else {
            assert(seq_low(s) == s[s.len() - 1].low as int);
        }
    }
}

/// Reduces a quote series to its period statistics in one pass.
///
/// An empty series yields the sentinel defaults of `QuoteHistory::default`,
/// a distinguishable "no data" state; callers must treat it as such before
/// computing a range position.
pub fn stats(quotes: &Vec<Quote>) -> (h: QuoteHistory)
    ensures
        h.high as int == seq_high(quotes@),
        h.low as int == seq_low(quotes@),
        h.current as int == seq_current(quotes@),
        quotes@.len() > 0 ==> h.current == quotes@.last().close,
        forall|i: int| 0 <= i < quotes@.len() ==> quotes@[i].high <= h.high,
        forall|i: int| 0 <= i < quotes@.len() ==> h.low <= quotes@[i].low,
        quotes@.len() > 0 ==> exists|i: int| 0 <= i < quotes@.len() && h.high == quotes@[i].high,
        quotes@.len() > 0 ==> exists|i: int| 0 <= i < quotes@.len() && h.low == quotes@[i].low,
{
    let mut h = QuoteHistory::default();
    let mut i: usize = 0;
    while i < quotes.len()
        invariant
            i <= quotes.len(),
            h.high as int == seq_high(quotes@.take(i as int)),
            h.low as int == seq_low(quotes@.take(i as int)),
            h.current as int == seq_current(quotes@.take(i as int)),
        decreases quotes.len() - i,
    {
        let q = quotes[i];
        proof {
            assert(quotes@.take(i + 1 as int).drop_last() =~= quotes@.take(i as int));
            assert(quotes@.take(i + 1 as int).last() == quotes@[i as int]);
        }
        h.current = q.close;
        if q.high > h.high {
            h.high = q.high;
        }
        if q.low < h.low {
            h.low = q.low;
        }
        i += 1;
    }
    proof {
        assert(quotes@.take(quotes@.len() as int) =~= quotes@);
        lemma_high_is_max(quotes@);
        lemma_low_is_min(quotes@);
    }
    h
}

} // verus!
