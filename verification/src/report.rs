//! Report assembly: aggregate the quotes, place the current price in the
//! period's range, recommend, and render.

use vstd::prelude::*;
use vstd::string::StringExecFns;

use crate::advice::recommend;
use crate::advice::FULL_RANGE_BPS;
use crate::advice::THRESHOLD_BPS;
use crate::decimal::push_hundredths;
use crate::decimal::spec_hundredths;
use crate::history::seq_current;
use crate::history::seq_high;
use crate::history::seq_low;
use crate::history::stats;
use crate::history::Quote;
use crate::history::QuoteHistory;

verus! {

/// Why no report could be built from the quotes at hand. The first two are
/// data conditions of the series itself; the last signals malformed
/// upstream data (a current price outside the period's range), which would
/// be a defect in the range computation, not bad user input.
#[derive(Clone, Copy, Debug, PartialEq, Eq, Structural)]
pub enum ReportError {
    /// The quote series is empty: there is no current price.
    NoData,
    /// The period high does not exceed the period low, so the range
    /// position is undefined (a flat or single-quote series).
    FlatRange,
    /// The current price falls outside [low, high), so its range position
    /// would leave [0 %, 100 %).
    PositionOutOfRange,
}

impl ReportError {
    /// A human-readable description of the failure.
    pub fn message(&self) -> (r: String)
        ensures
            *self == ReportError::NoData ==> r@ == "no quote data for the requested period"@,
            *self == ReportError::FlatRange ==> r@ == "insufficient price variation in the period"@,
            *self == ReportError::PositionOutOfRange ==> r@
                == "current price outside the period's price range"@,
    {
        match self {
            ReportError::NoData => "no quote data for the requested period".to_owned(),
            ReportError::FlatRange => "insufficient price variation in the period".to_owned(),
            ReportError::PositionOutOfRange => "current price outside the period's price range".to_owned(),
        }
    }
}

/// The final output record: the requested symbol, the period statistics,
/// the current price's position in the period's range (in basis points),
/// and the recommendation label. Immutable once built.
#[derive(Debug)]
pub struct Report {
    pub symbol: String,
    pub history: QuoteHistory,
    pub position: u64,
    pub recommendation: String,
}

/// The current price's position in the range [low, high], in basis
/// points: 0 at the low, 10000 (100 %) at the high, rounded down.
pub open spec fn spec_position(low: int, high: int, current: int) -> int {
    (current - low) * FULL_RANGE_BPS / (high - low)
}

/// Whether a quote series admits a report: it has a current price, its
/// range is not degenerate, and the current price sits inside [low, high).
pub open spec fn reportable(q: Seq<Quote>) -> bool {
    &&& q.len() > 0
    &&& seq_low(q) < seq_high(q)
    &&& seq_low(q) <= seq_current(q) < seq_high(q)
}

/// The error a non-reportable quote series is refused with.
pub open spec fn spec_failure(q: Seq<Quote>) -> ReportError {
    if q.len() == 0 {
        ReportError::NoData
    } else if seq_high(q) <= seq_low(q) {
        ReportError::FlatRange
    } else {
        ReportError::PositionOutOfRange
    }
}

/// Builds the report for `symbol` from its fetched quote series: aggregate
/// the series, compute the current price's range position, derive the
/// recommendation, and assemble the record.
///
/// Succeeds exactly when the series is `reportable`; otherwise returns the
/// distinct error for the first failing condition.
pub fn build_report(symbol: &str, quotes: &Vec<Quote>) -> (r: Result<Report, ReportError>)
    ensures
        r is Ok <==> reportable(quotes@),
        r matches Ok(rep) ==> {
            &&& rep.symbol@ == symbol@
            &&& rep.history.high as int == seq_high(quotes@)
            &&& rep.history.low as int == seq_low(quotes@)
            &&& rep.history.current as int == seq_current(quotes@)
            &&& rep.position as int == spec_position(
                seq_low(quotes@),
                seq_high(quotes@),
                seq_current(quotes@),
            )
            &&& rep.position < FULL_RANGE_BPS
            &&& rep.history.low <= rep.history.current <= rep.history.high
            &&& rep.recommendation@ == (if rep.position < THRESHOLD_BPS {
                "Buy"@
            } else {
                "Don't buy"@
            })
        },
        r matches Err(e) ==> e == spec_failure(quotes@),
{
    let h = stats(quotes);
    if quotes.len() == 0 {
        return Err(ReportError::NoData);
    }
    if h.high <= h.low {
        return Err(ReportError::FlatRange);
    }
    if h.current < h.low || h.current >= h.high {
        return Err(ReportError::PositionOutOfRange);
    }
    let range = h.high - h.low;
    let num: u128 = (h.current - h.low) as u128 * (FULL_RANGE_BPS as u128);
    let pos_wide: u128 = num / (range as u128);
    proof {
        vstd::arithmetic::div_mod::lemma_multiply_divide_lt(
            num as int,
            range as int,
            FULL_RANGE_BPS as int,
        );
    }
    let position: u64 = pos_wide as u64;
    let recommendation = recommend(position);
    Ok(Report { symbol: symbol.to_owned(), history: h, position, recommendation })
}

/// The report's single-line human-readable form, two-decimal fixed point
/// for every price and for the percentage.
pub open spec fn spec_render(rep: Report) -> Seq<char> {
    rep.symbol@ + ": Current "@ + spec_hundredths(rep.history.current as nat) + " Low "@
        + spec_hundredths(rep.history.low as nat) + " High "@ + spec_hundredths(
        rep.history.high as nat,
    ) + " Position "@ + spec_hundredths(rep.position as nat) + "% - "@ + rep.recommendation@
}

impl Report {
    /// Renders the report as its single summary line.
    pub fn render(&self) -> (r: String)
        ensures
            r@ == spec_render(*self),
    {
        let mut out = self.symbol.clone();
        out.append(": Current ");
        push_hundredths(self.history.current, &mut out);
        out.append(" Low ");
        push_hundredths(self.history.low, &mut out);
        out.append(" High ");
        push_hundredths(self.history.high, &mut out);
        out.append(" Position ");
        push_hundredths(self.position, &mut out);
        out.append("% - ");
        out.append(self.recommendation.as_str());
        proof {
            assert(out@ =~= spec_render(*self));
        }
        out
    }
}

} // verus!
