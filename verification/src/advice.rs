//! The recommendation engine: thresholding a range position.

use vstd::prelude::*;

verus! {

/// The number of basis points (hundredths of a percent) in 100 %.
pub const FULL_RANGE_BPS: u64 = 10000;

/// The recommendation threshold, 50 %, in basis points.
pub const THRESHOLD_BPS: u64 = 5000;

/// Maps a range position to the recommendation label.
///
/// `position` is in basis points: 0 means the current price sits at the
/// period low, 10000 (100 %) at the period high. A position at or above
/// 100 % signals a defect in the range computation upstream, not bad user
/// input, and is excluded outright.
///
/// Returns `"Buy"` for every position in [0 %, 50 %) and `"Don't buy"`
/// for every position in [50 %, 100 %); the lower end of the second
/// bucket, exactly 50 %, is `"Don't buy"`.
pub fn recommend(position: u64) -> (r: String)
    requires
        position < FULL_RANGE_BPS,
    ensures
        position < THRESHOLD_BPS ==> r@ == "Buy"@,
        position >= THRESHOLD_BPS ==> r@ == "Don't buy"@,
{
    if position < THRESHOLD_BPS {
        "Buy".to_owned()
    } else {
        "Don't buy".to_owned()
    }
}

} // verus!
