//! Supertrend: a trend-following indicator with upper and lower bands.
//!
//! The raw bands of candle `i` are `median[i] + factor * atr[i]` and
//! `median[i] - factor * atr[i]`; their arithmetic is done by the caller in binary64.
//! This module decides, from the closes and the raw bands (binary64 bit patterns),
//! the bands that carry over from candle to candle and the trend:
//!
//! ```text
//! first candle: upper = raw_upper[0], lower = raw_lower[0],
//!               trend = Up if close[0] > lower else Down
//! candle i:     upper = raw_upper[i] if raw_upper[i] < prev.upper or close[i-1] > prev.upper
//!                       else prev.upper
//!               lower = raw_lower[i] if raw_lower[i] > prev.lower or close[i-1] < prev.lower
//!                       else prev.lower
//!               prev Up:   Down if close[i] <= lower else Up
//!               prev Down: Up if close[i] >= upper else Down
//! ```
use vstd::prelude::*;
use crate::binary64::{POSITIVE_ZERO, ge, gt, le, lt, value_ge, value_gt, value_le, value_lt};
use crate::indicator_error::IndicatorError;

verus! {

/// Trend direction for a Supertrend data point.
#[derive(Debug, PartialEq, Eq, Clone, Copy, Structural)]
pub enum TrendType {
    /// Upward trend.
    Up,
    /// Downward trend.
    Down,
}

/// A single Supertrend data point: the trend and the two bands (bit patterns).
#[derive(Debug, PartialEq, Eq, Clone, Copy, Structural)]
pub struct SupertrendData {
    /// Current trend direction.
    pub trend: TrendType,
    /// Upper band value.
    pub upper_band: u64,
    /// Lower band value.
    pub lower_band: u64,
}

/// Which error, if any, the inputs of a Supertrend calculation are refused with,
/// given the lengths of the closes, medians and ATR values and the factor.
pub open spec fn supertrend_input_result(close_len: int, median_len: int, atr_len: int, factor: u64) -> Result<(), IndicatorError> {
    if close_len == 0 || median_len == 0 || atr_len == 0 {
        Err(IndicatorError::EmptyData)
    } else if !value_gt(factor, POSITIVE_ZERO) {
        Err(IndicatorError::ImproperSetting)
    } else if close_len != median_len || median_len != atr_len {
        Err(IndicatorError::DifferentDataLength)
    } else {
        Ok(())
    }
}

/// Checks the inputs of a Supertrend calculation, in this order: no series may be
/// empty (`EmptyData`), the factor (a bit pattern) must be greater than zero, so a
/// zero, negative or NaN factor is refused (`ImproperSetting`), and all series must
/// have one length (`DifferentDataLength`).
pub fn check_supertrend_input(close_len: usize, median_len: usize, atr_len: usize, factor: u64) -> (r: Result<(), IndicatorError>)
    ensures
        r == supertrend_input_result(close_len as int, median_len as int, atr_len as int, factor),
{
    if close_len == 0 || median_len == 0 || atr_len == 0 {
        return Err(IndicatorError::EmptyData);
    }
    if !gt(factor, POSITIVE_ZERO) {
        return Err(IndicatorError::ImproperSetting);
    }
    if close_len != median_len || median_len != atr_len {
        return Err(IndicatorError::DifferentDataLength);
    }
    Ok(())
}

/// The upper band that follows `prev_upper`.
pub open spec fn next_upper(raw_upper: u64, prev_upper: u64, prev_close: u64) -> u64 {
    if value_lt(raw_upper, prev_upper) || value_gt(prev_close, prev_upper) {
        raw_upper
    } else {
        prev_upper
    }
}

/// The lower band that follows `prev_lower`.
pub open spec fn next_lower(raw_lower: u64, prev_lower: u64, prev_close: u64) -> u64 {
    if value_gt(raw_lower, prev_lower) || value_lt(prev_close, prev_lower) {
        raw_lower
    } else {
        prev_lower
    }
}

/// The trend that follows `prev`, given the close and the new bands.
pub open spec fn next_trend(prev: TrendType, close: u64, upper: u64, lower: u64) -> TrendType {
    match prev {
        TrendType::Up => if value_le(close, lower) { TrendType::Down } else { TrendType::Up },
        TrendType::Down => if value_ge(close, upper) { TrendType::Up } else { TrendType::Down },
    }
}

/// The data point of candle `i`.
pub open spec fn supertrend_point(close: Seq<u64>, raw_upper: Seq<u64>, raw_lower: Seq<u64>, i: nat) -> SupertrendData
    decreases i,
{
    if i == 0 {
        SupertrendData {
            trend: if value_gt(close[0], raw_lower[0]) { TrendType::Up } else { TrendType::Down },
            upper_band: raw_upper[0],
            lower_band: raw_lower[0],
        }
    } else {
        let prev = supertrend_point(close, raw_upper, raw_lower, (i - 1) as nat);
        let upper = next_upper(raw_upper[i as int], prev.upper_band, close[i - 1]);
        let lower = next_lower(raw_lower[i as int], prev.lower_band, close[i - 1]);
        SupertrendData { trend: next_trend(prev.trend, close[i as int], upper, lower), upper_band: upper, lower_band: lower }
    }
}

/// Computes the Supertrend data points from the closes and the raw bands.
///
/// Refuses empty input (`EmptyData`) and series of different lengths
/// (`DifferentDataLength`); otherwise returns one point per candle, as
/// `supertrend_point` describes it.
pub fn supertrend_from_bands(
    candle_data: &[u64],
    raw_upper: &[u64],
    raw_lower: &[u64],
) -> (r: Result<Vec<SupertrendData>, IndicatorError>)
    ensures
        match r {
            Ok(st) => {
                &&& candle_data@.len() > 0
                &&& candle_data@.len() == raw_upper@.len() == raw_lower@.len()
                &&& st@.len() == candle_data@.len()
                &&& forall|i: int| 0 <= i < st@.len() ==> #[trigger] st@[i] == supertrend_point(candle_data@, raw_upper@, raw_lower@, i as nat)
            },
            Err(e) => {
                if candle_data@.len() == 0 || raw_upper@.len() == 0 || raw_lower@.len() == 0 {
                    e == IndicatorError::EmptyData
                } else {
                    &&& e == IndicatorError::DifferentDataLength
                    &&& !(candle_data@.len() == raw_upper@.len() == raw_lower@.len())
                }
            },
        },
{
    if candle_data.len() == 0 || raw_upper.len() == 0 || raw_lower.len() == 0 {
        return Err(IndicatorError::EmptyData);
    }
    if candle_data.len() != raw_upper.len() || raw_upper.len() != raw_lower.len() {
        return Err(IndicatorError::DifferentDataLength);
    }
    let len = candle_data.len();
    let mut supertrend: Vec<SupertrendData> = Vec::with_capacity(len);

    // First point
    let first_upper = raw_upper[0];
    let first_lower = raw_lower[0];
    supertrend.push(SupertrendData {
        trend: if gt(candle_data[0], first_lower) { TrendType::Up } else { TrendType::Down },
        upper_band: first_upper,
        lower_band: first_lower,
    });

    let mut i: usize = 1;
    while i < len
        invariant
            len == candle_data@.len(),
            len == raw_upper@.len(),
            len == raw_lower@.len(),
            1 <= i <= len,
            supertrend@.len() == i,
            forall|k: int| 0 <= k < i ==> #[trigger] supertrend@[k] == supertrend_point(candle_data@, raw_upper@, raw_lower@, k as nat),
        decreases len - i,
    {
        let prev = supertrend[i - 1];
        let prev_close = candle_data[i - 1];
        let upper_calc = raw_upper[i];
        let lower_calc = raw_lower[i];

        let upper_band = if lt(upper_calc, prev.upper_band) || gt(prev_close, prev.upper_band) {
            upper_calc
        } else {
            prev.upper_band
        };
        let lower_band = if gt(lower_calc, prev.lower_band) || lt(prev_close, prev.lower_band) {
            lower_calc
        } else {
            prev.lower_band
        };
        let close = candle_data[i];
        let trend = match prev.trend {
            TrendType::Up => if le(close, lower_band) { TrendType::Down } else { TrendType::Up },
            TrendType::Down => if ge(close, upper_band) { TrendType::Up } else { TrendType::Down },
        };
        supertrend.push(SupertrendData { trend, upper_band, lower_band });
        i += 1;
    }
    Ok(supertrend)
}

/// Band continuity: from the second candle on, each band is either the candle's raw
/// band or the previous band carried over; the upper band never rises and the lower
/// band never falls unless the previous close crossed it.
pub proof fn lemma_band_continuity(close: Seq<u64>, raw_upper: Seq<u64>, raw_lower: Seq<u64>, i: nat)
    requires
        i >= 1,
    ensures
        ({
            let prev = supertrend_point(close, raw_upper, raw_lower, (i - 1) as nat);
            let cur = supertrend_point(close, raw_upper, raw_lower, i);
            &&& cur.upper_band == raw_upper[i as int] || cur.upper_band == prev.upper_band
            &&& cur.lower_band == raw_lower[i as int] || cur.lower_band == prev.lower_band
            &&& !value_gt(close[i - 1], prev.upper_band) ==> (cur.upper_band == prev.upper_band
                || value_lt(cur.upper_band, prev.upper_band))
            &&& !value_lt(close[i - 1], prev.lower_band) ==> (cur.lower_band == prev.lower_band
                || value_gt(cur.lower_band, prev.lower_band))
        }),
{
}

/// The trend flips only when the close reaches the band on the far side: from Up to
/// Down exactly when the close is at or below the new lower band, and from Down to
/// Up exactly when it is at or above the new upper band.
pub proof fn lemma_trend_flips_on_band_cross(close: Seq<u64>, raw_upper: Seq<u64>, raw_lower: Seq<u64>, i: nat)
    requires
        i >= 1,
    ensures
        ({
            let prev = supertrend_point(close, raw_upper, raw_lower, (i - 1) as nat);
            let cur = supertrend_point(close, raw_upper, raw_lower, i);
            &&& prev.trend == TrendType::Up ==> (cur.trend == TrendType::Down <==> value_le(close[i as int], cur.lower_band))
            &&& prev.trend == TrendType::Down ==> (cur.trend == TrendType::Up <==> value_ge(close[i as int], cur.upper_band))
        }),
{
}

/// The first point takes the raw bands as they are, and its trend is Up exactly when
/// the first close is above the lower band.
pub proof fn lemma_first_point(close: Seq<u64>, raw_upper: Seq<u64>, raw_lower: Seq<u64>)
    ensures
        supertrend_point(close, raw_upper, raw_lower, 0).upper_band == raw_upper[0],
        supertrend_point(close, raw_upper, raw_lower, 0).lower_band == raw_lower[0],
        (supertrend_point(close, raw_upper, raw_lower, 0).trend == TrendType::Up) <==> value_gt(close[0], raw_lower[0]),
{
}

/// How each band moves from candle `i - 1` to candle `i`: the upper band resets to
/// the raw upper band when the raw band is below it or when the previous close broke
/// above it, and is otherwise carried over unchanged; the lower band resets to the
/// raw lower band when the raw band is above it or when the previous close broke
/// below it, and is otherwise carried over unchanged.
pub proof fn lemma_band_rules(close: Seq<u64>, raw_upper: Seq<u64>, raw_lower: Seq<u64>, i: nat)
    requires
        i >= 1,
    ensures
        ({
            let prev = supertrend_point(close, raw_upper, raw_lower, (i - 1) as nat);
            let cur = supertrend_point(close, raw_upper, raw_lower, i);
            &&& value_gt(close[i - 1], prev.upper_band) ==> cur.upper_band == raw_upper[i as int]
            &&& value_lt(raw_upper[i as int], prev.upper_band) ==> cur.upper_band == raw_upper[i as int]
            &&& (!value_gt(close[i - 1], prev.upper_band) && !value_lt(raw_upper[i as int], prev.upper_band))
                ==> cur.upper_band == prev.upper_band
            &&& value_lt(close[i - 1], prev.lower_band) ==> cur.lower_band == raw_lower[i as int]
            &&& value_gt(raw_lower[i as int], prev.lower_band) ==> cur.lower_band == raw_lower[i as int]
            &&& (!value_lt(close[i - 1], prev.lower_band) && !value_gt(raw_lower[i as int], prev.lower_band))
                ==> cur.lower_band == prev.lower_band
        }),
{
}

/// A Supertrend input is accepted exactly when all three series have one, non-zero
/// length and the factor is greater than zero; an empty series is always reported
/// as `EmptyData`, and a factor that is not above zero (zero, negative, NaN) as
/// `ImproperSetting` whenever no series is empty.
pub proof fn lemma_supertrend_input_rules(close_len: nat, median_len: nat, atr_len: nat, factor: u64)
    ensures
        supertrend_input_result(close_len as int, median_len as int, atr_len as int, factor) is Ok
            <==> (close_len > 0 && close_len == median_len && median_len == atr_len && value_gt(factor, POSITIVE_ZERO)),
        (close_len == 0 || median_len == 0 || atr_len == 0) ==>
            supertrend_input_result(close_len as int, median_len as int, atr_len as int, factor) == Err::<(), IndicatorError>(IndicatorError::EmptyData),
        (close_len > 0 && median_len > 0 && atr_len > 0 && !value_gt(factor, POSITIVE_ZERO)) ==>
            supertrend_input_result(close_len as int, median_len as int, atr_len as int, factor) == Err::<(), IndicatorError>(IndicatorError::ImproperSetting),
        (close_len > 0 && median_len > 0 && atr_len > 0 && value_gt(factor, POSITIVE_ZERO)
            && !(close_len == median_len && median_len == atr_len)) ==>
            supertrend_input_result(close_len as int, median_len as int, atr_len as int, factor) == Err::<(), IndicatorError>(IndicatorError::DifferentDataLength),
{
}
} // verus!
