//! Williams Fractals: local price extremes for support and resistance.
//!
//! A candle `i` with `factor <= i < len - factor` is a high fractal when its high is
//! strictly above the highs of the `factor` candles on each side, and a low fractal
//! when its low is strictly below their lows. Candles nearer the ends are neither.
//! Prices are binary64 values given by their bit patterns (see `binary64`).
use vstd::prelude::*;
use crate::binary64::{gt, lt, value_gt, value_lt, lemma_lt_strict_order};
use crate::indicator_error::IndicatorError;

verus! {

/// A single Williams Fractals data point.
#[derive(Debug, Clone, Copy, PartialEq, Eq, Structural)]
pub struct WFData {
    /// Whether this candle is a local high fractal (pivot high).
    pub fractal_high: bool,
    /// Whether this candle is a local low fractal (pivot low).
    pub fractal_low: bool,
}

/// Configuration for Williams Fractals calculation.
pub struct SettingWf {
    /// Number of candles required on each side of a fractal. Must be >= 1.
    pub factor: usize,
}

/// Which error, if any, the inputs are refused with.
pub open spec fn wf_input_result(high_len: int, low_len: int, factor: int) -> Result<(), IndicatorError> {
    if high_len == 0 || low_len == 0 {
        Err(IndicatorError::EmptyData)
    } else if factor == 0 {
        Err(IndicatorError::ImproperSetting)
    } else if high_len != low_len {
        Err(IndicatorError::DifferentDataLength)
    } else if high_len < 2 * factor + 1 {
        Err(IndicatorError::ImproperDataLength)
    } else {
        Ok(())
    }
}

/// Whether candle `i` has `factor` candles on each side.
pub open spec fn in_search_range(len: int, factor: int, i: int) -> bool {
    factor <= i < len - factor
}

/// `s[i]` is above both neighbours at distance `j`.
pub open spec fn above_both_at(s: Seq<u64>, i: int, j: int) -> bool {
    value_gt(s[i], s[i - j]) && value_gt(s[i], s[i + j])
}

/// `s[i]` is below both neighbours at distance `j`.
pub open spec fn below_both_at(s: Seq<u64>, i: int, j: int) -> bool {
    value_lt(s[i], s[i - j]) && value_lt(s[i], s[i + j])
}

/// `high[i]` is above every high within `factor` candles on each side.
pub open spec fn is_high_fractal(high: Seq<u64>, factor: int, i: int) -> bool {
    forall|j: int| 1 <= j <= factor ==> #[trigger] above_both_at(high, i, j)
}

/// `low[i]` is below every low within `factor` candles on each side.
pub open spec fn is_low_fractal(low: Seq<u64>, factor: int, i: int) -> bool {
    forall|j: int| 1 <= j <= factor ==> #[trigger] below_both_at(low, i, j)
}

/// The data point of candle `i`.
pub open spec fn wf_point(high: Seq<u64>, low: Seq<u64>, factor: int, i: int) -> WFData {
    WFData {
        fractal_high: in_search_range(high.len() as int, factor, i) && is_high_fractal(high, factor, i),
        fractal_low: in_search_range(high.len() as int, factor, i) && is_low_fractal(low, factor, i),
    }
}

fn fractal_at(candle_high: &[u64], candle_low: &[u64], factor: usize, i: usize) -> (d: WFData)
    requires
        candle_high@.len() == candle_low@.len(),
        factor <= i,
        i + factor < candle_high@.len(),
    ensures
        d.fractal_high == is_high_fractal(candle_high@, factor as int, i as int),
        d.fractal_low == is_low_fractal(candle_low@, factor as int, i as int),
{
    let center_high = candle_high[i];
    let center_low = candle_low[i];
    let mut is_fractal_high = true;
    let mut is_fractal_low = true;
    let mut j: usize = 1;
    while j <= factor
        invariant_except_break
            1 <= j <= factor + 1,
            is_fractal_high == (forall|k: int| 1 <= k < j ==> #[trigger] above_both_at(candle_high@, i as int, k)),
            is_fractal_low == (forall|k: int| 1 <= k < j ==> #[trigger] below_both_at(candle_low@, i as int, k)),
        invariant
            candle_high@.len() == candle_low@.len(),
            factor <= i,
            i + factor < candle_high@.len(),
            center_high == candle_high@[i as int],
            center_low == candle_low@[i as int],
        ensures
            is_fractal_high == is_high_fractal(candle_high@, factor as int, i as int),
            is_fractal_low == is_low_fractal(candle_low@, factor as int, i as int),
        decreases factor + 1 - j,
    {
        let ghost hs = candle_high@;
        let ghost ls = candle_low@;
        // High fractal
        if !(gt(center_high, candle_high[i - j]) && gt(center_high, candle_high[i + j])) {
            is_fractal_high = false;
        }
        // Low fractal
        if !(lt(center_low, candle_low[i - j]) && lt(center_low, candle_low[i + j])) {
            is_fractal_low = false;
        }
        assert(is_fractal_high == (forall|k: int| 1 <= k < j + 1 ==> #[trigger] above_both_at(hs, i as int, k))) by {
            if !above_both_at(hs, i as int, j as int) {
                assert(!is_fractal_high);
            }
        }
        assert(is_fractal_low == (forall|k: int| 1 <= k < j + 1 ==> #[trigger] below_both_at(ls, i as int, k))) by {
            if !below_both_at(ls, i as int, j as int) {
                assert(!is_fractal_low);
            }
        }
        if !is_fractal_high && !is_fractal_low {
            assert(!is_high_fractal(hs, factor as int, i as int)) by {
                let k = choose|k: int| 1 <= k < j + 1 && !#[trigger] above_both_at(hs, i as int, k);
                assert(1 <= k <= factor && !above_both_at(hs, i as int, k));
            }
            assert(!is_low_fractal(ls, factor as int, i as int)) by {
                let k = choose|k: int| 1 <= k < j + 1 && !#[trigger] below_both_at(ls, i as int, k);
                assert(1 <= k <= factor && !below_both_at(ls, i as int, k));
            }
            break;
        }
        j += 1;
    }
    WFData { fractal_high: is_fractal_high, fractal_low: is_fractal_low }
}

/// Marks the high and low fractals of a series of candles.
///
/// Refuses empty input (`EmptyData`), a zero factor (`ImproperSetting`), highs
/// and lows of different lengths (`DifferentDataLength`) and fewer than
/// `2 * factor + 1` candles (`ImproperDataLength`), in that order. Otherwise returns one data point per
/// candle, as `wf_point` describes it.
pub fn calculate_wf(
    candle_high: &[u64],
    candle_low: &[u64],
    setting: &SettingWf,
) -> (r: Result<Vec<WFData>, IndicatorError>)
    ensures
        match r {
            Ok(wf) => {
                &&& wf_input_result(candle_high@.len() as int, candle_low@.len() as int, setting.factor as int) == Ok::<(), IndicatorError>(())
                &&& wf@.len() == candle_high@.len()
                &&& forall|i: int| 0 <= i < wf@.len() ==> #[trigger] wf@[i] == wf_point(candle_high@, candle_low@, setting.factor as int, i)
            },
            Err(e) => wf_input_result(candle_high@.len() as int, candle_low@.len() as int, setting.factor as int) == Err::<(), IndicatorError>(e),
        },
{
    if candle_high.len() == 0 || candle_low.len() == 0 {
        return Err(IndicatorError::EmptyData);
    }
    if setting.factor == 0 {
        return Err(IndicatorError::ImproperSetting);
    }
    if candle_high.len() != candle_low.len() {
        return Err(IndicatorError::DifferentDataLength);
    }
    let factor = setting.factor;
    if (candle_high.len() as u128) < 2 * (factor as u128) + 1 {
        return Err(IndicatorError::ImproperDataLength);
    }
    let len = candle_high.len();
    let mut wf: Vec<WFData> = Vec::with_capacity(len);
    let mut i: usize = 0;
    while i < len
        invariant
            len == candle_high@.len(),
            candle_high@.len() == candle_low@.len(),
            2 * factor + 1 <= len,
            factor > 0,
            factor == setting.factor,
            i <= len,
            wf@.len() == i,
            forall|k: int| 0 <= k < i ==> #[trigger] wf@[k] == wf_point(candle_high@, candle_low@, factor as int, k),
        decreases len - i,
    {
        let point = if factor <= i && i < len - factor {
            fractal_at(candle_high, candle_low, factor, i)
        } else {
            WFData { fractal_high: false, fractal_low: false }
        };
        wf.push(point);
        i += 1;
    }
    Ok(wf)
}

/// Two high fractals are never within `factor` candles of each other, nor are two
/// low fractals: each would have to be strictly above (below) the other.
pub proof fn lemma_fractals_are_separated(high: Seq<u64>, low: Seq<u64>, factor: int, i: int, k: int)
    requires
        0 < k - i <= factor,
    ensures
        !(wf_point(high, low, factor, i).fractal_high && wf_point(high, low, factor, k).fractal_high),
        !(wf_point(high, low, factor, i).fractal_low && wf_point(high, low, factor, k).fractal_low),
{
    let d = k - i;
    if is_high_fractal(high, factor, i) && is_high_fractal(high, factor, k) {
        assert(above_both_at(high, i, d));
        assert(above_both_at(high, k, d));
        assert(k - d == i);
        lemma_lt_strict_order(high[i], high[k], high[i]);
    }
    if is_low_fractal(low, factor, i) && is_low_fractal(low, factor, k) {
        assert(below_both_at(low, i, d));
        assert(below_both_at(low, k, d));
        assert(k - d == i);
        lemma_lt_strict_order(low[i], low[k], low[i]);
    }
}

/// A candle is a high fractal exactly when it has `factor` candles on each side and
/// its high is strictly above the high of every other candle within `factor`
/// positions of it; a low fractal exactly when its low is strictly below the low of
/// every such candle.
pub proof fn lemma_fractal_meaning(high: Seq<u64>, low: Seq<u64>, factor: int, i: int)
    ensures
        wf_point(high, low, factor, i).fractal_high <==> (
            factor <= i < high.len() - factor
            && forall|k: int| i - factor <= k <= i + factor && k != i ==> value_gt(high[i], #[trigger] high[k])),
        wf_point(high, low, factor, i).fractal_low <==> (
            factor <= i < high.len() - factor
            && forall|k: int| i - factor <= k <= i + factor && k != i ==> value_lt(low[i], #[trigger] low[k])),
{
    if is_high_fractal(high, factor, i) {
        assert forall|k: int| i - factor <= k <= i + factor && k != i implies value_gt(high[i], #[trigger] high[k]) by {
            if k < i {
                assert(above_both_at(high, i, i - k));
            } else {
                assert(above_both_at(high, i, k - i));
            }
        }
    }
    if forall|k: int| i - factor <= k <= i + factor && k != i ==> value_gt(high[i], #[trigger] high[k]) {
        assert forall|j: int| 1 <= j <= factor implies #[trigger] above_both_at(high, i, j) by {
            assert(value_gt(high[i], high[i - j]));
            assert(value_gt(high[i], high[i + j]));
        }
    }
    if is_low_fractal(low, factor, i) {
        assert forall|k: int| i - factor <= k <= i + factor && k != i implies value_lt(low[i], #[trigger] low[k]) by {
            if k < i {
                assert(below_both_at(low, i, i - k));
            } else {
                assert(below_both_at(low, i, k - i));
            }
        }
    }
    if forall|k: int| i - factor <= k <= i + factor && k != i ==> value_lt(low[i], #[trigger] low[k]) {
        assert forall|j: int| 1 <= j <= factor implies #[trigger] below_both_at(low, i, j) by {
            assert(value_lt(low[i], low[i - j]));
            assert(value_lt(low[i], low[i + j]));
        }
    }
}

/// A Williams Fractals input is accepted exactly when highs and lows have one,
/// non-zero length, the factor is at least 1, and there are at least
/// `2 * factor + 1` candles.
pub proof fn lemma_wf_input_rules(high_len: nat, low_len: nat, factor: nat)
    ensures
        wf_input_result(high_len as int, low_len as int, factor as int) is Ok
            <==> (high_len > 0 && high_len == low_len && factor >= 1 && high_len >= 2 * factor + 1),
        (high_len == 0 || low_len == 0) ==>
            wf_input_result(high_len as int, low_len as int, factor as int) == Err::<(), IndicatorError>(IndicatorError::EmptyData),
        (high_len > 0 && low_len > 0 && factor == 0) ==>
            wf_input_result(high_len as int, low_len as int, factor as int) == Err::<(), IndicatorError>(IndicatorError::ImproperSetting),
        (high_len > 0 && low_len > 0 && factor > 0 && high_len != low_len) ==>
            wf_input_result(high_len as int, low_len as int, factor as int) == Err::<(), IndicatorError>(IndicatorError::DifferentDataLength),
        (high_len > 0 && factor > 0 && high_len == low_len && high_len < 2 * factor + 1) ==>
            wf_input_result(high_len as int, low_len as int, factor as int) == Err::<(), IndicatorError>(IndicatorError::ImproperDataLength),
{
}
} // verus!
