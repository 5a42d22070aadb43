//! Exponential Moving Average (EMA).
//!
//! Seeded with the mean of the first `period` values; then `EMA[i] = alpha * data[i] + (1 - alpha) * EMA[i-1]` with `alpha = 2 / (period + 1)`. The arithmetic is done on binary64 values by the caller; this module holds
//! the setting and the input check.
use vstd::prelude::*;
use crate::indicator_error::{IndicatorError, check_period_input, period_input_result};

verus! {

/// Configuration for Exponential Moving Average calculation.
pub struct SettingEma {
    /// Lookback window size. Must be >= 1 and strictly less than data length.
    pub period: usize,
}

/// Checks the input of a Exponential Moving Average calculation over `data_len` values: `EmptyData`
/// for no data, `ImproperSetting` for a zero period, `ImproperDataLength` unless
/// the data is strictly longer than the period.
pub fn check_ema_input(data_len: usize, setting: &SettingEma) -> (r: Result<(), IndicatorError>)
    ensures
        r == period_input_result(data_len as int, setting.period as int),
{
    check_period_input(data_len, setting.period)
}

} // verus!
