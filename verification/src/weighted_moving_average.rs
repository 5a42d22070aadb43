//! Weighted Moving Average (WMA).
//!
//! Output `i` weighs the window ending at `i` with `1, 2, ..., period`, most recent highest. The arithmetic is done on binary64 values by the caller; this module holds
//! the setting and the input check.
use vstd::prelude::*;
use crate::indicator_error::{IndicatorError, check_period_input, period_input_result};

verus! {

/// Configuration for Weighted Moving Average calculation.
pub struct SettingWma {
    /// Lookback window size. Must be >= 1 and strictly less than data length.
    pub period: usize,
}

/// Checks the input of a Weighted Moving Average calculation over `data_len` values: `EmptyData`
/// for no data, `ImproperSetting` for a zero period, `ImproperDataLength` unless
/// the data is strictly longer than the period.
pub fn check_wma_input(data_len: usize, setting: &SettingWma) -> (r: Result<(), IndicatorError>)
    ensures
        r == period_input_result(data_len as int, setting.period as int),
{
    check_period_input(data_len, setting.period)
}

} // verus!
