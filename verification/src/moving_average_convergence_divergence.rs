//! Moving Average Convergence Divergence (MACD).
//!
//! ```text
//! macd_line[i] = EMA(data, fast_length)[i] - EMA(data, slow_length)[i]
//! signal_line  = EMA(macd_line, signal_smooth)
//! histogram[i] = macd_line[i] - signal_line[i]
//! ```
//! The arithmetic is done on binary64 values by the caller; this module holds the
//! setting and the input check, and shows that once the check passes, none of the
//! three EMA stages refuses its input.
use vstd::prelude::*;
use crate::indicator_error::{IndicatorError, period_input_result};
use crate::exponential_moving_average::{SettingEma, check_ema_input};

verus! {

/// Configuration for MACD calculation.
pub struct SettingMacd {
    /// Fast EMA period (typically 12).
    pub fast_length: usize,
    /// Slow EMA period (typically 26).
    pub slow_length: usize,
    /// Signal line EMA period (typically 9).
    pub signal_smooth: usize,
}

/// Which error, if any, the inputs of a MACD calculation are refused with.
pub open spec fn macd_input_result(data_len: int, fast: int, slow: int, signal: int) -> Result<(), IndicatorError> {
    if data_len == 0 {
        Err(IndicatorError::EmptyData)
    } else if fast == 0 || slow == 0 || signal == 0 {
        Err(IndicatorError::ImproperSetting)
    } else if data_len <= fast || data_len <= slow || data_len <= signal {
        Err(IndicatorError::ImproperDataLength)
    } else {
        Ok(())
    }
}

/// Checks the input of a MACD calculation over `data_len` values: the data and
/// the three lengths first, then the fast EMA, the slow EMA and the signal EMA
/// (over the MACD line, which has one value per input value), each refusal
/// passed on as it comes.
pub fn check_macd_input(data_len: usize, setting: &SettingMacd) -> (r: Result<(), IndicatorError>)
    ensures
        r == macd_input_result(data_len as int, setting.fast_length as int, setting.slow_length as int, setting.signal_smooth as int),
{
    if data_len == 0 {
        return Err(IndicatorError::EmptyData);
    }
    if setting.fast_length == 0 {
        return Err(IndicatorError::ImproperSetting);
    }
    if setting.slow_length == 0 {
        return Err(IndicatorError::ImproperSetting);
    }
    if setting.signal_smooth == 0 {
        return Err(IndicatorError::ImproperSetting);
    }
    check_ema_input(data_len, &SettingEma { period: setting.fast_length })?;
    check_ema_input(data_len, &SettingEma { period: setting.slow_length })?;
    check_ema_input(data_len, &SettingEma { period: setting.signal_smooth })?;
    Ok(())
}

/// The MACD check accepts exactly the inputs that all three EMA stages accept,
/// once the three lengths are non-zero.
pub proof fn lemma_macd_stages(data_len: int, fast: int, slow: int, signal: int)
    requires
        data_len > 0,
        fast > 0,
        slow > 0,
        signal > 0,
    ensures
        macd_input_result(data_len, fast, slow, signal) is Ok <==> (
            period_input_result(data_len, fast) is Ok
            && period_input_result(data_len, slow) is Ok
            && period_input_result(data_len, signal) is Ok),
{
}

/// A MACD input is accepted exactly when all three lengths are at least 1 and the
/// data is strictly longer than each of them; empty data is `EmptyData`, a zero
/// length on non-empty data `ImproperSetting`, and otherwise data no longer than
/// one of the lengths `ImproperDataLength`.
pub proof fn lemma_macd_input_rules(data_len: nat, fast: nat, slow: nat, signal: nat)
    ensures
        macd_input_result(data_len as int, fast as int, slow as int, signal as int) is Ok
            <==> (1 <= fast < data_len && 1 <= slow < data_len && 1 <= signal < data_len),
        data_len == 0 ==>
            macd_input_result(data_len as int, fast as int, slow as int, signal as int) == Err::<(), IndicatorError>(IndicatorError::EmptyData),
        (data_len > 0 && (fast == 0 || slow == 0 || signal == 0)) ==>
            macd_input_result(data_len as int, fast as int, slow as int, signal as int) == Err::<(), IndicatorError>(IndicatorError::ImproperSetting),
        (fast > 0 && slow > 0 && signal > 0 && data_len > 0
            && (data_len <= fast || data_len <= slow || data_len <= signal)) ==>
            macd_input_result(data_len as int, fast as int, slow as int, signal as int) == Err::<(), IndicatorError>(IndicatorError::ImproperDataLength),
{
}
} // verus!
