//! Average True Range (ATR): the True Range smoothed by a moving average.
//!
//! The calculation first computes the True Range of the candles, then smooths it
//! with the selected engine over `period`. The arithmetic is done on binary64
//! values by the caller; this module holds the setting and the input check, and
//! shows that once the check passes, neither stage refuses its input.
use vstd::prelude::*;
use crate::indicator_error::{IndicatorError, period_input_result};
use crate::true_range::{check_tr_input, tr_input_result};
use crate::simple_moving_average::{SettingSma, check_sma_input};
use crate::smoothed_moving_average::{SettingSmma, check_smma_input};
use crate::exponential_moving_average::{SettingEma, check_ema_input};
use crate::running_moving_average::{SettingRma, check_rma_input};
use crate::weighted_moving_average::{SettingWma, check_wma_input};

verus! {

/// Smoothing engine selection for ATR calculation.
#[derive(Debug, Clone, Copy, PartialEq, Eq, Structural)]
pub enum SmoothEngine {
    /// Simple Moving Average
    SMA,
    /// Smoothed Moving Average
    SMMA,
    /// Exponential Moving Average
    EMA,
    /// Running Moving Average (Wilder's)
    RMA,
    /// Weighted Moving Average
    WMA,
}

/// Configuration for Average True Range calculation.
pub struct SettingAtr {
    /// Lookback window size. Must be >= 1 and strictly less than data length.
    pub period: usize,
    /// Which moving average variant to use for smoothing True Range values.
    pub smooth_engine: SmoothEngine,
}

/// Which error, if any, the inputs of an ATR calculation are refused with.
pub open spec fn atr_input_result(close_len: int, high_len: int, low_len: int, period: int) -> Result<(), IndicatorError> {
    if close_len == 0 || high_len == 0 || low_len == 0 {
        Err(IndicatorError::EmptyData)
    } else if period == 0 {
        Err(IndicatorError::ImproperSetting)
    } else if close_len != high_len || high_len != low_len {
        Err(IndicatorError::DifferentDataLength)
    } else if close_len <= period {
        Err(IndicatorError::ImproperDataLength)
    } else {
        Ok(())
    }
}

/// Checks the input of an ATR calculation: empty candles first, then a zero
/// period, then candle series of different lengths, then data no longer than the
/// period, then the True Range and the smoothing engine's own checks (one value of
/// True Range per candle), each refusal passed on as it comes.
pub fn check_atr_input(close_len: usize, high_len: usize, low_len: usize, setting: &SettingAtr) -> (r: Result<(), IndicatorError>)
    ensures
        r == atr_input_result(close_len as int, high_len as int, low_len as int, setting.period as int),
{
    if close_len == 0 || high_len == 0 || low_len == 0 {
        return Err(IndicatorError::EmptyData);
    }
    if setting.period == 0 {
        return Err(IndicatorError::ImproperSetting);
    }
    if close_len != high_len || high_len != low_len {
        return Err(IndicatorError::DifferentDataLength);
    }
    if close_len <= setting.period {
        return Err(IndicatorError::ImproperDataLength);
    }
    check_tr_input(close_len, high_len, low_len)?;
    let period = setting.period;
    match setting.smooth_engine {
        SmoothEngine::SMA => check_sma_input(close_len, &SettingSma { period }),
        SmoothEngine::SMMA => check_smma_input(close_len, &SettingSmma { period }),
        SmoothEngine::EMA => check_ema_input(close_len, &SettingEma { period }),
        SmoothEngine::RMA => check_rma_input(close_len, &SettingRma { period }),
        SmoothEngine::WMA => check_wma_input(close_len, &SettingWma { period }),
    }
}

/// Inputs that the ATR check accepts are accepted by the True Range stage and,
/// since the True Range has one value per candle, by every smoothing engine.
pub proof fn lemma_atr_stages_accept(close_len: int, high_len: int, low_len: int, period: int)
    requires
        atr_input_result(close_len, high_len, low_len, period) is Ok,
    ensures
        tr_input_result(close_len, high_len, low_len) is Ok,
        period_input_result(close_len, period) is Ok,
{
}

/// An ATR input is accepted exactly when closes, highs and lows have one, non-zero
/// length, the period is at least 1 and the candles are strictly more than the
/// period; that is, exactly when the True Range stage and the smoothing stage both
/// accept it.
pub proof fn lemma_atr_input_rules(close_len: nat, high_len: nat, low_len: nat, period: nat)
    ensures
        atr_input_result(close_len as int, high_len as int, low_len as int, period as int) is Ok
            <==> (close_len > 0 && close_len == high_len && high_len == low_len && 1 <= period && period < close_len),
        atr_input_result(close_len as int, high_len as int, low_len as int, period as int) is Ok
            <==> (tr_input_result(close_len as int, high_len as int, low_len as int) is Ok
                && period_input_result(close_len as int, period as int) is Ok),
        (close_len == 0 || high_len == 0 || low_len == 0) ==>
            atr_input_result(close_len as int, high_len as int, low_len as int, period as int) == Err::<(), IndicatorError>(IndicatorError::EmptyData),
        (close_len > 0 && high_len > 0 && low_len > 0 && period == 0) ==>
            atr_input_result(close_len as int, high_len as int, low_len as int, period as int) == Err::<(), IndicatorError>(IndicatorError::ImproperSetting),
        (close_len > 0 && high_len > 0 && low_len > 0 && period > 0
            && (close_len != high_len || high_len != low_len)) ==>
            atr_input_result(close_len as int, high_len as int, low_len as int, period as int) == Err::<(), IndicatorError>(IndicatorError::DifferentDataLength),
        (period > 0 && close_len == high_len && high_len == low_len && 0 < close_len <= period) ==>
            atr_input_result(close_len as int, high_len as int, low_len as int, period as int) == Err::<(), IndicatorError>(IndicatorError::ImproperDataLength),
{
}
} // verus!
