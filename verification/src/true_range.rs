//! True Range (TR): a volatility measure.
//!
//! `TR[0] = high[0] - low[0]` and
//! `TR[i] = max(high[i] - low[i], |high[i] - close[i-1]|, |low[i] - close[i-1]|)`.
//! The arithmetic is done on binary64 values by the caller; this module holds the
//! input check.
use vstd::prelude::*;
use crate::indicator_error::IndicatorError;

verus! {

/// Which error, if any, closes, highs and lows of the given lengths are refused with.
pub open spec fn tr_input_result(close_len: int, high_len: int, low_len: int) -> Result<(), IndicatorError> {
    if close_len == 0 || high_len == 0 || low_len == 0 {
        Err(IndicatorError::EmptyData)
    } else if close_len != high_len || high_len != low_len {
        Err(IndicatorError::DifferentDataLength)
    } else {
        Ok(())
    }
}

/// Checks the input of a True Range calculation: no series may be empty, and all
/// must have one length.
pub fn check_tr_input(close_len: usize, high_len: usize, low_len: usize) -> (r: Result<(), IndicatorError>)
    ensures
        r == tr_input_result(close_len as int, high_len as int, low_len as int),
{
    if close_len == 0 || high_len == 0 || low_len == 0 {
        return Err(IndicatorError::EmptyData);
    }
    if close_len != high_len || high_len != low_len {
        return Err(IndicatorError::DifferentDataLength);
    }
    Ok(())
}

/// Closes, highs and lows are accepted exactly when all three have one, non-zero
/// length: an empty series is `EmptyData`, and non-empty series of which any two
/// differ in length are always `DifferentDataLength`.
pub proof fn lemma_tr_input_rules(close_len: nat, high_len: nat, low_len: nat)
    ensures
        tr_input_result(close_len as int, high_len as int, low_len as int) is Ok
            <==> (close_len > 0 && close_len == high_len && high_len == low_len),
        (close_len == 0 || high_len == 0 || low_len == 0) ==>
            tr_input_result(close_len as int, high_len as int, low_len as int) == Err::<(), IndicatorError>(IndicatorError::EmptyData),
        (close_len > 0 && high_len > 0 && low_len > 0
            && (close_len != high_len || high_len != low_len || close_len != low_len)) ==>
            tr_input_result(close_len as int, high_len as int, low_len as int) == Err::<(), IndicatorError>(IndicatorError::DifferentDataLength),
{
}
} // verus!
