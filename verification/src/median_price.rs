//! Median Price: `(high + low) / 2` for each candle.
//!
//! The arithmetic is done on binary64 values by the caller; this module holds the
//! input check.
use vstd::prelude::*;
use crate::indicator_error::IndicatorError;

verus! {

/// Which error, if any, highs and lows of the given lengths are refused with.
pub open spec fn median_price_input_result(high_len: int, low_len: int) -> Result<(), IndicatorError> {
    if high_len == 0 || low_len == 0 {
        Err(IndicatorError::EmptyData)
    } else if high_len != low_len {
        Err(IndicatorError::DifferentDataLength)
    } else {
        Ok(())
    }
}

/// Checks the input of a Median Price calculation: neither series may be empty,
/// and both must have one length.
pub fn check_median_price_input(high_len: usize, low_len: usize) -> (r: Result<(), IndicatorError>)
    ensures
        r == median_price_input_result(high_len as int, low_len as int),
{
    if high_len == 0 || low_len == 0 {
        return Err(IndicatorError::EmptyData);
    }
    if high_len != low_len {
        return Err(IndicatorError::DifferentDataLength);
    }
    Ok(())
}

/// Highs and lows are accepted exactly when they have one, non-zero length: an
/// empty series is `EmptyData`, and two non-empty series of different lengths are
/// always `DifferentDataLength`, whichever is the longer.
pub proof fn lemma_median_price_input_rules(high_len: nat, low_len: nat)
    ensures
        median_price_input_result(high_len as int, low_len as int) is Ok <==> (high_len > 0 && high_len == low_len),
        (high_len == 0 || low_len == 0) ==>
            median_price_input_result(high_len as int, low_len as int) == Err::<(), IndicatorError>(IndicatorError::EmptyData),
        (high_len > 0 && low_len > 0 && high_len != low_len) ==>
            median_price_input_result(high_len as int, low_len as int) == Err::<(), IndicatorError>(IndicatorError::DifferentDataLength),
{
}
} // verus!
