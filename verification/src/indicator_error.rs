//! Shared error type used uniformly by all indicator checks.
use vstd::prelude::*;

verus! {

/// Errors returned by indicator calculations.
#[derive(Debug, Clone, Copy, PartialEq, Eq, Structural)]
pub enum IndicatorError {
    /// One or more input slices are empty.
    EmptyData,
    /// Multiple input slices have mismatched lengths.
    DifferentDataLength,
    /// Input data is too short for the requested period / factor.
    ImproperDataLength,
    /// Configuration is invalid (e.g. zero period, zero/negative factor).
    ImproperSetting,
}

/// The message of each error.
pub open spec fn error_message(e: IndicatorError) -> Seq<char> {
    match e {
        IndicatorError::EmptyData => "Input data can not be empty"@,
        IndicatorError::DifferentDataLength => "Input data can not have a different length than input"@,
        IndicatorError::ImproperDataLength => "Improper data length"@,
        IndicatorError::ImproperSetting => "Improper setting"@,
    }
}

impl IndicatorError {
    /// The human-readable message of the error.
    pub fn as_str(&self) -> (s: &'static str)
        ensures
            s@ == error_message(*self),
    {
        match self {
            IndicatorError::EmptyData => "Input data can not be empty",
            IndicatorError::DifferentDataLength => {
                "Input data can not have a different length than input"
            },
            IndicatorError::ImproperDataLength => "Improper data length",
            IndicatorError::ImproperSetting => "Improper setting",
        }
    }

    /// The human-readable message of the error as an owned string.
    pub fn to_string(&self) -> (s: String)
        ensures
            s@ == error_message(*self),
    {
        self.as_str().to_owned()
    }
}

/// The rule that every moving average applies to its input: data must not be
/// empty, the period must be at least 1, and the data must be strictly longer
/// than the period.
pub open spec fn period_input_result(data_len: int, period: int) -> Result<(), IndicatorError> {
    if data_len == 0 {
        Err(IndicatorError::EmptyData)
    } else if period == 0 {
        Err(IndicatorError::ImproperSetting)
    } else if data_len <= period {
        Err(IndicatorError::ImproperDataLength)
    } else {
        Ok(())
    }
}

/// Checks data of length `data_len` against a moving-average `period`.
pub fn check_period_input(data_len: usize, period: usize) -> (r: Result<(), IndicatorError>)
    ensures
        r == period_input_result(data_len as int, period as int),
{
    if data_len == 0 {
        return Err(IndicatorError::EmptyData);
    }
    if period == 0 {
        return Err(IndicatorError::ImproperSetting);
    }
    if data_len <= period {
        return Err(IndicatorError::ImproperDataLength);
    }
    Ok(())
}

/// A moving average accepts its input exactly when the period is at least 1 and
/// the data is strictly longer than the period; empty data is `EmptyData`, a zero
/// period on non-empty data `ImproperSetting`, and otherwise data no longer than
/// the period `ImproperDataLength`.
pub proof fn lemma_period_input_rules(data_len: nat, period: nat)
    ensures
        period_input_result(data_len as int, period as int) is Ok <==> (1 <= period && period < data_len),
        data_len == 0 ==> period_input_result(data_len as int, period as int) == Err::<(), IndicatorError>(IndicatorError::EmptyData),
        (data_len > 0 && period == 0) ==>
            period_input_result(data_len as int, period as int) == Err::<(), IndicatorError>(IndicatorError::ImproperSetting),
        (period > 0 && 0 < data_len <= period) ==>
            period_input_result(data_len as int, period as int) == Err::<(), IndicatorError>(IndicatorError::ImproperDataLength),
{
}
} // verus!
