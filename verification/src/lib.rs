//! Technical analysis indicators for trading.
//!
//! The library holds the decision logic of each indicator: which inputs are
//! refused and with which error, and the comparison-driven indicators
//! (Williams Fractals and the band and trend logic of Supertrend), which work on
//! IEEE-754 binary64 values given by their bit patterns.
use vstd::prelude::*;

pub mod binary64;
pub mod indicator_error;
pub mod median_price;
pub mod true_range;
pub mod williams_fractals;
pub mod simple_moving_average;
pub mod smoothed_moving_average;
pub mod exponential_moving_average;
pub mod running_moving_average;
pub mod weighted_moving_average;
pub mod average_true_range;
pub mod moving_average_convergence_divergence;
pub mod supertrend;

verus! {

/// A named identifier for each available indicator.
#[derive(Debug, Clone, Copy, PartialEq, Eq, Structural)]
pub enum Indicator {
    MedianPrice,
    TrueRange,
    WilliamsFractals,
    SimpleMovingAverage,
    SmoothedMovingAverage,
    ExponentialMovingAverage,
    RunningMovingAverage,
    WeightedMovingAverage,
    AverageTrueRange,
    MovingAverageConvergenceDivergence,
    Supertrend,
}

/// The display name of each indicator.
pub open spec fn indicator_name(i: Indicator) -> Seq<char> {
    match i {
        Indicator::MedianPrice => "Median Price"@,
        Indicator::TrueRange => "True Range"@,
        Indicator::WilliamsFractals => "Williams Fractals"@,
        Indicator::SimpleMovingAverage => "Simple Moving Average"@,
        Indicator::SmoothedMovingAverage => "Smoothed Moving Average"@,
        Indicator::ExponentialMovingAverage => "Exponential Moving Average"@,
        Indicator::RunningMovingAverage => "Running Moving Average"@,
        Indicator::WeightedMovingAverage => "Weighted Moving Average"@,
        Indicator::AverageTrueRange => "Average True Range"@,
        Indicator::MovingAverageConvergenceDivergence => "Moving Average Convergence Divergence"@,
        Indicator::Supertrend => "Supertrend"@,
    }
}

impl Indicator {
    /// The display name of the indicator.
    pub fn as_str(&self) -> (s: &'static str)
        ensures
            s@ == indicator_name(*self),
    {
        match self {
            Indicator::MedianPrice => "Median Price",
            Indicator::TrueRange => "True Range",
            Indicator::WilliamsFractals => "Williams Fractals",
            Indicator::SimpleMovingAverage => "Simple Moving Average",
            Indicator::SmoothedMovingAverage => "Smoothed Moving Average",
            Indicator::ExponentialMovingAverage => "Exponential Moving Average",
            Indicator::RunningMovingAverage => "Running Moving Average",
            Indicator::WeightedMovingAverage => "Weighted Moving Average",
            Indicator::AverageTrueRange => "Average True Range",
            Indicator::MovingAverageConvergenceDivergence => {
                "Moving Average Convergence Divergence"
            },
            Indicator::Supertrend => "Supertrend",
        }
    }

    /// The display name of the indicator as an owned string.
    pub fn to_string(&self) -> (s: String)
        ensures
            s@ == indicator_name(*self),
    {
        self.as_str().to_owned()
    }
}

} // verus!
