use qtrade_indicators::indicator_error::IndicatorError;
use qtrade_indicators::supertrend::{
    SupertrendData, TrendType, check_supertrend_input, supertrend_from_bands,
};

/// The full Supertrend calculation: the input check, the raw bands
/// `median +- factor * atr` in binary64, then the band and trend logic.
fn supertrend(
    close: &[f64],
    median: &[f64],
    atr: &[f64],
    factor: f64,
) -> Result<Vec<SupertrendData>, IndicatorError> {
    check_supertrend_input(close.len(), median.len(), atr.len(), factor.to_bits())?;
    let upper: Vec<u64> = median.iter().zip(atr).map(|(m, a)| (m + (factor * a)).to_bits()).collect();
    let lower: Vec<u64> = median.iter().zip(atr).map(|(m, a)| (m - (factor * a)).to_bits()).collect();
    let close_bits: Vec<u64> = close.iter().map(|c| c.to_bits()).collect();
    supertrend_from_bands(&close_bits, &upper, &lower)
}

fn f(bits: u64) -> f64 {
    f64::from_bits(bits)
}

fn make_custom_data() -> (Vec<f64>, Vec<f64>, Vec<f64>) {
    let close = vec![10.0, 11.0, 12.0, 9.0, 8.0, 13.0];
    let median = vec![10.0, 10.5, 11.5, 9.5, 8.5, 12.5];
    let atr = vec![1.0, 1.0, 1.0, 1.0, 1.0, 1.0];
    (close, median, atr)
}

#[test]
fn test_calculate_supertrend_basic() {
    let (close, median, atr) = make_custom_data();
    let result = supertrend(&close, &median, &atr, 2.0).unwrap();
    assert_eq!(result.len(), 6);
    assert_eq!(result[0].trend, TrendType::Up);
    assert!((f(result[0].upper_band) - 12.0).abs() < 1e-10);
    assert!((f(result[0].lower_band) - 8.0).abs() < 1e-10);
}

#[test]
fn test_calculate_supertrend_trend_flip_up_to_down() {
    let (close, median, atr) = make_custom_data();
    let result = supertrend(&close, &median, &atr, 2.0).unwrap();
    assert_eq!(result[3].trend, TrendType::Down);
    assert_eq!(result[4].trend, TrendType::Down);
}

#[test]
fn test_calculate_supertrend_band_continuity() {
    let close = vec![10.0, 10.0, 10.0, 10.0];
    let median = vec![10.0, 10.0, 5.0, 5.0];
    let atr = vec![1.0, 1.0, 1.0, 1.0];
    let result = supertrend(&close, &median, &atr, 2.0).unwrap();
    assert_eq!(result.len(), 4);
    assert_eq!(result[0].trend, TrendType::Up);
    assert!((f(result[2].upper_band) - 7.0).abs() < 1e-10);
    assert!((f(result[2].lower_band) - 8.0).abs() < 1e-10);
}

#[test]
fn test_calculate_supertrend_empty() {
    assert!(matches!(
        supertrend(&[], &[1.0], &[1.0], 2.0).unwrap_err(),
        IndicatorError::EmptyData
    ));
}

#[test]
fn test_calculate_supertrend_length_mismatch() {
    assert!(matches!(
        supertrend(&[1.0, 2.0], &[1.0], &[1.0], 2.0).unwrap_err(),
        IndicatorError::DifferentDataLength
    ));
}

#[test]
fn test_calculate_supertrend_zero_factor() {
    assert!(matches!(
        supertrend(&[1.0], &[1.0], &[1.0], 0.0).unwrap_err(),
        IndicatorError::ImproperSetting
    ));
}

#[test]
fn test_calculate_supertrend_negative_factor() {
    assert!(matches!(
        supertrend(&[1.0], &[1.0], &[1.0], -1.0).unwrap_err(),
        IndicatorError::ImproperSetting
    ));
}

#[test]
fn test_supertrend_full_trace() {
    // The documented example, every point.
    let (close, median, atr) = make_custom_data();
    let result = supertrend(&close, &median, &atr, 2.0).unwrap();
    let trends: Vec<TrendType> = result.iter().map(|d| d.trend).collect();
    assert_eq!(
        trends,
        vec![TrendType::Up, TrendType::Up, TrendType::Up, TrendType::Down, TrendType::Down, TrendType::Up]
    );
    let uppers: Vec<f64> = result.iter().map(|d| f(d.upper_band)).collect();
    let lowers: Vec<f64> = result.iter().map(|d| f(d.lower_band)).collect();
    assert_eq!(uppers, vec![12.0, 12.0, 12.0, 11.5, 10.5, 10.5]);
    assert_eq!(lowers, vec![8.0, 8.5, 9.5, 9.5, 6.5, 10.5]);
}

#[test]
fn test_supertrend_negative_zero_factor_refused() {
    assert_eq!(
        check_supertrend_input(1, 1, 1, (-0.0f64).to_bits()),
        Err(IndicatorError::ImproperSetting)
    );
    assert_eq!(check_supertrend_input(1, 1, 1, 1e-300f64.to_bits()), Ok(()));
}

#[test]
fn test_supertrend_nan_factor_refused() {
    // The factor must be > 0.0, which a NaN is not.
    assert_eq!(
        check_supertrend_input(2, 2, 2, f64::NAN.to_bits()),
        Err(IndicatorError::ImproperSetting)
    );
    assert!(matches!(
        supertrend(&[1.0], &[1.0], &[1.0], f64::NAN).unwrap_err(),
        IndicatorError::ImproperSetting
    ));
}

#[test]
fn test_supertrend_setting_checked_before_lengths() {
    assert_eq!(
        supertrend(&[1.0, 2.0], &[1.0], &[1.0], 0.0).unwrap_err(),
        IndicatorError::ImproperSetting
    );
    assert_eq!(
        supertrend(&[], &[1.0], &[1.0], 0.0).unwrap_err(),
        IndicatorError::EmptyData
    );
}

#[test]
fn test_supertrend_from_bands_errors() {
    assert_eq!(supertrend_from_bands(&[], &[], &[]).unwrap_err(), IndicatorError::EmptyData);
    assert_eq!(
        supertrend_from_bands(&[1], &[1, 2], &[1]).unwrap_err(),
        IndicatorError::DifferentDataLength
    );
}

#[test]
fn test_supertrend_first_trend_down_when_close_at_lower() {
    let result = supertrend(&[8.0], &[10.0], &[1.0], 2.0).unwrap();
    assert_eq!(result[0].trend, TrendType::Down);
}

#[test]
fn test_supertrend_down_to_up_flip() {
    // Starts Down, then the close reaches the upper band.
    let close = vec![5.0, 20.0];
    let median = vec![10.0, 10.0];
    let atr = vec![1.0, 1.0];
    let result = supertrend(&close, &median, &atr, 2.0).unwrap();
    assert_eq!(result[0].trend, TrendType::Down);
    assert_eq!(result[1].trend, TrendType::Up);
    assert_eq!(f(result[1].upper_band), 12.0);
}
