use qtrade_indicators::indicator_error::IndicatorError;
use qtrade_indicators::williams_fractals::{SettingWf, WFData, calculate_wf};

fn bits(data: &[f64]) -> Vec<u64> {
    data.iter().map(|x| x.to_bits()).collect()
}

fn wf(high: &[f64], low: &[f64], setting: &SettingWf) -> Result<Vec<WFData>, IndicatorError> {
    calculate_wf(&bits(high), &bits(low), setting)
}

#[test]
fn test_calculate_wf_high_fractal() {
    // Peak at index 2: 20 > left neighbors (10,15) and right neighbors (15,10)
    let high = vec![10.0, 15.0, 20.0, 15.0, 10.0];
    let low = vec![5.0, 8.0, 10.0, 8.0, 5.0];
    let setting = SettingWf { factor: 2 };
    let result = wf(&high, &low, &setting).unwrap();
    assert_eq!(result.len(), 5);
    assert!(result[2].fractal_high);
    assert!(!result[2].fractal_low);
}

#[test]
fn test_calculate_wf_low_fractal() {
    // Valley at index 2: 5 < left neighbors (10,8) and right neighbors (8,10)
    let high = vec![20.0, 15.0, 10.0, 15.0, 20.0];
    let low = vec![10.0, 8.0, 5.0, 8.0, 10.0];
    let setting = SettingWf { factor: 2 };
    let result = wf(&high, &low, &setting).unwrap();
    assert_eq!(result.len(), 5);
    assert!(result[2].fractal_low);
    assert!(!result[2].fractal_high);
}

#[test]
fn test_calculate_wf_both_fractals() {
    let high = vec![5.0, 8.0, 15.0, 8.0, 5.0];
    let low = vec![3.0, 4.0, 2.0, 4.0, 3.0];
    let setting = SettingWf { factor: 2 };
    let result = wf(&high, &low, &setting).unwrap();
    assert!(result[2].fractal_high);
    assert!(result[2].fractal_low);
}

#[test]
fn test_calculate_wf_no_fractal() {
    let high = vec![10.0, 12.0, 11.0, 13.0, 10.0];
    let low = vec![8.0, 9.0, 8.5, 10.0, 7.0];
    let setting = SettingWf { factor: 2 };
    let result = wf(&high, &low, &setting).unwrap();
    // Index 2: high=11 <= high[1]=12 => not fractal
    assert!(!result[2].fractal_high);
}

#[test]
fn test_calculate_wf_boundary_elements() {
    let high = vec![1.0, 2.0, 3.0, 2.0, 1.0];
    let low = vec![1.0, 1.0, 1.0, 1.0, 1.0];
    let setting = SettingWf { factor: 2 };
    let result = wf(&high, &low, &setting).unwrap();
    assert!(!result[0].fractal_high);
    assert!(!result[1].fractal_high);
    assert!(!result[3].fractal_high);
    assert!(!result[4].fractal_high);
}

#[test]
fn test_calculate_wf_empty() {
    assert!(matches!(
        wf(&[], &[1.0], &SettingWf { factor: 2 }).unwrap_err(),
        IndicatorError::EmptyData
    ));
}

#[test]
fn test_calculate_wf_length_mismatch() {
    assert!(matches!(
        wf(&[1.0, 2.0], &[1.0], &SettingWf { factor: 2 }).unwrap_err(),
        IndicatorError::DifferentDataLength
    ));
}

#[test]
fn test_calculate_wf_insufficient_data() {
    assert!(matches!(
        wf(&[1.0, 2.0, 3.0], &[1.0, 2.0, 3.0], &SettingWf { factor: 2 }).unwrap_err(),
        IndicatorError::ImproperDataLength
    ));
}

#[test]
fn test_calculate_wf_minimum_valid() {
    // factor=1 requires 1*2+1=3 elements minimum
    let high = vec![1.0, 3.0, 2.0];
    let low = vec![1.0, 1.0, 1.0];
    let setting = SettingWf { factor: 1 };
    let result = wf(&high, &low, &setting).unwrap();
    assert_eq!(result.len(), 3);
    assert!(result[1].fractal_high);
}

#[test]
fn test_wf_equal_neighbour_is_not_fractal() {
    // A tie with a neighbour breaks a fractal (strict comparison).
    let high = vec![1.0, 3.0, 3.0, 1.0];
    let low = vec![2.0, 1.0, 1.0, 2.0];
    let result = wf(&high, &low, &SettingWf { factor: 1 }).unwrap();
    assert_eq!(result.len(), 4);
    assert!(result.iter().all(|d| !d.fractal_high && !d.fractal_low));
}

#[test]
fn test_wf_nan_breaks_fractal() {
    let high = vec![1.0, 3.0, f64::NAN];
    let low = vec![2.0, 1.0, f64::NAN];
    let result = wf(&high, &low, &SettingWf { factor: 1 }).unwrap();
    assert!(!result[1].fractal_high);
    assert!(!result[1].fractal_low);
}

#[test]
fn test_wf_factor_zero_refused() {
    assert_eq!(
        wf(&[1.0, 2.0, 3.0], &[1.0, 2.0, 3.0], &SettingWf { factor: 0 }).unwrap_err(),
        IndicatorError::ImproperSetting
    );
    // The setting is checked before the lengths, after emptiness.
    assert_eq!(
        wf(&[1.0, 2.0], &[1.0], &SettingWf { factor: 0 }).unwrap_err(),
        IndicatorError::ImproperSetting
    );
    assert_eq!(
        wf(&[], &[1.0], &SettingWf { factor: 0 }).unwrap_err(),
        IndicatorError::EmptyData
    );
}

#[test]
fn test_wf_fractals_are_separated() {
    // Alternating peaks: with factor 1 every other candle is a high fractal, never two in a row.
    let high = vec![1.0, 5.0, 1.0, 5.0, 1.0, 5.0, 1.0];
    let low = vec![0.0, 2.0, 0.0, 2.0, 0.0, 2.0, 0.0];
    let result = wf(&high, &low, &SettingWf { factor: 1 }).unwrap();
    let highs: Vec<bool> = result.iter().map(|d| d.fractal_high).collect();
    assert_eq!(highs, vec![false, true, false, true, false, true, false]);
    let lows: Vec<bool> = result.iter().map(|d| d.fractal_low).collect();
    assert_eq!(lows, vec![false, false, true, false, true, false, false]);
    for i in 1..result.len() {
        assert!(!(result[i - 1].fractal_high && result[i].fractal_high));
    }
}

#[test]
fn test_wf_huge_factor_is_refused() {
    assert_eq!(
        wf(&[1.0, 2.0, 3.0], &[1.0, 2.0, 3.0], &SettingWf { factor: usize::MAX }).unwrap_err(),
        IndicatorError::ImproperDataLength
    );
}
