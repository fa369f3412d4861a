use mlab_movie_compressor::{validate_target_size, Settings, INVALID_TARGET_SIZE, RECENT_LIMIT};

fn sizes(settings: &Settings) -> Vec<f64> {
    settings.recent_target_sizes.iter().map(|bits| f64::from_bits(*bits)).collect()
}

#[test]
fn records_newest_last() {
    let mut settings = Settings::new();
    settings.record_target(8.0f64.to_bits());
    settings.record_target(25.5f64.to_bits());
    assert_eq!(sizes(&settings), vec![8.0, 25.5]);
}

#[test]
fn keeps_only_four_latest_in_order() {
    let mut settings = Settings::default();
    for size in [1.0f64, 2.0, 3.0, 4.0, 5.0, 6.0] {
        settings.record_target(size.to_bits());
        assert!(settings.recent_target_sizes.len() <= RECENT_LIMIT);
    }
    assert_eq!(sizes(&settings), vec![3.0, 4.0, 5.0, 6.0]);
}

#[test]
fn trims_an_overlong_history() {
    let mut settings = Settings { recent_target_sizes: vec![1, 2, 3, 4, 5, 6] };
    settings.record_target(7);
    assert_eq!(settings.recent_target_sizes, vec![4, 5, 6, 7]);
}

#[test]
fn repeated_sizes_are_kept() {
    let mut settings = Settings::new();
    settings.record_target(10.0f64.to_bits());
    settings.record_target(10.0f64.to_bits());
    assert_eq!(sizes(&settings), vec![10.0, 10.0]);
}

#[test]
fn target_size_must_be_positive_and_finite() {
    assert!(validate_target_size(0.5f64.to_bits()).is_ok());
    for bad in [0.0f64, -3.0, f64::NAN, f64::INFINITY] {
        assert_eq!(validate_target_size(bad.to_bits()).unwrap_err(), INVALID_TARGET_SIZE);
    }
}
