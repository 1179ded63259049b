use market_signals::classical::{confidence, estimate, momentum, Confidence, Momentum};
use market_signals::classical::{FLAT_STRENGTH, MOMENTUM_SPAN, NEUTRAL_CONFIDENCE, VOLATILITY_SAMPLES};
use market_signals::window::window_back;

fn series(len: usize) -> Vec<u32> {
    (1..=len as u32).collect()
}

#[test]
fn window_of_an_empty_series_is_empty() {
    let data: Vec<u32> = Vec::new();
    assert_eq!(window_back(&data, 0, 5), Vec::<u32>::new());
    assert_eq!(window_back(&data, 5, 5), Vec::<u32>::new());
}

#[test]
fn window_runs_from_the_newest_sample_backward() {
    assert_eq!(window_back(&series(7), 0, 5), vec![7, 6, 5, 4, 3]);
    assert_eq!(window_back(&series(7), 0, 3), vec![7, 6, 5]);
    assert_eq!(window_back(&series(7), 2, 3), vec![5, 4, 3]);
}

#[test]
fn window_stops_at_the_oldest_sample() {
    assert_eq!(window_back(&series(3), 0, 5), vec![3, 2, 1]);
    assert_eq!(window_back(&series(7), 5, 5), vec![2, 1]);
    assert_eq!(window_back(&series(7), 6, 5), vec![1]);
}

#[test]
fn window_behind_the_whole_series_is_empty() {
    assert_eq!(window_back(&series(5), 5, 5), Vec::<u32>::new());
    assert_eq!(window_back(&series(5), 9, 5), Vec::<u32>::new());
    assert_eq!(window_back(&series(5), usize::MAX, usize::MAX), Vec::<u32>::new());
}

#[test]
fn window_of_no_span_is_empty() {
    assert_eq!(window_back(&series(5), 0, 0), Vec::<u32>::new());
    assert_eq!(window_back(&series(5), 2, 0), Vec::<u32>::new());
}

#[test]
fn window_with_a_span_beyond_the_series_takes_what_is_there() {
    assert_eq!(window_back(&series(4), 1, usize::MAX), vec![3, 2, 1]);
}

#[test]
fn momentum_is_flat_up_to_five_samples() {
    for len in 0..=5 {
        match momentum(&series(len)) {
            Momentum::Known(bits) => assert_eq!(bits, FLAT_STRENGTH),
            Momentum::RelativeChange { .. } => panic!("{} samples have no older window", len),
        }
    }
}

#[test]
fn momentum_compares_two_windows_from_six_samples_on() {
    for len in 6..=24 {
        let data = series(len);
        match momentum(&data) {
            Momentum::Known(_) => panic!("{} samples have both windows", len),
            Momentum::RelativeChange { recent, older } => {
                let n = len as u32;
                assert_eq!(recent, vec![n, n - 1, n - 2, n - 3, n - 4]);
                let expected: Vec<u32> = (1..=n - 5).rev().take(5).collect();
                assert_eq!(older, expected);
                assert_eq!(older.len(), (len - 5).min(5));
            }
        }
    }
}

#[test]
fn momentum_of_six_samples_has_an_older_window_of_one() {
    match momentum(&[10u8, 20, 30, 40, 50, 60]) {
        Momentum::RelativeChange { recent, older } => {
            assert_eq!(recent, vec![60, 50, 40, 30, 20]);
            assert_eq!(older, vec![10]);
        }
        Momentum::Known(_) => panic!("six samples have both windows"),
    }
}

#[test]
fn windows_agree_with_reversed_iteration() {
    for len in 0..=30 {
        let data = series(len);
        let recent: Vec<u32> = data.iter().rev().take(5).copied().collect();
        let older: Vec<u32> = data.iter().rev().skip(5).take(5).copied().collect();
        assert_eq!(window_back(&data, 0, MOMENTUM_SPAN), recent);
        assert_eq!(window_back(&data, MOMENTUM_SPAN, MOMENTUM_SPAN), older);
    }
}

#[test]
fn confidence_is_neutral_below_ten_samples() {
    for len in 0..10 {
        assert_eq!(confidence(&series(len)), Confidence::Known(NEUTRAL_CONFIDENCE));
    }
}

#[test]
fn confidence_is_taken_from_volatility_from_ten_samples_on() {
    for len in 10..=40 {
        assert_eq!(confidence(&series(len)), Confidence::FromVolatility);
    }
}

#[test]
fn thresholds_are_five_and_ten() {
    assert_eq!(MOMENTUM_SPAN, 5);
    assert_eq!(VOLATILITY_SAMPLES, 10);
}

#[test]
fn estimate_joins_momentum_and_confidence() {
    let e = estimate(&series(9));
    assert_eq!(e.confidence, Confidence::Known(NEUTRAL_CONFIDENCE));
    match e.momentum {
        Momentum::RelativeChange { recent, older } => {
            assert_eq!(recent, vec![9, 8, 7, 6, 5]);
            assert_eq!(older, vec![4, 3, 2, 1]);
        }
        Momentum::Known(_) => panic!("nine samples have both windows"),
    }
    let e = estimate(&series(10));
    assert_eq!(e.confidence, Confidence::FromVolatility);
    let e = estimate(&series(1));
    assert_eq!(e.confidence, Confidence::Known(NEUTRAL_CONFIDENCE));
    assert!(matches!(e.momentum, Momentum::Known(FLAT_STRENGTH)));
}
