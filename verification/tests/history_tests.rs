use system_monitor::HistorySeries;
use system_monitor::RawValue;
use system_monitor::clamp_percent;
use system_monitor::percent_of;

fn series_values(h: &HistorySeries) -> Vec<u64> {
    let mut v = Vec::new();
    let mut i = 0;
    while i < h.len() {
        v.push(h.get(i));
        i += 1;
    }
    v
}

#[test]
fn length_is_fixed_through_pushes() {
    let mut h = HistorySeries::new(5, 0);
    assert_eq!(h.len(), 5);
    for v in 1..=12u64 {
        h.push(v);
        assert_eq!(h.len(), 5);
    }
}

#[test]
fn window_holds_last_n_pushed_values_in_order() {
    let mut h = HistorySeries::new(5, 0);
    for v in 1..=12u64 {
        h.push(v);
    }
    assert_eq!(series_values(&h), vec![8, 9, 10, 11, 12]);
    assert_eq!(h.newest(), 12);
}

#[test]
fn push_evicts_only_the_oldest() {
    let mut h = HistorySeries::new(3, 7);
    h.push(1);
    assert_eq!(series_values(&h), vec![7, 7, 1]);
    h.push(2);
    assert_eq!(series_values(&h), vec![7, 1, 2]);
}

#[test]
fn clamp_non_finite_yields_exactly_zero() {
    assert_eq!(clamp_percent(RawValue::NonFinite), 0);
}

#[test]
fn clamp_negative_yields_zero() {
    assert_eq!(clamp_percent(RawValue::Finite(-1)), 0);
    assert_eq!(clamp_percent(RawValue::Finite(i64::MIN)), 0);
}

#[test]
fn clamp_above_full_scale_yields_full_scale() {
    assert_eq!(clamp_percent(RawValue::Finite(100_001)), 100_000);
    assert_eq!(clamp_percent(RawValue::Finite(i64::MAX)), 100_000);
}

#[test]
fn clamp_keeps_in_range_values() {
    assert_eq!(clamp_percent(RawValue::Finite(0)), 0);
    assert_eq!(clamp_percent(RawValue::Finite(42_500)), 42_500);
    assert_eq!(clamp_percent(RawValue::Finite(100_000)), 100_000);
}

#[test]
fn percent_with_zero_total_is_zero() {
    assert_eq!(percent_of(512 * 1024 * 1024, 0), 0);
}

#[test]
fn percent_exact_half() {
    assert_eq!(percent_of(1500, 3000), 50_000);
}

#[test]
fn percent_clamps_above_full() {
    assert_eq!(percent_of(4500, 3000), 100_000);
}

#[test]
fn percent_survives_huge_inputs() {
    assert_eq!(percent_of(u64::MAX, u64::MAX), 100_000);
    assert_eq!(percent_of(u64::MAX / 4, u64::MAX / 2), 49_999);
}
