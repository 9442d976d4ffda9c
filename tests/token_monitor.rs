use solana_holder_bot::{
    record_poll, PollError, calculate_stats, check_alerts, format_timestamp, stats_at, HolderStats, Metrics, Percent,
};

fn percent_value(p: &Percent) -> f64 {
    p.numerator as f64 / p.denominator as f64
}

#[test]
fn test_calculate_stats() {
    let stats = calculate_stats(100, Some(80));
    assert_eq!(stats.count, 100);
    assert_eq!(stats.change, 20);
    assert!((percent_value(&stats.change_percent) - 25.0).abs() < 0.1);
}

#[test]
fn test_check_alerts_growth() {
    let mut metrics = Metrics::new();
    let stats = HolderStats {
        count: 150,
        timestamp: 0,
        change: 50,
        change_percent: Percent::whole(50),
    };
    check_alerts(&stats, Some(100), &mut metrics);
    assert_eq!(metrics.alerts.len(), 1);
    assert!(metrics.alerts[0].contains("GROWTH"));
}

#[test]
fn test_check_alerts_drop() {
    let mut metrics = Metrics::new();
    let stats = HolderStats {
        count: 80,
        timestamp: 0,
        change: -20,
        change_percent: Percent::whole(-20),
    };
    check_alerts(&stats, Some(100), &mut metrics);
    assert_eq!(metrics.alerts.len(), 1);
    assert!(metrics.alerts[0].contains("DROP"));
}

#[test]
fn change_is_signed_difference() {
    let up = stats_at(130, Some(100), 7);
    assert_eq!(up.change, 30);
    assert_eq!(up.timestamp, 7);
    let down = stats_at(3, Some(10), 7);
    assert_eq!(down.change, -7);
    assert!((percent_value(&down.change_percent) + 70.0).abs() < 1e-9);
}

#[test]
fn first_observation_has_no_change() {
    let s = stats_at(42, None, 0);
    assert_eq!(s.count, 42);
    assert_eq!(s.change, 0);
    assert_eq!(percent_value(&s.change_percent), 0.0);
}

#[test]
fn zero_base_percentages() {
    assert_eq!(percent_value(&stats_at(0, Some(0), 0).change_percent), 0.0);
    assert_eq!(percent_value(&stats_at(5, Some(0), 0).change_percent), 100.0);
    assert_eq!(stats_at(5, Some(0), 0).change, 5);
}

#[test]
fn calculate_stats_stamps_current_time() {
    let s = calculate_stats(1, None);
    assert!(s.timestamp > 1_600_000_000);
}

#[test]
fn growth_alert_from_computed_stats() {
    let mut metrics = Metrics::new();
    let stats = stats_at(150, Some(100), 0);
    check_alerts(&stats, Some(100), &mut metrics);
    assert_eq!(metrics.alerts, vec!["🚀 SIGNIFICANT GROWTH: +50 holders (+50.0%) | 100 -> 150".to_string()]);
}

#[test]
fn drop_alert_from_computed_stats() {
    let mut metrics = Metrics::new();
    let stats = stats_at(80, Some(100), 0);
    check_alerts(&stats, Some(100), &mut metrics);
    assert_eq!(metrics.alerts, vec!["⚠️ SIGNIFICANT DROP: -20 holders (-20.0%) | 100 -> 80".to_string()]);
}

#[test]
fn no_alert_between_thresholds() {
    let mut metrics = Metrics::new();
    check_alerts(&stats_at(149, Some(100), 0), Some(100), &mut metrics);
    check_alerts(&stats_at(81, Some(100), 0), Some(100), &mut metrics);
    assert!(metrics.alerts.is_empty());
}

#[test]
fn no_alert_without_previous() {
    let mut metrics = Metrics::new();
    let stats = HolderStats { count: 500, timestamp: 0, change: 400, change_percent: Percent::whole(400) };
    check_alerts(&stats, None, &mut metrics);
    assert!(metrics.alerts.is_empty());
}

#[test]
fn alert_percent_rounds_to_one_decimal() {
    let mut metrics = Metrics::new();
    check_alerts(&stats_at(5, Some(3), 0), Some(3), &mut metrics);
    assert_eq!(metrics.alerts, vec!["🚀 SIGNIFICANT GROWTH: +2 holders (+66.7%) | 3 -> 5".to_string()]);
}

#[test]
fn alerts_accumulate_in_order() {
    let mut metrics = Metrics::new();
    metrics.add_alert("first".to_string());
    check_alerts(&stats_at(2, Some(1), 0), Some(1), &mut metrics);
    assert_eq!(metrics.alerts.len(), 2);
    assert_eq!(metrics.alerts[0], "first");
    assert!(metrics.alerts[1].contains("+100.0%"));
}

#[test]
fn metrics_track_min_max_and_sum() {
    let mut m = Metrics::new();
    assert_eq!(m.total_polls, 0);
    assert_eq!(m.min_holders, None);
    m.update(10);
    m.update(4);
    m.update(25);
    assert_eq!(m.total_polls, 3);
    assert_eq!(m.total_holders_sum, 39);
    assert_eq!(m.min_holders, Some(4));
    assert_eq!(m.max_holders, Some(25));
}

#[test]
fn timestamps_format_in_utc() {
    assert_eq!(format_timestamp(0), "1970-01-01 00:00:00 UTC");
    assert_eq!(format_timestamp(1_700_000_000), "2023-11-14 22:13:20 UTC");
}

#[test]
fn record_poll_updates_metrics_and_alerts() {
    let mut m = Metrics::new();
    let first = record_poll(&mut m, 100, None).unwrap();
    assert_eq!(first.change, 0);
    assert!(m.alerts.is_empty());
    let second = record_poll(&mut m, 160, Some(100)).unwrap();
    assert_eq!(second.change, 60);
    assert_eq!(m.total_polls, 2);
    assert_eq!(m.total_holders_sum, 260);
    assert_eq!(m.min_holders, Some(100));
    assert_eq!(m.max_holders, Some(160));
    assert_eq!(m.alerts.len(), 1);
    assert!(m.alerts[0].contains("GROWTH"));
}

#[test]
fn record_poll_refuses_overflow() {
    let mut m = Metrics::new();
    assert_eq!(record_poll(&mut m, usize::MAX, Some(0)).unwrap_err(), PollError::ChangeOverflow);
    assert_eq!(m.total_polls, 0);
    m.total_holders_sum = usize::MAX - 1;
    assert_eq!(record_poll(&mut m, 2, None).unwrap_err(), PollError::MetricsOverflow);
    assert_eq!(m.total_polls, 0);
    assert_eq!(m.min_holders, None);
}

#[test]
fn alert_text_shows_negative_change_and_fraction() {
    let mut metrics = Metrics::new();
    check_alerts(&stats_at(7, Some(9), 0), Some(9), &mut metrics);
    assert_eq!(metrics.alerts, vec!["⚠️ SIGNIFICANT DROP: -2 holders (-22.2%) | 9 -> 7".to_string()]);
}
