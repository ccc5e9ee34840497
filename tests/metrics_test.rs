use sportfrei::app::App;
use sportfrei::metrics::{
    activity_pace, best_pace_in, biggest_distance, count_matching_months, dashboard_summary,
    format_best_pace, has_standstill_run, monthly_counts, recent_distance_sum, relative_performance,
};
use sportfrei::types::{Activity, ActivityStats, Athlete, AthleteStats};

// 2024-01-16T09:30:00Z
const NOW: i64 = 1_705_397_400;
// 2024-01-15T09:30:00Z
const JAN_15: i64 = 1_705_311_000;
// 2023-12-20T00:00:00Z
const DEC_20: i64 = 1_703_030_400;
// 2023-11-01T00:00:00Z
const NOV_01: i64 = 1_698_796_800;

fn activity(kind: &str, distance_m: u64, moving_time: u32, start: i64) -> Activity {
    Activity {
        id: 1,
        name: "Test".to_string(),
        activity_type: kind.to_string(),
        sport_type: kind.to_string(),
        start_date: start,
        start_date_local: start,
        timezone: "Europe/Berlin".to_string(),
        distance_mm: distance_m * 1000,
        moving_time,
        elapsed_time: moving_time,
        total_elevation_gain_mm: 0,
        average_speed_mm_s: None,
        max_speed_mm_s: None,
        average_heartrate_milli: None,
        max_heartrate_milli: None,
        calories_milli: None,
        description: None,
        kudos_count: None,
        comment_count: None,
        achievement_count: None,
        pr_count: None,
        private: None,
        commute: None,
        manual: None,
        gear_id: None,
    }
}

fn three_activities() -> Vec<Activity> {
    vec![
        activity("Run", 5000, 1500, JAN_15),
        activity("Run", 6000, 2100, DEC_20),
        activity("Run", 0, 600, NOV_01),
    ]
}

fn stats() -> AthleteStats {
    let t = ActivityStats {
        count: 0,
        distance_mm: 0,
        moving_time: 0,
        elapsed_time: 0,
        elevation_gain_mm: 0,
    };
    AthleteStats {
        biggest_ride_distance_mm: None,
        biggest_climb_elevation_gain_mm: None,
        recent_run_totals: t.clone(),
        recent_ride_totals: t.clone(),
        ytd_run_totals: t.clone(),
        ytd_ride_totals: t.clone(),
        all_run_totals: t.clone(),
        all_ride_totals: t,
    }
}

fn athlete() -> Athlete {
    Athlete {
        id: 1,
        username: None,
        firstname: "John".to_string(),
        lastname: "Doe".to_string(),
        city: None,
        country: None,
        profile: None,
        profile_medium: None,
    }
}

#[test]
fn scenario_fixed_list_metrics() {
    let acts = three_activities();
    assert_eq!(biggest_distance(&acts), 6_000_000);
    assert_eq!(recent_distance_sum(&acts, NOW), 11_000_000);
    assert_eq!(best_pace_in(&acts, None), Some(300));
    assert_eq!(format_best_pace(best_pace_in(&acts, None), has_standstill_run(&acts, None)), "5:00");
    assert_eq!(monthly_counts(&acts, NOW), (1, 1));
    let zero_only = vec![activity("Run", 0, 600, JAN_15)];
    assert_eq!(best_pace_in(&zero_only, None), None);
    assert_eq!(
        format_best_pace(best_pace_in(&zero_only, None), has_standstill_run(&zero_only, None)),
        "--:--"
    );
}

#[test]
fn dashboard_over_fixed_list() {
    let mut app = App::new();
    app.set_data(athlete(), stats(), three_activities(), 30);
    let s = app.dashboard_summary(NOW);
    assert_eq!(s.biggest_distance_mm, 6_000_000);
    assert_eq!(s.recent_distance_mm, 11_000_000);
    assert_eq!(s.best_pace_all, "5:00");
    assert_eq!(s.best_pace_recent, "5:00");
    assert_eq!(s.this_month_count, 1);
    assert_eq!(s.prev_month_count, 1);
    assert!(s.distance_trend_up);
    assert!(!s.pace_trend_up);
    assert!(!s.count_trend_up);
    assert_eq!(app.compute_biggest_distance(NOW), (6_000_000, 11_000_000));
    assert_eq!(app.compute_best_pace(NOW), ("5:00".to_string(), "5:00".to_string()));
    assert_eq!(app.compute_monthly_count(NOW), (1, 1));
}

#[test]
fn recent_window_excludes_old_activities() {
    let acts = vec![
        activity("Run", 4000, 1000, NOV_01),
        activity("Run", 5000, 1750, JAN_15),
    ];
    assert_eq!(recent_distance_sum(&acts, NOW), 5_000_000);
    assert_eq!(best_pace_in(&acts, None), Some(250));
    assert_eq!(best_pace_in(&acts, Some(NOW)), Some(350));
    let s = dashboard_summary(&acts, NOW);
    assert_eq!(s.best_pace_all, "4:10");
    assert_eq!(s.best_pace_recent, "5:50");
    assert!(!s.pace_trend_up);
    assert_eq!(s.this_month_count, 1);
    assert_eq!(s.prev_month_count, 0);
    assert!(s.count_trend_up);
}

#[test]
fn rides_do_not_count_for_pace() {
    let acts = vec![activity("Ride", 20000, 2400, JAN_15)];
    assert_eq!(best_pace_in(&acts, None), None);
    let mut mixed = activity("Ride", 8000, 2400, JAN_15);
    mixed.activity_type = "Run".to_string();
    assert_eq!(best_pace_in(&vec![mixed], None), Some(300));
}

#[test]
fn empty_feed_metrics() {
    let acts: Vec<Activity> = vec![];
    let s = dashboard_summary(&acts, NOW);
    assert_eq!(s.biggest_distance_mm, 0);
    assert_eq!(s.recent_distance_mm, 0);
    assert_eq!(s.best_pace_all, "--:--");
    assert_eq!(s.best_pace_recent, "--:--");
    assert_eq!(s.this_month_count, 0);
    assert!(!s.distance_trend_up);
}

#[test]
fn zero_moving_time_shows_no_pace() {
    let acts = vec![activity("Run", 5000, 0, JAN_15)];
    assert_eq!(best_pace_in(&acts, None), Some(0));
    assert!(has_standstill_run(&acts, None));
    assert_eq!(format_best_pace(Some(0), true), "--:--");
    assert_eq!(dashboard_summary(&acts, NOW).best_pace_all, "--:--");
}

#[test]
fn pace_under_one_second_shows_zero() {
    // 2000 m in 1 s: 0.5 s per kilometre
    let acts = vec![activity("Run", 2000, 1, JAN_15)];
    assert_eq!(best_pace_in(&acts, None), Some(0));
    assert!(!has_standstill_run(&acts, None));
    assert_eq!(format_best_pace(Some(0), false), "0:00");
    let s = dashboard_summary(&acts, NOW);
    assert_eq!(s.best_pace_all, "0:00");
    assert_eq!(s.best_pace_recent, "0:00");
    assert!(!s.pace_trend_up);
}

#[test]
fn standstill_outside_window_is_ignored() {
    let acts = vec![
        activity("Run", 5000, 0, NOV_01),
        activity("Run", 5000, 1500, JAN_15),
    ];
    assert!(has_standstill_run(&acts, None));
    assert!(!has_standstill_run(&acts, Some(NOW)));
    let s = dashboard_summary(&acts, NOW);
    assert_eq!(s.best_pace_all, "--:--");
    assert_eq!(s.best_pace_recent, "5:00");
}

#[test]
fn months_are_counted_exactly() {
    let months = vec![Some((2024, 1)), None, Some((2023, 12)), Some((2024, 1)), Some((2023, 1))];
    assert_eq!(count_matching_months(&months, (2024, 1)), 2);
    assert_eq!(count_matching_months(&months, (2023, 11)), 0);
    assert_eq!(count_matching_months(&months, (2023, 12)), 1);
}

#[test]
fn month_boundaries_follow_the_calendar() {
    // 2024-01-31T23:59:59Z and 2024-02-01T00:00:00Z
    let acts = vec![
        activity("Run", 1000, 300, 1_706_745_599),
        activity("Run", 1000, 300, 1_706_745_600),
    ];
    // now: 2024-02-10T00:00:00Z, thirty-five days back is 2024-01-06
    assert_eq!(monthly_counts(&acts, 1_707_523_200), (1, 1));
}

#[test]
fn activity_pace_per_row() {
    assert_eq!(activity_pace(&activity("Run", 5000, 1800, JAN_15)), Some(360));
    assert_eq!(activity_pace(&activity("Run", 0, 1800, JAN_15)), None);
}

#[test]
fn relative_performance_needs_speed_and_heart_rate() {
    let mut a = activity("Run", 5000, 1800, JAN_15);
    assert_eq!(relative_performance(&a), None);
    a.average_speed_mm_s = Some(2780);
    assert_eq!(relative_performance(&a), None);
    a.average_heartrate_milli = Some(150_000);
    // 5000 m / 2.78 m/s = 1798.56 s; / 150 bpm = 11.99
    assert_eq!(relative_performance(&a), Some(12));
    a.average_speed_mm_s = Some(0);
    assert_eq!(relative_performance(&a), None);
    a.average_speed_mm_s = Some(5000);
    a.average_heartrate_milli = Some(100_000);
    // 5000 / 5 / 100 = 10 exactly
    assert_eq!(relative_performance(&a), Some(10));
    a.average_heartrate_milli = Some(80_000);
    // 1000 / 80 = 12.5, halves go up
    assert_eq!(relative_performance(&a), Some(13));
}
