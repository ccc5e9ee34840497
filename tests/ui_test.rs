use sportfrei::app::{activity_color, page_size_for_height, ActivityColor, App, Key, Screen};
use sportfrei::types::{Activity, ActivityStats, Athlete, AthleteStats};

fn totals(count: u32, distance_m: u64, moving_time: u32, elapsed_time: u32, gain_m: i64) -> ActivityStats {
    ActivityStats {
        count,
        distance_mm: distance_m * 1000,
        moving_time,
        elapsed_time,
        elevation_gain_mm: gain_m * 1000,
    }
}

fn create_test_athlete() -> Athlete {
    Athlete {
        id: 12345,
        username: Some("testuser".to_string()),
        firstname: "John".to_string(),
        lastname: "Doe".to_string(),
        city: Some("Berlin".to_string()),
        country: Some("Germany".to_string()),
        profile: None,
        profile_medium: None,
    }
}

fn create_test_stats() -> AthleteStats {
    AthleteStats {
        biggest_ride_distance_mm: Some(50_000_000),
        biggest_climb_elevation_gain_mm: Some(1_000_000),
        recent_run_totals: totals(10, 50000, 18000, 20000, 500),
        recent_ride_totals: totals(5, 100000, 14400, 15000, 1000),
        ytd_run_totals: totals(50, 250000, 90000, 100000, 2500),
        ytd_ride_totals: totals(25, 500000, 72000, 75000, 5000),
        all_run_totals: totals(100, 500000, 180000, 200000, 5000),
        all_ride_totals: totals(50, 1000000, 144000, 150000, 10000),
    }
}

fn activity(id: u64, name: &str, kind: &str, distance_m: u64, moving_time: u32) -> Activity {
    Activity {
        id,
        name: name.to_string(),
        activity_type: kind.to_string(),
        sport_type: kind.to_string(),
        start_date: 1_705_311_000,
        start_date_local: 1_705_311_000,
        timezone: "Europe/Berlin".to_string(),
        distance_mm: distance_m * 1000,
        moving_time,
        elapsed_time: moving_time + 200,
        total_elevation_gain_mm: 50_000,
        average_speed_mm_s: Some(2780),
        max_speed_mm_s: Some(3500),
        average_heartrate_milli: Some(150_000),
        max_heartrate_milli: Some(175_000),
        calories_milli: Some(350_000),
        description: None,
        kudos_count: Some(5),
        comment_count: Some(1),
        achievement_count: Some(2),
        pr_count: Some(1),
        private: Some(false),
        commute: Some(false),
        manual: Some(false),
        gear_id: None,
    }
}

fn create_test_activities(count: usize) -> Vec<Activity> {
    (0..count)
        .map(|i| activity(i as u64, &format!("Activity {}", i), "Run", 5000, 1800))
        .collect()
}

fn create_test_app() -> App {
    let activities = vec![
        activity(1, "Morning Run", "Run", 5000, 1800),
        activity(2, "Evening Ride", "Ride", 25000, 3600),
    ];
    let mut app = App::new();
    app.set_data(create_test_athlete(), create_test_stats(), activities, 30);
    app
}

#[test]
fn test_navigation_keys() {
    let mut app = create_test_app();
    app.set_view(Screen::Dashboard);
    assert_eq!(app.current_view(), Screen::Dashboard);
    app.set_view(Screen::Activities);
    assert_eq!(app.current_view(), Screen::Activities);
    app.set_view(Screen::Dashboard);
    assert_eq!(app.current_view(), Screen::Dashboard);
}

#[test]
fn test_activity_selection() {
    let mut app = create_test_app();
    app.set_view(Screen::Activities);
    assert_eq!(app.get_selected_activity().unwrap().name, "Morning Run");
    app.select_next_activity();
    assert_eq!(app.get_selected_activity().unwrap().name, "Evening Ride");
    app.select_prev_activity();
    assert_eq!(app.get_selected_activity().unwrap().name, "Morning Run");
}

#[test]
fn test_infinite_scroll_triggers() {
    let mut app = create_test_app();
    app.set_view(Screen::Activities);
    assert!(app.get_selected_activity().is_some());
    app.select_next_activity();
    assert_eq!(app.get_selected_activity().unwrap().id, 2);
    app.select_next_activity();
    assert_eq!(app.get_selected_activity().unwrap().id, 2);
}

#[test]
fn test_infinite_scroll_no_crash_on_empty_response() {
    let mut app = create_test_app();
    app.set_view(Screen::Activities);
    app.add_activities(vec![], 10);
    assert!(!app.should_load_more());
}

#[test]
fn test_load_error_state() {
    let mut app = create_test_app();
    app.set_view(Screen::Activities);
    assert!(!app.is_loading());
    app.set_loading(true);
    assert!(app.is_loading());
    app.set_load_error();
    assert!(!app.is_loading());
}

#[test]
fn test_screen_size_based_loading_small_terminal() {
    let per_page: usize = 9;
    let mut app = App::new();
    app.set_data(create_test_athlete(), create_test_stats(), create_test_activities(5), per_page);
    assert!(!app.should_load_more());
}

#[test]
fn test_screen_size_based_loading_large_terminal() {
    let per_page: usize = 44;
    let mut app = App::new();
    app.set_data(create_test_athlete(), create_test_stats(), create_test_activities(44), per_page);
    app.set_view(Screen::Activities);
    for _ in 0..39 {
        app.select_next_activity();
    }
    assert!(app.should_load_more());
}

#[test]
fn test_add_activities_updates_has_more_based_on_per_page() {
    let per_page: u32 = 20;
    let mut app = App::new();
    app.set_data(
        create_test_athlete(),
        create_test_stats(),
        create_test_activities(15),
        per_page as usize,
    );
    assert!(!app.should_load_more());
    app.add_activities(create_test_activities(10), per_page);
    assert_eq!(app.activities().len(), 25);
}

#[test]
fn test_activity_page_increments() {
    let mut app = create_test_app();
    app.set_view(Screen::Activities);
    let initial_page = app.activity_page();
    assert_eq!(initial_page, 1);
    app.add_activities(create_test_activities(10), 30);
    assert_eq!(app.activity_page(), 2);
}

#[test]
fn scenario_first_page_fills_empty_feed() {
    let mut app = App::new();
    app.initialize(create_test_athlete(), create_test_stats());
    assert!(app.activities().is_empty());
    assert!(app.should_load_more());
    assert_eq!(app.begin_prefetch(), Some(1));
    assert!(app.is_loading());
    app.add_activities(create_test_activities(30), 30);
    assert_eq!(app.activities().len(), 30);
    assert!(app.has_more());
    assert!(!app.is_loading());
    assert_eq!(app.activity_page(), 2);
}

#[test]
fn scenario_short_second_page_ends_feed() {
    let mut app = App::new();
    app.initialize(create_test_athlete(), create_test_stats());
    assert_eq!(app.begin_prefetch(), Some(1));
    app.add_activities(create_test_activities(30), 30);
    for _ in 0..29 {
        app.select_next_activity();
    }
    assert_eq!(app.begin_prefetch(), Some(2));
    app.add_activities(create_test_activities(12), 30);
    assert_eq!(app.activities().len(), 42);
    assert!(!app.has_more());
    assert!(!app.should_load_more());
    assert_eq!(app.begin_prefetch(), None);
}

#[test]
fn scenario_selection_reaches_margin() {
    let mut app = App::new();
    app.initialize(create_test_athlete(), create_test_stats());
    app.add_activities(create_test_activities(10), 10);
    for _ in 0..4 {
        app.select_next_activity();
    }
    assert_eq!(app.selected_index(), 4);
    assert!(!app.should_load_more());
    for _ in 0..4 {
        app.select_next_activity();
    }
    assert_eq!(app.selected_index(), 8);
    assert!(app.should_load_more());
}

#[test]
fn scenario_failed_fetch_is_retried() {
    let mut app = App::new();
    app.initialize(create_test_athlete(), create_test_stats());
    app.add_activities(create_test_activities(10), 10);
    for _ in 0..8 {
        app.select_next_activity();
    }
    assert_eq!(app.begin_prefetch(), Some(2));
    app.set_load_error();
    assert!(!app.is_loading());
    assert_eq!(app.activities().len(), 10);
    assert_eq!(app.activity_page(), 2);
    assert_eq!(app.selected_index(), 8);
    assert!(app.has_more());
    assert!(app.should_load_more());
    assert_eq!(app.begin_prefetch(), Some(2));
}

#[test]
fn feed_length_is_sum_of_pages() {
    let mut app = App::new();
    app.initialize(create_test_athlete(), create_test_stats());
    let mut previous = 0;
    for size in [7usize, 0, 3, 10] {
        app.add_activities(create_test_activities(size), 10);
        assert!(app.activities().len() >= previous);
        previous = app.activities().len();
    }
    assert_eq!(app.activities().len(), 20);
}

#[test]
fn has_more_stays_false_after_short_page() {
    let mut app = App::new();
    app.initialize(create_test_athlete(), create_test_stats());
    app.add_activities(create_test_activities(3), 10);
    assert!(!app.has_more());
    app.add_activities(create_test_activities(10), 10);
    assert!(!app.has_more());
    app.set_load_error();
    assert!(!app.has_more());
}

#[test]
fn prefetch_margin_on_small_and_empty_feeds() {
    let mut app = App::new();
    app.initialize(create_test_athlete(), create_test_stats());
    assert!(app.should_load_more());
    app.add_activities(create_test_activities(3), 3);
    assert_eq!(app.selected_index(), 0);
    assert!(app.should_load_more());
    app.add_activities(create_test_activities(4), 4);
    assert_eq!(app.activities().len(), 7);
    assert!(!app.should_load_more());
    app.select_next_activity();
    assert!(!app.should_load_more());
    app.select_next_activity();
    assert!(app.should_load_more());
}

#[test]
fn no_prefetch_while_loading() {
    let mut app = App::new();
    app.initialize(create_test_athlete(), create_test_stats());
    app.set_loading(true);
    assert!(!app.should_load_more());
    assert_eq!(app.begin_prefetch(), None);
    assert!(app.is_loading());
}

#[test]
fn selection_is_clamped_and_empty_is_noop() {
    let mut app = App::new();
    app.select_next_activity();
    app.select_prev_activity();
    assert_eq!(app.selected_index(), 0);
    assert!(app.get_selected_activity().is_none());
    app.set_data(create_test_athlete(), create_test_stats(), create_test_activities(3), 30);
    app.select_prev_activity();
    assert_eq!(app.selected_index(), 0);
    for _ in 0..5 {
        app.select_next_activity();
    }
    assert_eq!(app.selected_index(), 2);
}

#[test]
fn scroll_offset_floors_at_zero() {
    let mut app = App::new();
    app.scroll_left();
    assert_eq!(app.scroll_offset(), 0);
    app.scroll_right();
    app.scroll_right();
    app.scroll_left();
    assert_eq!(app.scroll_offset(), 1);
}

#[test]
fn keys_drive_screens_selection_and_scroll() {
    let mut app = create_test_app();
    assert!(!app.handle_key(Key::Char('a')));
    assert_eq!(app.current_view(), Screen::Activities);
    assert!(!app.handle_key(Key::Char('j')));
    assert_eq!(app.selected_index(), 1);
    assert!(!app.handle_key(Key::Up));
    assert_eq!(app.selected_index(), 0);
    app.handle_key(Key::Right);
    app.handle_key(Key::Char('l'));
    assert_eq!(app.scroll_offset(), 2);
    app.handle_key(Key::Char('h'));
    assert_eq!(app.scroll_offset(), 1);
    app.handle_key(Key::Enter);
    assert_eq!(app.current_view(), Screen::ActivityDetail);
    app.handle_key(Key::Right);
    assert_eq!(app.scroll_offset(), 1);
    app.handle_key(Key::Esc);
    assert_eq!(app.current_view(), Screen::Activities);
    app.handle_key(Key::Char('d'));
    assert_eq!(app.current_view(), Screen::Dashboard);
    app.handle_key(Key::Esc);
    assert_eq!(app.current_view(), Screen::Dashboard);
    assert!(app.handle_key(Key::Char('q')));
}

#[test]
fn enter_needs_a_selection() {
    let mut app = App::new();
    app.set_view(Screen::Activities);
    app.handle_key(Key::Enter);
    assert_eq!(app.current_view(), Screen::Activities);
}

#[test]
fn page_size_follows_terminal_height() {
    assert_eq!(page_size_for_height(50), 44);
    assert_eq!(page_size_for_height(16), 10);
    assert_eq!(page_size_for_height(15), 10);
    assert_eq!(page_size_for_height(3), 10);
}

#[test]
fn initialize_stores_profile() {
    let mut app = App::default();
    assert!(app.athlete().is_none());
    app.initialize(create_test_athlete(), create_test_stats());
    assert_eq!(app.athlete().unwrap().firstname, "John");
    assert_eq!(app.stats().unwrap().all_run_totals.count, 100);
}

#[test]
fn sports_have_their_colours() {
    assert_eq!(activity_color("Run"), ActivityColor::Green);
    assert_eq!(activity_color("Ride"), ActivityColor::Blue);
    assert_eq!(activity_color("Swim"), ActivityColor::Cyan);
    assert_eq!(activity_color("Hike"), ActivityColor::Yellow);
    assert_eq!(activity_color("Walk"), ActivityColor::Yellow);
    assert_eq!(activity_color("Yoga"), ActivityColor::Magenta);
    assert_eq!(activity_color("run"), ActivityColor::Magenta);
}

#[test]
fn set_data_with_empty_list_starts_feed() {
    let mut app = App::new();
    app.set_data(create_test_athlete(), create_test_stats(), vec![], 30);
    assert!(app.has_more());
    assert!(app.should_load_more());
    assert_eq!(app.begin_prefetch(), Some(1));
    app.add_activities(create_test_activities(30), 30);
    assert_eq!(app.activities().len(), 30);
    assert_eq!(app.activity_page(), 2);
}
