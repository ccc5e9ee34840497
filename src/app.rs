//! The activity feed controller: the loaded activities, the paging cursor,
//! the loading and end-of-feed flags, and the selection and scroll position
//! that the screens read.

use vstd::prelude::*;

use crate::metrics::{
    best_pace, best_pace_in, best_pace_text, biggest_distance, dashboard_summary, format_best_pace,
    has_standstill_run, standstill_run, window_of,
    max_distance, month_count, monthly_counts, pace_improved, recent_distance, recent_distance_sum,
    DashboardSummary, PREVIOUS_MONTH_OFFSET_SECS,
};
use crate::text::same_text;
use crate::types::{Activity, Athlete, AthleteStats};

verus! {

/// How many rows before the end of the loaded list the selection may come
/// before the next page is asked for.
pub const PREFETCH_MARGIN: usize = 5;

/// The screen that is shown.
#[derive(Debug, Clone, Copy, PartialEq, Eq, Structural)]
pub enum Screen {
    Dashboard,
    Activities,
    ActivityDetail,
}

/// The colour in which an activity's name is drawn, by its sport.
#[derive(Debug, Clone, Copy, PartialEq, Eq, Structural)]
pub enum ActivityColor {
    Green,
    Blue,
    Cyan,
    Yellow,
    Magenta,
}

/// Runs are green, rides blue, swims cyan, hikes and walks yellow, and every
/// other sport magenta.
pub open spec fn color_of_sport(sport: Seq<char>) -> ActivityColor {
    if sport == "Run"@ {
        ActivityColor::Green
    } else if sport == "Ride"@ {
        ActivityColor::Blue
    } else if sport == "Swim"@ {
        ActivityColor::Cyan
    } else if sport == "Hike"@ || sport == "Walk"@ {
        ActivityColor::Yellow
    } else {
        ActivityColor::Magenta
    }
}

/// The colour of an activity of the given sport.
pub fn activity_color(sport_type: &str) -> (r: ActivityColor)
    ensures
        r == color_of_sport(sport_type@),
{
    if same_text(sport_type, "Run") {
        ActivityColor::Green
    } else if same_text(sport_type, "Ride") {
        ActivityColor::Blue
    } else if same_text(sport_type, "Swim") {
        ActivityColor::Cyan
    } else if same_text(sport_type, "Hike") || same_text(sport_type, "Walk") {
        ActivityColor::Yellow
    } else {
        ActivityColor::Magenta
    }
}

/// A key press, as far as the screens tell keys apart.
#[derive(Debug, Clone, Copy, PartialEq, Eq, Structural)]
pub enum Key {
    Char(char),
    Up,
    Down,
    Left,
    Right,
    Enter,
    Esc,
    Other,
}

/// Whether the key moves the selection down.
pub open spec fn is_down_key(key: Key) -> bool {
    key == Key::Char('j') || key == Key::Down
}

/// Whether the key moves the selection up.
pub open spec fn is_up_key(key: Key) -> bool {
    key == Key::Char('k') || key == Key::Up
}

/// Whether the key scrolls the table left.
pub open spec fn is_left_key(key: Key) -> bool {
    key == Key::Char('h') || key == Key::Left
}

/// Whether the key scrolls the table right.
pub open spec fn is_right_key(key: Key) -> bool {
    key == Key::Char('l') || key == Key::Right
}

/// The screen shown after `key`, from `view`; `has_selection` tells whether
/// an activity is selected.
pub open spec fn screen_after(view: Screen, key: Key, has_selection: bool) -> Screen {
    if key == Key::Char('d') {
        Screen::Dashboard
    } else if key == Key::Char('a') {
        Screen::Activities
    } else if key == Key::Enter && view == Screen::Activities && has_selection {
        Screen::ActivityDetail
    } else if key == Key::Esc && view == Screen::ActivityDetail {
        Screen::Activities
    } else {
        view
    }
}

/// The scroll offset after one step left.
pub open spec fn scroll_after_left(offset: int) -> int {
    if offset > 0 {
        offset - 1
    } else {
        0
    }
}

/// The scroll offset after one step right.
pub open spec fn scroll_after_right(offset: int) -> int {
    if offset < u32::MAX {
        offset + 1
    } else {
        u32::MAX as int
    }
}

/// The number of activities asked for per page on a terminal of `height`
/// rows: the rows left below the header and above the footer, at least 10.
pub open spec fn page_size_for(height: int) -> int {
    if height >= 16 {
        height - 6
    } else {
        10
    }
}

/// The page size for a terminal of `height` rows.
pub fn page_size_for_height(height: u16) -> (r: u32)
    ensures
        r == page_size_for(height as int),
{
    if height >= 16 {
        (height - 6) as u32
    } else {
        10
    }
}

/// First index at which the selection asks for the next page, on a list of
/// `len` activities.
pub open spec fn prefetch_threshold(len: int) -> int {
    if len >= PREFETCH_MARGIN as int {
        len - PREFETCH_MARGIN as int
    } else {
        0
    }
}

/// The selection after moving one row down a list of `len` rows.
pub open spec fn index_after_next(index: int, len: int) -> int {
    if len == 0 {
        index
    } else if index + 1 < len - 1 {
        index + 1
    } else {
        len - 1
    }
}

/// The selection after moving one row up a list of `len` rows.
pub open spec fn index_after_prev(index: int, len: int) -> int {
    if len == 0 || index == 0 {
        index
    } else {
        index - 1
    }
}

/// The controller's state.
pub struct App {
    athlete: Option<Athlete>,
    stats: Option<AthleteStats>,
    activities: Vec<Activity>,
    current_view: Screen,
    selected_activity_index: usize,
    activity_page: u32,
    is_loading: bool,
    has_more_activities: bool,
    scroll_offset: u32,
}

impl App {
    /// The loaded activities, in the order they were received.
    pub closed spec fn spec_activities(&self) -> Seq<Activity> {
        self.activities@
    }

    /// The index of the selected activity.
    pub closed spec fn spec_selected(&self) -> int {
        self.selected_activity_index as int
    }

    /// The next page to ask for: the last applied page plus one.
    pub closed spec fn spec_page(&self) -> int {
        self.activity_page as int
    }

    /// Whether a fetch is outstanding.
    pub closed spec fn spec_loading(&self) -> bool {
        self.is_loading
    }

    /// Whether further pages may exist.
    pub closed spec fn spec_has_more(&self) -> bool {
        self.has_more_activities
    }

    /// The horizontal scroll offset of the activity table.
    pub closed spec fn spec_scroll(&self) -> int {
        self.scroll_offset as int
    }

    /// The screen shown.
    pub closed spec fn spec_view(&self) -> Screen {
        self.current_view
    }

    /// The athlete profile, once set.
    pub closed spec fn spec_athlete(&self) -> Option<Athlete> {
        self.athlete
    }

    /// The aggregate statistics, once set.
    pub closed spec fn spec_stats(&self) -> Option<AthleteStats> {
        self.stats
    }

    /// Whether the next page is due: no fetch is outstanding, more pages may
    /// exist, and the selection is within the margin of the list's end.
    pub open spec fn prefetch_due(&self) -> bool {
        &&& !self.spec_loading()
        &&& self.spec_has_more()
        &&& self.spec_selected() >= prefetch_threshold(self.spec_activities().len() as int)
    }

    /// The selection lies in `[0, len - 1]`, and is 0 on an empty list.
    pub open spec fn selection_valid(&self) -> bool {
        &&& 0 <= self.spec_selected()
        &&& (self.spec_activities().len() == 0 ==> self.spec_selected() == 0)
        &&& (self.spec_activities().len() > 0 ==> self.spec_selected() < self.spec_activities().len())
    }

    pub fn new() -> (r: Self)
        ensures
            r.spec_athlete() is None,
            r.spec_stats() is None,
            r.spec_activities() == Seq::<Activity>::empty(),
            r.spec_view() == Screen::Dashboard,
            r.spec_selected() == 0,
            r.spec_page() == 1,
            !r.spec_loading(),
            r.spec_has_more(),
            r.spec_scroll() == 0,
            r.selection_valid(),
    {
        App {
            athlete: None,
            stats: None,
            activities: Vec::new(),
            current_view: Screen::Dashboard,
            selected_activity_index: 0,
            activity_page: 1,
            is_loading: false,
            has_more_activities: true,
            scroll_offset: 0,
        }
    }

    /// Starts a session: stores the profile and statistics and empties the
    /// feed, so that the first page is due at once.
    pub fn initialize(&mut self, athlete: Athlete, stats: AthleteStats)
        ensures
            final(self).selection_valid(),
            final(self).spec_athlete() == Some(athlete),
            final(self).spec_stats() == Some(stats),
            final(self).spec_activities() == Seq::<Activity>::empty(),
            final(self).spec_selected() == 0,
            final(self).spec_page() == 1,
            !final(self).spec_loading(),
            final(self).spec_has_more(),
            final(self).spec_view() == old(self).spec_view(),
            final(self).spec_scroll() == old(self).spec_scroll(),
    {
        self.athlete = Some(athlete);
        self.stats = Some(stats);
        self.activities = Vec::new();
        self.selected_activity_index = 0;
        self.activity_page = 1;
        self.is_loading = false;
        self.has_more_activities = true;
    }

    /// Starts a session with the profile, the statistics and an initial list
    /// of activities, fetched with page size `per_page`.
    ///
    /// An empty list starts the feed as `initialize` does: more pages may
    /// exist and the first one is due at once. A non-empty list leaves more
    /// pages possible only if it was full. Either way the page counter is
    /// reset to 1: the counter names the next page to ask for, counted from
    /// the pages applied with `add_activities`, and the initial list is not
    /// counted as one.
    pub fn set_data(
        &mut self,
        athlete: Athlete,
        stats: AthleteStats,
        activities: Vec<Activity>,
        per_page: usize,
    )
        ensures
            final(self).selection_valid(),
            final(self).spec_athlete() == Some(athlete),
            final(self).spec_stats() == Some(stats),
            final(self).spec_activities() == activities@,
            final(self).spec_selected() == 0,
            final(self).spec_page() == 1,
            !final(self).spec_loading(),
            final(self).spec_has_more() == (activities@.len() == 0 || activities@.len()
                >= per_page),
            final(self).spec_view() == old(self).spec_view(),
            final(self).spec_scroll() == old(self).spec_scroll(),
    {
        let count = activities.len();
        self.athlete = Some(athlete);
        self.stats = Some(stats);
        self.activities = activities;
        self.selected_activity_index = 0;
        self.activity_page = 1;
        self.is_loading = false;
        self.has_more_activities = count == 0 || count >= per_page;
    }

    pub fn set_view(&mut self, view: Screen)
        requires
            old(self).selection_valid(),
        ensures
            final(self).selection_valid(),
            final(self).spec_view() == view,
            final(self).spec_activities() == old(self).spec_activities(),
            final(self).spec_selected() == old(self).spec_selected(),
            final(self).spec_page() == old(self).spec_page(),
            final(self).spec_loading() == old(self).spec_loading(),
            final(self).spec_has_more() == old(self).spec_has_more(),
            final(self).spec_scroll() == old(self).spec_scroll(),
            final(self).spec_athlete() == old(self).spec_athlete(),
            final(self).spec_stats() == old(self).spec_stats(),
    {
        self.current_view = view;
    }

    pub fn current_view(&self) -> (r: Screen)
        ensures
            r == self.spec_view(),
    {
        self.current_view
    }

    pub fn is_loading(&self) -> (r: bool)
        ensures
            r == self.spec_loading(),
    {
        self.is_loading
    }

    /// Whether more pages may exist.
    pub fn has_more(&self) -> (r: bool)
        ensures
            r == self.spec_has_more(),
    {
        self.has_more_activities
    }

    pub fn set_loading(&mut self, loading: bool)
        requires
            old(self).selection_valid(),
        ensures
            final(self).selection_valid(),
            final(self).spec_loading() == loading,
            final(self).spec_activities() == old(self).spec_activities(),
            final(self).spec_selected() == old(self).spec_selected(),
            final(self).spec_page() == old(self).spec_page(),
            final(self).spec_has_more() == old(self).spec_has_more(),
            final(self).spec_scroll() == old(self).spec_scroll(),
            final(self).spec_view() == old(self).spec_view(),
            final(self).spec_athlete() == old(self).spec_athlete(),
            final(self).spec_stats() == old(self).spec_stats(),
    {
        self.is_loading = loading;
    }

    /// Whether the next page should be fetched now.
    pub fn should_load_more(&self) -> (r: bool)
        ensures
            r == self.prefetch_due(),
    {
        let len = self.activities.len();
        let threshold: usize = if len >= PREFETCH_MARGIN {
            len - PREFETCH_MARGIN
        } else {
            0
        };
        !self.is_loading && self.has_more_activities && self.selected_activity_index >= threshold
    }

    /// When the next page is due, marks the fetch as outstanding and returns
    /// the page number to ask for; otherwise changes nothing.
    pub fn begin_prefetch(&mut self) -> (r: Option<u32>)
        requires
            old(self).selection_valid(),
        ensures
            final(self).selection_valid(),
            old(self).prefetch_due() ==> r == Some(old(self).spec_page() as u32),
            !old(self).prefetch_due() ==> r is None,
            final(self).spec_loading() == (old(self).spec_loading() || old(self).prefetch_due()),
            final(self).spec_activities() == old(self).spec_activities(),
            final(self).spec_selected() == old(self).spec_selected(),
            final(self).spec_page() == old(self).spec_page(),
            final(self).spec_has_more() == old(self).spec_has_more(),
            final(self).spec_scroll() == old(self).spec_scroll(),
            final(self).spec_view() == old(self).spec_view(),
            final(self).spec_athlete() == old(self).spec_athlete(),
            final(self).spec_stats() == old(self).spec_stats(),
    {
        if self.should_load_more() {
            self.is_loading = true;
            Some(self.activity_page)
        } else {
            None
        }
    }

    /// Applies a fetched page, asked for with page size `per_page`: appends
    /// its records, advances the page cursor, and ends the end-of-feed latch
    /// when the page came back short.
    pub fn add_activities(&mut self, new_activities: Vec<Activity>, per_page: u32)
        requires
            old(self).spec_page() < u32::MAX,
            old(self).selection_valid(),
        ensures
            final(self).selection_valid(),
            final(self).spec_activities() == old(self).spec_activities() + new_activities@,
            final(self).spec_activities().len() >= old(self).spec_activities().len(),
            final(self).spec_page() == old(self).spec_page() + 1,
            final(self).spec_has_more() == (old(self).spec_has_more() && new_activities@.len()
                >= per_page),
            new_activities@.len() < per_page ==> !final(self).spec_has_more()
                && !final(self).prefetch_due(),
            !old(self).spec_has_more() ==> !final(self).spec_has_more(),
            !final(self).spec_loading(),
            final(self).spec_selected() == old(self).spec_selected(),
            final(self).spec_scroll() == old(self).spec_scroll(),
            final(self).spec_view() == old(self).spec_view(),
            final(self).spec_athlete() == old(self).spec_athlete(),
            final(self).spec_stats() == old(self).spec_stats(),
    {
        let count = new_activities.len();
        let mut incoming = new_activities;
        self.activities.append(&mut incoming);
        self.activity_page = self.activity_page + 1;
        self.has_more_activities = self.has_more_activities && count >= per_page as usize;
        self.is_loading = false;
    }

    /// Records a failed fetch: only the loading flag changes, so the same
    /// page is asked for again the next time it is due.
    pub fn set_load_error(&mut self)
        requires
            old(self).selection_valid(),
        ensures
            final(self).selection_valid(),
            !final(self).spec_loading(),
            final(self).spec_activities() == old(self).spec_activities(),
            final(self).spec_selected() == old(self).spec_selected(),
            final(self).spec_page() == old(self).spec_page(),
            final(self).spec_has_more() == old(self).spec_has_more(),
            final(self).spec_scroll() == old(self).spec_scroll(),
            final(self).spec_view() == old(self).spec_view(),
            final(self).spec_athlete() == old(self).spec_athlete(),
            final(self).spec_stats() == old(self).spec_stats(),
    {
        self.is_loading = false;
    }

    /// The next page to ask for.
    pub fn activity_page(&self) -> (r: u32)
        ensures
            r == self.spec_page(),
    {
        self.activity_page
    }

    /// Moves the table one column left, stopping at 0.
    pub fn scroll_left(&mut self)
        requires
            old(self).selection_valid(),
        ensures
            final(self).selection_valid(),
            final(self).spec_scroll() == scroll_after_left(old(self).spec_scroll()),
            final(self).spec_activities() == old(self).spec_activities(),
            final(self).spec_selected() == old(self).spec_selected(),
            final(self).spec_page() == old(self).spec_page(),
            final(self).spec_loading() == old(self).spec_loading(),
            final(self).spec_has_more() == old(self).spec_has_more(),
            final(self).spec_view() == old(self).spec_view(),
            final(self).spec_athlete() == old(self).spec_athlete(),
            final(self).spec_stats() == old(self).spec_stats(),
    {
        if self.scroll_offset > 0 {
            self.scroll_offset = self.scroll_offset - 1;
        }
    }

    /// Moves the table one column right; the offset stops at `u32::MAX`.
    pub fn scroll_right(&mut self)
        requires
            old(self).selection_valid(),
        ensures
            final(self).selection_valid(),
            final(self).spec_scroll() == scroll_after_right(old(self).spec_scroll()),
            final(self).spec_activities() == old(self).spec_activities(),
            final(self).spec_selected() == old(self).spec_selected(),
            final(self).spec_page() == old(self).spec_page(),
            final(self).spec_loading() == old(self).spec_loading(),
            final(self).spec_has_more() == old(self).spec_has_more(),
            final(self).spec_view() == old(self).spec_view(),
            final(self).spec_athlete() == old(self).spec_athlete(),
            final(self).spec_stats() == old(self).spec_stats(),
    {
        self.scroll_offset = self.scroll_offset.saturating_add(1);
    }

    pub fn scroll_offset(&self) -> (r: u32)
        ensures
            r == self.spec_scroll(),
    {
        self.scroll_offset
    }

    /// Moves the selection one row down, stopping at the last row.
    pub fn select_next_activity(&mut self)
        requires
            old(self).selection_valid(),
        ensures
            final(self).selection_valid(),
            final(self).spec_selected() == index_after_next(
                old(self).spec_selected(),
                old(self).spec_activities().len() as int,
            ),
            final(self).spec_activities() == old(self).spec_activities(),
            final(self).spec_page() == old(self).spec_page(),
            final(self).spec_loading() == old(self).spec_loading(),
            final(self).spec_has_more() == old(self).spec_has_more(),
            final(self).spec_scroll() == old(self).spec_scroll(),
            final(self).spec_view() == old(self).spec_view(),
            final(self).spec_athlete() == old(self).spec_athlete(),
            final(self).spec_stats() == old(self).spec_stats(),
    {
        let len = self.activities.len();
        if len == 0 {
            return;
        }
        if self.selected_activity_index + 1 < len - 1 {
            self.selected_activity_index = self.selected_activity_index + 1;
        } else {
            self.selected_activity_index = len - 1;
        }
    }

    /// Moves the selection one row up, stopping at the first row.
    pub fn select_prev_activity(&mut self)
        requires
            old(self).selection_valid(),
        ensures
            final(self).selection_valid(),
            final(self).spec_selected() == index_after_prev(
                old(self).spec_selected(),
                old(self).spec_activities().len() as int,
            ),
            final(self).spec_activities() == old(self).spec_activities(),
            final(self).spec_page() == old(self).spec_page(),
            final(self).spec_loading() == old(self).spec_loading(),
            final(self).spec_has_more() == old(self).spec_has_more(),
            final(self).spec_scroll() == old(self).spec_scroll(),
            final(self).spec_view() == old(self).spec_view(),
            final(self).spec_athlete() == old(self).spec_athlete(),
            final(self).spec_stats() == old(self).spec_stats(),
    {
        if self.activities.len() == 0 {
            return;
        }
        if self.selected_activity_index > 0 {
            self.selected_activity_index = self.selected_activity_index - 1;
        }
    }

    /// The selected activity, or `None` on an empty list.
    pub fn get_selected_activity(&self) -> (r: Option<&Activity>)
        requires
            self.selection_valid(),
        ensures
            self.spec_activities().len() == 0 ==> r is None,
            self.spec_activities().len() > 0 ==> r == Some(
                &self.spec_activities()[self.spec_selected()],
            ),
    {
        if self.selected_activity_index < self.activities.len() {
            Some(&self.activities[self.selected_activity_index])
        } else {
            None
        }
    }

    /// The index of the selected activity.
    pub fn selected_index(&self) -> (r: usize)
        ensures
            r == self.spec_selected(),
    {
        self.selected_activity_index
    }

    /// The loaded activities.
    pub fn activities(&self) -> (r: &Vec<Activity>)
        ensures
            r@ == self.spec_activities(),
    {
        &self.activities
    }

    pub fn athlete(&self) -> (r: Option<&Athlete>)
        ensures
            r == match self.spec_athlete() {
                Some(a) => Some(&a),
                None => None::<&Athlete>,
            },
    {
        match &self.athlete {
            Some(a) => Some(a),
            None => None,
        }
    }

    pub fn stats(&self) -> (r: Option<&AthleteStats>)
        ensures
            r == match self.spec_stats() {
                Some(s) => Some(&s),
                None => None::<&AthleteStats>,
            },
    {
        match &self.stats {
            Some(s) => Some(s),
            None => None,
        }
    }

    /// The farthest distance, and the distance of the thirty days before
    /// `now`, in millimetres.
    pub fn compute_biggest_distance(&self, now: i64) -> (r: (u64, u128))
        ensures
            r.0 == max_distance(self.spec_activities()),
            r.1 == recent_distance(self.spec_activities(), now as int),
    {
        (biggest_distance(&self.activities), recent_distance_sum(&self.activities, now))
    }

    /// The best running pace over all loaded activities and over those of
    /// the thirty days before `now`, as `m:ss` or `--:--`.
    pub fn compute_best_pace(&self, now: i64) -> (r: (String, String))
        ensures
            r.0@ == best_pace_text(
                best_pace(self.spec_activities(), None),
                standstill_run(self.spec_activities(), None),
            ),
            r.1@ == best_pace_text(
                best_pace(self.spec_activities(), Some(now as int)),
                standstill_run(self.spec_activities(), Some(now as int)),
            ),
    {
        let all = best_pace_in(&self.activities, None);
        let recent = best_pace_in(&self.activities, Some(now));
        let all_zero = has_standstill_run(&self.activities, None);
        let recent_zero = has_standstill_run(&self.activities, Some(now));
        proof {
            assert(window_of(None) == None::<int>);
            assert(window_of(Some(now)) == Some(now as int));
        }
        (format_best_pace(all, all_zero), format_best_pace(recent, recent_zero))
    }

    /// The activities of the month of `now` and of the month thirty-five
    /// days earlier.
    pub fn compute_monthly_count(&self, now: i64) -> (r: (usize, usize))
        requires
            now >= i64::MIN + PREVIOUS_MONTH_OFFSET_SECS,
        ensures
            r.0 == month_count(self.spec_activities(), now as int),
            r.1 == month_count(self.spec_activities(), now - PREVIOUS_MONTH_OFFSET_SECS),
    {
        monthly_counts(&self.activities, now)
    }

    /// The dashboard's figures at the instant `now`.
    pub fn dashboard_summary(&self, now: i64) -> (r: DashboardSummary)
        requires
            now >= i64::MIN + PREVIOUS_MONTH_OFFSET_SECS,
        ensures
            r.biggest_distance_mm == max_distance(self.spec_activities()),
            r.recent_distance_mm == recent_distance(self.spec_activities(), now as int),
            r.best_pace_all@ == best_pace_text(
                best_pace(self.spec_activities(), None),
                standstill_run(self.spec_activities(), None),
            ),
            r.best_pace_recent@ == best_pace_text(
                best_pace(self.spec_activities(), Some(now as int)),
                standstill_run(self.spec_activities(), Some(now as int)),
            ),
            r.this_month_count == month_count(self.spec_activities(), now as int),
            r.prev_month_count == month_count(
                self.spec_activities(),
                now - PREVIOUS_MONTH_OFFSET_SECS,
            ),
            r.distance_trend_up == (recent_distance(self.spec_activities(), now as int) > 0),
            r.pace_trend_up == pace_improved(
                best_pace(self.spec_activities(), None),
                best_pace(self.spec_activities(), Some(now as int)),
            ),
            r.count_trend_up == (month_count(self.spec_activities(), now as int) > month_count(
                self.spec_activities(),
                now - PREVIOUS_MONTH_OFFSET_SECS,
            )),
    {
        dashboard_summary(&self.activities, now)
    }

    /// Handles one key press; returns whether the user asked to quit.
    pub fn handle_key(&mut self, key: Key) -> (quit: bool)
        requires
            old(self).selection_valid(),
        ensures
            final(self).selection_valid(),
            quit == (key == Key::Char('q')),
            final(self).spec_view() == screen_after(
                old(self).spec_view(),
                key,
                old(self).spec_activities().len() > 0,
            ),
            final(self).spec_selected() == if is_down_key(key) {
                index_after_next(old(self).spec_selected(), old(self).spec_activities().len() as int)
            } else if is_up_key(key) {
                index_after_prev(old(self).spec_selected(), old(self).spec_activities().len() as int)
            } else {
                old(self).spec_selected()
            },
            final(self).spec_scroll() == if is_left_key(key) && old(self).spec_view()
                == Screen::Activities {
                scroll_after_left(old(self).spec_scroll())
            } else if is_right_key(key) && old(self).spec_view() == Screen::Activities {
                scroll_after_right(old(self).spec_scroll())
            } else {
                old(self).spec_scroll()
            },
            final(self).spec_activities() == old(self).spec_activities(),
            final(self).spec_page() == old(self).spec_page(),
            final(self).spec_loading() == old(self).spec_loading(),
            final(self).spec_has_more() == old(self).spec_has_more(),
            final(self).spec_athlete() == old(self).spec_athlete(),
            final(self).spec_stats() == old(self).spec_stats(),
    {
        match key {
            Key::Char('q') => {
                return true;
            },
            Key::Char('d') => self.set_view(Screen::Dashboard),
            Key::Char('a') => self.set_view(Screen::Activities),
            Key::Char('j') | Key::Down => self.select_next_activity(),
            Key::Char('k') | Key::Up => self.select_prev_activity(),
            Key::Char('h') | Key::Left => {
                if self.current_view == Screen::Activities {
                    self.scroll_left();
                }
            },
            Key::Char('l') | Key::Right => {
                if self.current_view == Screen::Activities {
                    self.scroll_right();
                }
            },
            Key::Enter => {
                if self.current_view == Screen::Activities && self.get_selected_activity().is_some() {
                    self.set_view(Screen::ActivityDetail);
                }
            },
            Key::Esc => {
                if self.current_view == Screen::ActivityDetail {
                    self.set_view(Screen::Activities);
                }
            },
            _ => {},
        }
        false
    }
}

impl Default for App {
    fn default() -> (r: Self)
        ensures
            r.spec_activities() == Seq::<Activity>::empty(),
            r.spec_page() == 1,
            r.spec_has_more(),
            !r.spec_loading(),
            r.spec_selected() == 0,
    {
        App::new()
    }
}

/// The number of records over a list of pages.
pub open spec fn total_records(pages: Seq<Seq<Activity>>) -> nat
    decreases pages.len(),
{
    if pages.len() == 0 {
        0
    } else {
        total_records(pages.drop_last()) + pages.last().len()
    }
}

/// Applying pages in turn only grows the feed: every state holds at least as
/// many activities as each earlier one, and the last holds those of the
/// first plus the records of every page applied.
pub proof fn lemma_feed_growth(states: Seq<App>, pages: Seq<Seq<Activity>>)
    requires
        states.len() == pages.len() + 1,
        forall|i: int|
            0 <= i < pages.len() ==> #[trigger] states[i + 1].spec_activities()
                == states[i].spec_activities() + pages[i],
    ensures
        forall|i: int, j: int|
            0 <= i <= j < states.len() ==> states[i].spec_activities().len()
                <= states[j].spec_activities().len(),
        states.last().spec_activities().len() == states[0].spec_activities().len()
            + total_records(pages),
    decreases pages.len(),
{
    if pages.len() > 0 {
        let n = pages.len() - 1;
        let earlier = states.drop_last();
        let first_pages = pages.drop_last();
        assert forall|i: int| 0 <= i < first_pages.len() implies #[trigger] earlier[i
            + 1].spec_activities() == earlier[i].spec_activities() + first_pages[i] by {
            assert(states[i + 1].spec_activities() == states[i].spec_activities() + pages[i]);
        }
        lemma_feed_growth(earlier, first_pages);
        assert(states[n + 1].spec_activities() == states[n].spec_activities() + pages[n]);
        assert forall|i: int, j: int|
            0 <= i <= j < states.len() implies states[i].spec_activities().len()
            <= states[j].spec_activities().len() by {
            if j < states.len() - 1 {
                assert(earlier[i] == states[i] && earlier[j] == states[j]);
            } else if i < j {
                assert(earlier[i] == states[i] && earlier[n] == states[n]);
            }
        }
    }
}

/// Once a page comes back shorter than its requested size, every later state
/// reached by applying further pages reports that no more pages exist.
pub proof fn lemma_has_more_latch(
    states: Seq<App>,
    counts: Seq<nat>,
    sizes: Seq<nat>,
    k: int,
)
    requires
        states.len() == counts.len() + 1,
        sizes.len() == counts.len(),
        forall|i: int|
            0 <= i < counts.len() ==> #[trigger] states[i + 1].spec_has_more() == (
            states[i].spec_has_more() && counts[i] >= sizes[i]),
        0 <= k < counts.len(),
        counts[k] < sizes[k],
    ensures
        forall|j: int| k < j < states.len() ==> !states[j].spec_has_more(),
{
    assert forall|j: int| k < j < states.len() implies !states[j].spec_has_more() by {
        assert(states[k + 1].spec_has_more() == (states[k].spec_has_more() && counts[k]
            >= sizes[k]));
        lemma_latch_holds(states, counts, sizes, k + 1, j);
    }
}

proof fn lemma_latch_holds(states: Seq<App>, counts: Seq<nat>, sizes: Seq<nat>, m: int, j: int)
    requires
        states.len() == counts.len() + 1,
        sizes.len() == counts.len(),
        forall|i: int|
            0 <= i < counts.len() ==> #[trigger] states[i + 1].spec_has_more() == (
            states[i].spec_has_more() && counts[i] >= sizes[i]),
        0 <= m <= j < states.len(),
        !states[m].spec_has_more(),
    ensures
        !states[j].spec_has_more(),
    decreases j - m,
{
    if m < j {
        assert(states[m + 1].spec_has_more() == (states[m].spec_has_more() && counts[m]
            >= sizes[m]));
        lemma_latch_holds(states, counts, sizes, m + 1, j);
    }
}

/// With more pages possible and no fetch outstanding, the next page is due
/// exactly when the selection is within five rows of the end of a non-empty
/// feed; on an empty feed it is due at once.
pub proof fn lemma_prefetch_margin(app: App)
    requires
        app.selection_valid(),
        app.spec_has_more(),
        !app.spec_loading(),
    ensures
        app.spec_activities().len() > 0 ==> (app.prefetch_due() <==> app.spec_selected()
            >= app.spec_activities().len() - PREFETCH_MARGIN),
        app.spec_activities().len() == 0 ==> app.prefetch_due(),
{
}

/// While a fetch is outstanding no further page is due, wherever the
/// selection stands.
pub proof fn lemma_no_prefetch_while_loading(app: App)
    requires
        app.spec_loading(),
    ensures
        !app.prefetch_due(),
{
}

} // verus!
