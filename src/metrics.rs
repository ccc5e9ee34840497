//! Dashboard metrics computed over the activities loaded so far: the
//! farthest distance, the distance of the last thirty days, the best running
//! pace, the activity count of this and the previous month, and the
//! per-activity relative performance.

use vstd::prelude::*;

use crate::text::{format_pace, no_pace_text, pace_text, same_text};
use crate::types::Activity;
use chrono::Datelike;

verus! {

/// Length of the recent window: thirty days, in seconds.
pub const RECENT_WINDOW_SECS: i64 = 2592000;

/// How far back the previous month is read: thirty-five days, in seconds.
pub const PREVIOUS_MONTH_OFFSET_SECS: i64 = 3024000;

/// Instants within this many seconds of the epoch, either way, always have a
/// calendar month.
pub const MONTH_RANGE_SECS: i64 = 8000000000000;

/// The year and month of an instant given in seconds since the Unix epoch,
/// read in UTC; `None` where the calendar library cannot represent it.
pub uninterp spec fn year_month_of(secs: int) -> Option<(int, int)>;

/// Relies on chrono's `DateTime::from_timestamp`, which gives `None` only
/// outside its range of about 262 000 years around the epoch, and on the
/// year and month of the UTC date it returns.
#[verifier::external_body]
fn year_month_at(secs: i64) -> (r: Option<(i32, u32)>)
    ensures
        match r {
            Some(ym) => year_month_of(secs as int) == Some((ym.0 as int, ym.1 as int)),
            None => year_month_of(secs as int) is None,
        },
        -MONTH_RANGE_SECS <= secs <= MONTH_RANGE_SECS ==> r is Some,
{
    match chrono::DateTime::from_timestamp(secs, 0) {
        Some(d) => Some((d.year(), d.month())),
        None => None,
    }
}

/// Whether an activity started within the thirty days before `now`.
pub open spec fn is_recent(a: Activity, now: int) -> bool {
    a.start_date_local > now - RECENT_WINDOW_SECS
}

/// The tag of running activities.
pub open spec fn run_tag() -> Seq<char> {
    seq!['R', 'u', 'n']
}

/// Whether an activity is a run, by its sport or its type tag.
pub open spec fn is_run(a: Activity) -> bool {
    a.sport_type@ == run_tag() || a.activity_type@ == run_tag()
}

/// Seconds per kilometre: moving time over distance, rounded down.
pub open spec fn pace_of(a: Activity) -> nat {
    (a.moving_time as nat * 1000000) / (a.distance_mm as nat)
}

/// Whether an activity takes part in the best pace over the window: a run
/// of positive distance, which started recently where a `now` is given.
pub open spec fn counts_for_pace(a: Activity, window: Option<int>) -> bool {
    &&& a.distance_mm > 0
    &&& is_run(a)
    &&& (window matches Some(now) ==> is_recent(a, now))
}

/// A machine window read as an integer one.
pub open spec fn window_of(window: Option<i64>) -> Option<int> {
    match window {
        Some(now) => Some(now as int),
        None => None,
    }
}

/// The largest distance, 0 for no activities.
pub open spec fn max_distance(s: Seq<Activity>) -> nat
    decreases s.len(),
{
    if s.len() == 0 {
        0
    } else {
        let m = max_distance(s.drop_last());
        let d = s.last().distance_mm as nat;
        if d > m {
            d
        } else {
            m
        }
    }
}

/// The summed distance of the activities that started within the thirty
/// days before `now`.
pub open spec fn recent_distance(s: Seq<Activity>, now: int) -> nat
    decreases s.len(),
{
    if s.len() == 0 {
        0
    } else {
        recent_distance(s.drop_last(), now) + if is_recent(s.last(), now) {
            s.last().distance_mm as nat
        } else {
            0
        }
    }
}

/// The smallest pace among the activities that count for the window.
pub open spec fn best_pace(s: Seq<Activity>, window: Option<int>) -> Option<nat>
    decreases s.len(),
{
    if s.len() == 0 {
        None
    } else {
        let rest = best_pace(s.drop_last(), window);
        let a = s.last();
        if counts_for_pace(a, window) {
            match rest {
                Some(p) => if pace_of(a) < p {
                    Some(pace_of(a))
                } else {
                    Some(p)
                },
                None => Some(pace_of(a)),
            }
        } else {
            rest
        }
    }
}

/// Whether some activity that counts for the window has no moving time, so
/// that the best pace is exactly 0.
pub open spec fn standstill_run(s: Seq<Activity>, window: Option<int>) -> bool
    decreases s.len(),
{
    if s.len() == 0 {
        false
    } else {
        standstill_run(s.drop_last(), window) || (counts_for_pace(s.last(), window)
            && s.last().moving_time == 0)
    }
}

/// The text of a best pace: the no-pace text where no run counts or the
/// best pace is exactly 0, else `m:ss` of the whole seconds.
pub open spec fn best_pace_text(p: Option<nat>, exactly_zero: bool) -> Seq<char> {
    match p {
        Some(x) => if exactly_zero {
            no_pace_text()
        } else {
            pace_text(Some(x))
        },
        None => no_pace_text(),
    }
}

/// How many of the months equal `target`.
pub open spec fn month_match_count(months: Seq<Option<(i32, u32)>>, target: (i32, u32)) -> nat
    decreases months.len(),
{
    if months.len() == 0 {
        0
    } else {
        month_match_count(months.drop_last(), target) + if months.last() == Some(target) {
            1nat
        } else {
            0
        }
    }
}

/// How many activities started in the month `target` (year, month).
pub open spec fn count_in_month(s: Seq<Activity>, target: (int, int)) -> nat
    decreases s.len(),
{
    if s.len() == 0 {
        0
    } else {
        count_in_month(s.drop_last(), target) + if year_month_of(s.last().start_date_local as int)
            == Some(target) {
            1nat
        } else {
            0
        }
    }
}

/// How many activities started in the month of the instant `at`; 0 where
/// that instant has no calendar month.
pub open spec fn month_count(s: Seq<Activity>, at: int) -> nat {
    match year_month_of(at) {
        Some(t) => count_in_month(s, t),
        None => 0,
    }
}

/// Distance over time over heart rate, rounded to the nearest whole number
/// with halves upward; defined where speed and heart rate are both given
/// and positive.
pub open spec fn relative_performance_of(a: Activity) -> Option<nat> {
    match (a.average_speed_mm_s, a.average_heartrate_milli) {
        (Some(v), Some(h)) => if v > 0 && h > 0 {
            let num = a.distance_mm as nat * 1000;
            let den = v as nat * h as nat;
            if (num % den) * 2 >= den {
                Some(num / den + 1)
            } else {
                Some(num / den)
            }
        } else {
            None
        },
        _ => None,
    }
}

/// The pace of one activity, where its distance is positive.
pub open spec fn activity_pace_of(a: Activity) -> Option<nat> {
    if a.distance_mm > 0 {
        Some(pace_of(a))
    } else {
        None
    }
}

/// The seconds that a best pace's text reads back to: 0 for the no-pace text.
pub open spec fn shown_pace(p: Option<nat>) -> nat {
    match p {
        Some(x) => x,
        None => 0,
    }
}

/// Whether the recent best pace beats the overall one, comparing the paces
/// as shown.
pub open spec fn pace_improved(all: Option<nat>, recent: Option<nat>) -> bool {
    shown_pace(recent) > 0 && shown_pace(recent) < shown_pace(all)
}

/// The figures of the dashboard.
pub struct DashboardSummary {
    /// The farthest distance, in millimetres.
    pub biggest_distance_mm: u64,
    /// The distance of the last thirty days, in millimetres.
    pub recent_distance_mm: u128,
    /// The best pace over all loaded runs.
    pub best_pace_all: String,
    /// The best pace over the runs of the last thirty days.
    pub best_pace_recent: String,
    /// Activities of the current month.
    pub this_month_count: usize,
    /// Activities of the month thirty-five days back.
    pub prev_month_count: usize,
    /// Some distance was covered in the last thirty days.
    pub distance_trend_up: bool,
    /// The recent best pace beats the overall one.
    pub pace_trend_up: bool,
    /// More activities this month than in the previous one.
    pub count_trend_up: bool,
}

/// Whether an activity started within the thirty days before `now`.
pub fn activity_is_recent(a: &Activity, now: i64) -> (r: bool)
    ensures
        r == is_recent(*a, now as int),
{
    (a.start_date_local as i128) > (now as i128) - (RECENT_WINDOW_SECS as i128)
}

/// Whether an activity is a run.
pub fn activity_is_run(a: &Activity) -> (r: bool)
    ensures
        r == is_run(*a),
{
    proof {
        reveal_strlit("Run");
        assert("Run"@ =~= run_tag());
    }
    same_text(a.sport_type.as_str(), "Run") || same_text(a.activity_type.as_str(), "Run")
}

/// The pace of one activity in seconds per kilometre, where its distance is positive.
pub fn activity_pace(a: &Activity) -> (r: Option<u64>)
    ensures
        match r {
            Some(p) => activity_pace_of(*a) == Some(p as nat),
            None => activity_pace_of(*a) is None,
        },
{
    if a.distance_mm > 0 {
        let t = a.moving_time as u64 * 1000000;
        proof {
            assert(t / a.distance_mm <= t) by (nonlinear_arith)
                requires
                    a.distance_mm > 0,
            ;
        }
        Some(t / a.distance_mm)
    } else {
        None
    }
}

/// The relative performance of one activity.
pub fn relative_performance(a: &Activity) -> (r: Option<u128>)
    ensures
        match r {
            Some(x) => relative_performance_of(*a) == Some(x as nat),
            None => relative_performance_of(*a) is None,
        },
{
    match (a.average_speed_mm_s, a.average_heartrate_milli) {
        (Some(v), Some(h)) => {
            if v > 0 && h > 0 {
                let num: u128 = a.distance_mm as u128 * 1000;
                proof {
                    assert(v as nat * h as nat <= u64::MAX as nat * u64::MAX as nat)
                        by (nonlinear_arith)
                        requires
                            v <= u64::MAX,
                            h <= u64::MAX,
                    ;
                    assert(v as nat * h as nat > 0) by (nonlinear_arith)
                        requires
                            v > 0,
                            h > 0,
                    ;
                }
                let den: u128 = v as u128 * h as u128;
                let q = num / den;
                let rem = num % den;
                proof {
                    assert(q <= num) by (nonlinear_arith)
                        requires
                            den > 0,
                            q == num / den,
                    ;
                }
                if rem >= den - rem {
                    Some(q + 1)
                } else {
                    Some(q)
                }
            } else {
                None
            }
        },
        _ => None,
    }
}

/// The farthest distance among the activities, 0 for none.
pub fn biggest_distance(acts: &Vec<Activity>) -> (r: u64)
    ensures
        r == max_distance(acts@),
{
    let mut best: u64 = 0;
    let mut i: usize = 0;
    while i < acts.len()
        invariant
            i <= acts@.len(),
            best == max_distance(acts@.subrange(0, i as int)),
        decreases acts@.len() - i,
    {
        proof {
            assert(acts@.subrange(0, i + 1).drop_last() =~= acts@.subrange(0, i as int));
        }
        if acts[i].distance_mm > best {
            best = acts[i].distance_mm;
        }
        i = i + 1;
    }
    assert(acts@.subrange(0, acts@.len() as int) =~= acts@);
    best
}

/// The summed distance of the activities of the thirty days before `now`.
pub fn recent_distance_sum(acts: &Vec<Activity>, now: i64) -> (r: u128)
    ensures
        r == recent_distance(acts@, now as int),
{
    let mut sum: u128 = 0;
    let mut i: usize = 0;
    while i < acts.len()
        invariant
            i <= acts@.len(),
            sum == recent_distance(acts@.subrange(0, i as int), now as int),
            sum <= i * (u64::MAX as int),
        decreases acts@.len() - i,
    {
        proof {
            assert(acts@.subrange(0, i + 1).drop_last() =~= acts@.subrange(0, i as int));
            assert((i + 1) * (u64::MAX as int) <= (usize::MAX as int) * (u64::MAX as int))
                by (nonlinear_arith)
                requires
                    i + 1 <= usize::MAX,
            ;
        }
        if activity_is_recent(&acts[i], now) {
            sum = sum + acts[i].distance_mm as u128;
        }
        i = i + 1;
    }
    assert(acts@.subrange(0, acts@.len() as int) =~= acts@);
    sum
}

/// The best pace among the runs of positive distance, restricted to the
/// thirty days before `now` where it is given.
pub fn best_pace_in(acts: &Vec<Activity>, window: Option<i64>) -> (r: Option<u64>)
    ensures
        match r {
            Some(p) => best_pace(acts@, window_of(window)) == Some(p as nat),
            None => best_pace(acts@, window_of(window)) is None,
        },
{
    let ghost w = window_of(window);
    let mut best: Option<u64> = None;
    let mut i: usize = 0;
    while i < acts.len()
        invariant
            i <= acts@.len(),
            w == window_of(window),
            match best {
                Some(p) => best_pace(acts@.subrange(0, i as int), w) == Some(p as nat),
                None => best_pace(acts@.subrange(0, i as int), w) is None,
            },
        decreases acts@.len() - i,
    {
        proof {
            assert(acts@.subrange(0, i + 1).drop_last() =~= acts@.subrange(0, i as int));
        }
        let a = &acts[i];
        let in_window = match window {
            Some(now) => activity_is_recent(a, now),
            None => true,
        };
        if in_window && activity_is_run(a) {
            match activity_pace(a) {
                Some(p) => {
                    best = match best {
                        Some(b) => if p < b {
                            Some(p)
                        } else {
                            Some(b)
                        },
                        None => Some(p),
                    };
                },
                None => {},
            }
        }
        i = i + 1;
    }
    assert(acts@.subrange(0, acts@.len() as int) =~= acts@);
    best
}

/// Whether some run that counts for the window has no moving time.
pub fn has_standstill_run(acts: &Vec<Activity>, window: Option<i64>) -> (r: bool)
    ensures
        r == standstill_run(acts@, window_of(window)),
{
    let ghost w = window_of(window);
    let mut found = false;
    let mut i: usize = 0;
    while i < acts.len()
        invariant
            i <= acts@.len(),
            w == window_of(window),
            found == standstill_run(acts@.subrange(0, i as int), w),
        decreases acts@.len() - i,
    {
        proof {
            assert(acts@.subrange(0, i + 1).drop_last() =~= acts@.subrange(0, i as int));
        }
        let a = &acts[i];
        let in_window = match window {
            Some(now) => activity_is_recent(a, now),
            None => true,
        };
        if in_window && a.distance_mm > 0 && a.moving_time == 0 && activity_is_run(a) {
            found = true;
        }
        i = i + 1;
    }
    assert(acts@.subrange(0, acts@.len() as int) =~= acts@);
    found
}

/// A best pace as text: `--:--` where there is none or it is exactly 0.
pub fn format_best_pace(p: Option<u64>, exactly_zero: bool) -> (r: String)
    ensures
        r@ == best_pace_text(
            match p {
                Some(x) => Some(x as nat),
                None => None,
            },
            exactly_zero,
        ),
{
    match p {
        Some(x) => if exactly_zero {
            format_pace(None)
        } else {
            format_pace(Some(x))
        },
        None => format_pace(None),
    }
}

/// How many of the months equal `target`.
pub fn count_matching_months(months: &Vec<Option<(i32, u32)>>, target: (i32, u32)) -> (r: usize)
    ensures
        r == month_match_count(months@, target),
{
    let mut count: usize = 0;
    let mut i: usize = 0;
    while i < months.len()
        invariant
            i <= months@.len(),
            count == month_match_count(months@.subrange(0, i as int), target),
            count <= i,
        decreases months@.len() - i,
    {
        proof {
            assert(months@.subrange(0, i + 1).drop_last() =~= months@.subrange(0, i as int));
        }
        match months[i] {
            Some(m) => {
                if m.0 == target.0 && m.1 == target.1 {
                    count = count + 1;
                }
            },
            None => {},
        }
        i = i + 1;
    }
    assert(months@.subrange(0, months@.len() as int) =~= months@);
    count
}

/// The year and month of each activity's local start, in order.
fn start_months(acts: &Vec<Activity>) -> (r: Vec<Option<(i32, u32)>>)
    ensures
        r@.len() == acts@.len(),
        forall|k: int|
            0 <= k < acts@.len() ==> month_read(#[trigger] r@[k], acts@[k].start_date_local as int),
{
    let mut months: Vec<Option<(i32, u32)>> = Vec::new();
    let mut i: usize = 0;
    while i < acts.len()
        invariant
            i <= acts@.len(),
            months@.len() == i,
            forall|k: int|
                0 <= k < i ==> month_read(#[trigger] months@[k], acts@[k].start_date_local as int),
        decreases acts@.len() - i,
    {
        months.push(year_month_at(acts[i].start_date_local));
        i = i + 1;
    }
    months
}

/// `m` is what the calendar gives for the instant `secs`.
pub open spec fn month_read(m: Option<(i32, u32)>, secs: int) -> bool {
    match m {
        Some(ym) => year_month_of(secs) == Some((ym.0 as int, ym.1 as int)),
        None => year_month_of(secs) is None,
    }
}

/// Counting matching months counts the activities of the month.
proof fn lemma_month_count(acts: Seq<Activity>, months: Seq<Option<(i32, u32)>>, target: (i32, u32))
    requires
        months.len() == acts.len(),
        forall|k: int|
            0 <= k < acts.len() ==> month_read(#[trigger] months[k], acts[k].start_date_local as int),
    ensures
        month_match_count(months, target) == count_in_month(
            acts,
            (target.0 as int, target.1 as int),
        ),
    decreases acts.len(),
{
    if acts.len() > 0 {
        let n = acts.len() - 1;
        assert(month_read(months[n as int], acts[n as int].start_date_local as int));
        assert(months[n as int] == months.last());
        assert(acts[n as int] == acts.last());
        assert forall|k: int| 0 <= k < acts.drop_last().len() implies month_read(
            #[trigger] months.drop_last()[k],
            acts.drop_last()[k].start_date_local as int,
        ) by {
            assert(month_read(months[k], acts[k].start_date_local as int));
        }
        lemma_month_count(acts.drop_last(), months.drop_last(), target);
    }
}

/// Activities of the month of `now`, and of the month thirty-five days earlier.
pub fn monthly_counts(acts: &Vec<Activity>, now: i64) -> (r: (usize, usize))
    requires
        now >= i64::MIN + PREVIOUS_MONTH_OFFSET_SECS,
    ensures
        r.0 == month_count(acts@, now as int),
        r.1 == month_count(acts@, now - PREVIOUS_MONTH_OFFSET_SECS),
{
    let months = start_months(acts);
    let this_month = year_month_at(now);
    let prev_month = year_month_at(now - PREVIOUS_MONTH_OFFSET_SECS);
    let this_count = match this_month {
        Some(t) => {
            proof {
                lemma_month_count(acts@, months@, t);
            }
            count_matching_months(&months, t)
        },
        None => 0,
    };
    let prev_count = match prev_month {
        Some(t) => {
            proof {
                lemma_month_count(acts@, months@, t);
            }
            count_matching_months(&months, t)
        },
        None => 0,
    };
    (this_count, prev_count)
}

/// The dashboard's figures over `acts` at the instant `now`.
pub fn dashboard_summary(acts: &Vec<Activity>, now: i64) -> (r: DashboardSummary)
    requires
        now >= i64::MIN + PREVIOUS_MONTH_OFFSET_SECS,
    ensures
        r.biggest_distance_mm == max_distance(acts@),
        r.recent_distance_mm == recent_distance(acts@, now as int),
        r.best_pace_all@ == best_pace_text(best_pace(acts@, None), standstill_run(acts@, None)),
        r.best_pace_recent@ == best_pace_text(
            best_pace(acts@, Some(now as int)),
            standstill_run(acts@, Some(now as int)),
        ),
        r.this_month_count == month_count(acts@, now as int),
        r.prev_month_count == month_count(acts@, now - PREVIOUS_MONTH_OFFSET_SECS),
        r.distance_trend_up == (recent_distance(acts@, now as int) > 0),
        r.pace_trend_up == pace_improved(
            best_pace(acts@, None),
            best_pace(acts@, Some(now as int)),
        ),
        r.count_trend_up == (month_count(acts@, now as int) > month_count(
            acts@,
            now - PREVIOUS_MONTH_OFFSET_SECS,
        )),
{
    let biggest = biggest_distance(acts);
    let recent = recent_distance_sum(acts, now);
    let all_best = best_pace_in(acts, None);
    let recent_best = best_pace_in(acts, Some(now));
    let all_zero = has_standstill_run(acts, None);
    let recent_zero = has_standstill_run(acts, Some(now));
    let counts = monthly_counts(acts, now);
    let shown_all: u64 = match all_best {
        Some(x) => x,
        None => 0,
    };
    let shown_recent: u64 = match recent_best {
        Some(x) => x,
        None => 0,
    };
    proof {
        assert(window_of(None) == None::<int>);
        assert(window_of(Some(now)) == Some(now as int));
    }
    DashboardSummary {
        biggest_distance_mm: biggest,
        recent_distance_mm: recent,
        best_pace_all: format_best_pace(all_best, all_zero),
        best_pace_recent: format_best_pace(recent_best, recent_zero),
        this_month_count: counts.0,
        prev_month_count: counts.1,
        distance_trend_up: recent > 0,
        pace_trend_up: shown_recent > 0 && shown_recent < shown_all,
        count_trend_up: counts.0 > counts.1,
    }
}

} // verus!
