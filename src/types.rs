//! The records that the service hands out, held as plain values.
//!
//! Quantities that the service reports as fractional numbers are kept here
//! as integers in a finer unit (millimetres, thousandths), and instants as
//! whole seconds since the Unix epoch.

use vstd::prelude::*;

verus! {

/// The signed-in athlete's profile.
#[derive(Debug, Clone)]
pub struct Athlete {
    pub id: u64,
    pub username: Option<String>,
    pub firstname: String,
    pub lastname: String,
    pub city: Option<String>,
    pub country: Option<String>,
    pub profile: Option<String>,
    pub profile_medium: Option<String>,
}

/// Per-sport labels, as the service lists them.
#[derive(Debug, Clone)]
pub struct ActivityType {
    pub ride: Option<String>,
    pub run: Option<String>,
    pub swim: Option<String>,
    pub hike: Option<String>,
    pub walk: Option<String>,
    pub weight_training: Option<String>,
    pub yoga: Option<String>,
}

/// Totals over a group of activities.
#[derive(Debug, Clone)]
pub struct ActivityStats {
    pub count: u32,
    /// Millimetres.
    pub distance_mm: u64,
    /// Seconds.
    pub moving_time: u32,
    /// Seconds.
    pub elapsed_time: u32,
    /// Millimetres.
    pub elevation_gain_mm: i64,
}

/// The athlete's aggregate statistics, stored and shown as received.
#[derive(Debug, Clone)]
pub struct AthleteStats {
    /// Millimetres.
    pub biggest_ride_distance_mm: Option<u64>,
    /// Millimetres.
    pub biggest_climb_elevation_gain_mm: Option<i64>,
    pub recent_run_totals: ActivityStats,
    pub recent_ride_totals: ActivityStats,
    pub ytd_run_totals: ActivityStats,
    pub ytd_ride_totals: ActivityStats,
    pub all_run_totals: ActivityStats,
    pub all_ride_totals: ActivityStats,
}

/// One recorded activity.
#[derive(Debug, Clone)]
pub struct Activity {
    pub id: u64,
    pub name: String,
    pub activity_type: String,
    pub sport_type: String,
    /// Seconds since the Unix epoch.
    pub start_date: i64,
    /// The local wall-clock start, read as seconds since the Unix epoch.
    pub start_date_local: i64,
    pub timezone: String,
    /// Millimetres.
    pub distance_mm: u64,
    /// Seconds.
    pub moving_time: u32,
    /// Seconds.
    pub elapsed_time: u32,
    /// Millimetres.
    pub total_elevation_gain_mm: i64,
    /// Millimetres per second.
    pub average_speed_mm_s: Option<u64>,
    /// Millimetres per second.
    pub max_speed_mm_s: Option<u64>,
    /// Thousandths of a beat per minute.
    pub average_heartrate_milli: Option<u64>,
    /// Thousandths of a beat per minute.
    pub max_heartrate_milli: Option<u64>,
    /// Thousandths of a kilocalorie.
    pub calories_milli: Option<u64>,
    pub description: Option<String>,
    pub kudos_count: Option<u32>,
    pub comment_count: Option<u32>,
    pub achievement_count: Option<u32>,
    pub pr_count: Option<u32>,
    pub private: Option<bool>,
    pub commute: Option<bool>,
    pub manual: Option<bool>,
    pub gear_id: Option<String>,
}

/// A reference to another resource of the service.
#[derive(Debug, Clone, Copy, PartialEq, Eq, Structural)]
pub struct Reference {
    pub id: u64,
    pub resource_state: u8,
}

/// The answer of the token endpoint.
#[derive(Debug, Clone)]
pub struct TokenResponse {
    pub access_token: String,
    pub refresh_token: String,
    pub expires_at: i64,
    pub token_type: String,
}

/// An error body of the service.
#[derive(Debug, Clone)]
pub struct ErrorResponse {
    pub message: Option<String>,
    pub errors: Option<Vec<StravaError>>,
}

/// One entry of an error body.
#[derive(Debug, Clone)]
pub struct StravaError {
    pub resource: String,
    pub field: String,
    pub code: String,
}

} // verus!
