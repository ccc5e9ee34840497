//! A terminal dashboard's core for a fitness-tracking service: the
//! incremental activity feed, its selection and paging decisions, the
//! dashboard metrics computed over the loaded activities, and the small
//! text formats and parsers around them.

pub mod app;
pub mod auth;
pub mod metrics;
pub mod text;
pub mod types;
