//! Maremma: service checks, their scheduling and the rules around them.

pub mod text;
pub mod status;
pub mod status_order;
pub mod constants;
pub mod errors;
pub mod clock;
pub mod check_loop;
pub mod schedule;
pub mod json;
pub mod services;
pub mod ids;
pub mod host;
pub mod otel;
pub mod logging;
pub mod actions;
pub mod discovery;
pub mod config;
pub mod store;
pub mod db;
pub mod prune;
pub mod splunk;
