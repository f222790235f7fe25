//! Heart-rate acquisition and dispatch: payload parsing, device discovery
//! decisions, rate-limited notification, and the crash-safe sleep guard.

pub mod payload;
pub mod gatt;
pub mod discovery;
pub mod advertisement;
pub mod ingest;
pub mod lifecycle;
pub mod logs;
pub mod banner;
pub mod thresholds;
pub mod config;
pub mod osc;
pub mod monitor;
