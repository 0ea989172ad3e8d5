//! Headline feed pipeline: a background worker publishes headline cards on a
//! one-way queue, and the controller polls that queue once per frame without
//! ever waiting on it.

pub mod channel;
pub mod config;
pub mod controller;
pub mod laws;
pub mod record;
pub mod theme;
pub mod worker;

pub use config::HeadlinesConfig;
pub use controller::{AppState, Headlines, KeyAccepted, Screen};
pub use record::NewsCardData;
pub use worker::{FetchJob, FetchedArticle, WorkerReport};
