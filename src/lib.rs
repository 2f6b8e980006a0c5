//! Federated activity pipeline: actor directory, object resolution, activity
//! construction and fan-out, and verification and processing of inbound
//! deletions.

pub mod error;
pub mod ap_id;
pub mod store;
pub mod send_targets;
pub mod activity;
pub mod deletion;
pub mod text;
pub mod fetcher;
pub mod local_user;
pub mod report;
pub mod markdown;
pub mod kinds;
pub mod api;
pub mod combined;
