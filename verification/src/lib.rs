//! Time-bounded observation windows over external posts, with recurring
//! sampling of their counters into an append-only series.
//!
//! A request opens (or extends) a polling window for a post; at most one
//! window per post is live at any instant. A recurring job samples the
//! post's counters while the window is open and stops once it elapses; a
//! dedup gate keeps repeated requests from stacking duplicate jobs, and a
//! startup reconciler rebuilds the in-memory job set from persisted state.

pub mod config;
pub mod gate;
pub mod models;
pub mod post_info;
pub mod posts;
pub mod scheduler;
pub mod service;
pub mod tasks;
pub mod timefmt;
pub mod utils;
