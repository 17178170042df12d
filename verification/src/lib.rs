//! Extraction of structured artifacts from line-oriented build logs.
//!
//! Four independent line parsers consume the same sequence of log lines:
//! the step parser builds a timeline of build steps with their error lines,
//! the job-detail parser collects annotations, and the two measurement
//! parsers collect embedded performance payloads.

pub mod text;
pub mod patterns;
pub mod tables;
pub mod timestamps;
pub mod json;
pub mod logparser;
pub mod stepparser;
pub mod performanceparser;
pub mod talosparser;
pub mod tinderboxparser;
pub mod dispatcher;
