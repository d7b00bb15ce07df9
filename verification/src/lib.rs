//! A digest of open-source activity for a set of tracked people.
//!
//! The library turns a raw per-person activity record into a normalized
//! [`github::ContributionSummary`] and renders an ordered sequence of
//! summaries as a single human-readable text blob, with English list
//! punctuation and hyperlink embedding. Fetching the raw records and
//! delivering the rendered text are left to the surrounding program.

pub mod github;
pub mod slack;
