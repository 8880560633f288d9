//! The decisions of the QuantPilot strategy runtime service, with their contracts:
//! runtime event envelopes and their validation, the frontend projection of runtime and
//! backtest output, timelines, compact evidence and reports, replay windows, parameter
//! mutations and AI proposals with their approvals, capability checks of runtime
//! configurations, storage lifecycle rules, log sanitisation and rate limiting.
//!
//! Documents are held as plain JSON values (`json`) whose text form is that of
//! `serde_json` (`json_text`); reading and writing files, the HTTP layer and floating
//! point summaries live outside this crate.
use vstd::prelude::*;

pub mod activation;
pub mod ai_proposal;
pub mod backtest;
pub mod backtest_admission;
pub mod capabilities;
pub mod diagnostics;
pub mod error;
pub mod events;
pub mod json;
pub mod json_text;
pub mod listing;
pub mod migration;
pub mod mutation;
pub mod normalization;
pub mod projection;
pub mod rate_limit;
pub mod proposal;
pub mod record_ids;
pub mod record_views;
pub mod replay;
pub mod report;
pub mod report_ops;
pub mod run_flow;
pub mod run_stream;
pub mod safe_log;
pub mod storage;
pub mod text;
pub mod timeline;
pub mod v4_events;
pub mod v4_handoff;
