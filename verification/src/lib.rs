//! Rate-limit reporting library.
//!
//! A Monitor polls a status endpoint, detects a blocking condition from the
//! fetched document, and tracks an edge-triggered `exceeded` flag so that each
//! contiguous run of the condition produces exactly one report. A Collector
//! authenticates such reports against a shared secret and, when accepted,
//! builds exactly one notification payload for a downstream webhook sink.
//!
//! The transport around these decisions (timers, HTTP, serving) is ordinary
//! unverified plumbing; everything the two components decide or construct is
//! specified and proved here.

pub mod collector;
pub mod config;
pub mod monitor;
pub mod status;
pub mod text;
