//! Bridges a print server's queue status onto a publish/subscribe bus.
//!
//! The library holds the logic of the bridge: schedules and the waits they
//! give, the conversion of queue records into bus messages, the cache that
//! keeps unchanged messages off the bus, and the decisions of the report and
//! supply-level loops. The program around it performs the network work.

pub mod json;
pub mod schedule;
pub mod config;
pub mod queues;
pub mod cups_url;
pub mod messages;
pub mod reports;
pub mod cache;
pub mod engine;
