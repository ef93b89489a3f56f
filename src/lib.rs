//! Hacker News feed notifier: short codes, feed keys, the dedup cache's
//! requests, the selection policy, the notification formatter and the
//! scheduled job's state machine, all verified.
pub mod config;
pub mod hn;
pub mod job;
pub mod kvm;
pub mod notify;
pub mod router;
pub mod tools;
