//! Deployment settings of the worker.
use vstd::prelude::*;

verus! {

pub const APP_NAME: &'static str = "hacker-news-worker-rs";

pub const APP_VERSION: &'static str = "0.1.0";

pub const APP_USER_AGENT: &'static str = "Cloudflare Worker - hacker-news-worker-rs/0.1.0";

/// Items fetched per run.
pub const LIMIT_DEFAULT: u16 = 30;

/// Key of the retention marker.
pub const KV_TTL_KEY: &'static str = "TTL_TEST";

/// Default time to live of a cache record, in seconds.
pub const KV_TTL_VAL: u64 = 3600;

/// Least score of an item that is notified.
pub const MIN_SCORE_DEFAULT: u64 = 150;

/// Earliest creation time of an item that is notified.
pub const UNIX_TIME_DEFAULT: u64 = 0;

/// Namespace of the cache keys.
pub const HN_PREFIX: &'static str = "HN-";

/// Status marker after a notification's title.
pub const STATUS_MARKER: &'static str = "🦀 ";

} // verus!
