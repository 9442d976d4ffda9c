//! Token-holder monitoring: account extraction, holder statistics and alerts,
//! a retrying fetch state machine, and a bounded holder-count cache.

pub mod address;
pub mod cache;
pub mod cli;
pub mod holders;
pub mod retry;
pub mod stats;

pub use address::Address;
pub use cache::{ApiState, CacheEntry, CacheStats, CachedResult, HolderCache, HolderCacheEntry, HolderCountResponse, TokenStats};
pub use cli::{Cli, CliError};
pub use holders::{extract_holders, holder_count, AccountRecord, ExtractError, HolderSet};
pub use retry::{classify_rpc_error, exponential_backoff, parse_token_id, status_code, AttemptOutcome, FetchError, RemoteFailure, RetryAction, RetryState};
pub use stats::{calculate_stats, check_alerts, format_timestamp, record_poll, stats_at, PollError, HolderStats, Metrics, Percent};
