//! Verified core of a terminal status-line renderer.
//!
//! The library decides which usage-quota provider a session's endpoint
//! belongs to, judges cached quota data against a time-to-live, normalizes
//! fetched quota records, and renders them into colored text segments.
//! All I/O (reading the session document, the cache files and the network)
//! lives outside the library; the functions here are pure and carry
//! contracts that pin their results down.

mod cache;
mod color;
mod endpoint;
mod providers;
mod quota;
mod session;
mod text;
mod timefmt;

pub use cache::CACHE_TTL_SECONDS;
pub use cache::FETCH_TIMEOUT_SECONDS;
pub use cache::accept_cached;
pub use cache::cache_is_fresh;
pub use cache::lemma_cache_round_trip;

pub use color::Color;
pub use color::balance_color;
pub use color::get_context_color;
pub use color::remaining_color;
pub use color::reset_code;

pub use endpoint::Credentials;
pub use endpoint::credentials_from_fields;
pub use endpoint::ensure_bearer;
pub use endpoint::lemma_ensure_bearer_idempotent;
pub use endpoint::token_has_bearer_prefix;
pub use endpoint::yunyi_api_url;
pub use endpoint::zhipu_quota_url;

pub use providers::EnrichmentPlan;
pub use providers::Provider;
pub use providers::ProviderKind;
pub use providers::Segment;
pub use providers::YunyiProvider;
pub use providers::ZhipuProvider;
pub use providers::lemma_fresh_cache_never_fetched;
pub use providers::lemma_no_provider_no_fetch;
pub use providers::lemma_select_order_deterministic;
pub use providers::plan_enrichment;
pub use providers::providers;
pub use providers::render_segments;
pub use providers::select_provider;
pub use providers::snapshot_provider;

pub use quota::QuotaLimit;
pub use quota::UsageSnapshot;
pub use quota::YunyiUsageCache;
pub use quota::ZhipuUsageCache;
pub use quota::make_yunyi_entry;
pub use quota::normalize_limits;
pub use quota::remaining_balance;

pub use session::CurrentUsage;
pub use session::Model;
pub use session::OutputStyle;
pub use session::Workspace;
pub use session::format_duration;
pub use session::get_dir_name;

pub use text::pad2;
pub use text::round_percent;
pub use text::str_contains;
pub use text::u64_to_string;

pub use timefmt::EAST8_OFFSET_SECONDS;
pub use timefmt::format_expiry;
