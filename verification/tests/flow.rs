use statusline::accept_cached;
use statusline::cache_is_fresh;
use statusline::credentials_from_fields;
use statusline::ensure_bearer;
use statusline::format_duration;
use statusline::get_dir_name;
use statusline::plan_enrichment;
use statusline::render_segments;
use statusline::providers;
use statusline::select_provider;
use statusline::snapshot_provider;
use statusline::token_has_bearer_prefix;
use statusline::yunyi_api_url;
use statusline::zhipu_quota_url;
use statusline::EnrichmentPlan;
use statusline::ProviderKind;
use statusline::UsageSnapshot;
use statusline::YunyiUsageCache;
use statusline::ZhipuUsageCache;
use statusline::CACHE_TTL_SECONDS;

fn zhipu_snapshot(timestamp: i64) -> UsageSnapshot {
    UsageSnapshot::Zhipu(ZhipuUsageCache { token_limit: None, mcp_limit: None, timestamp })
}

fn yunyi_snapshot(timestamp: i64) -> UsageSnapshot {
    UsageSnapshot::Yunyi(YunyiUsageCache {
        daily_used: None,
        daily_quota: Some(1000),
        daily_spent: None,
        daily_total_spent: Some(850),
        expires_at: None,
        request_count: None,
        daily_request_count: None,
        timestamp,
    })
}

#[test]
fn test_get_dir_name() {
    assert_eq!(get_dir_name("/Users/test/project"), "project");
    assert_eq!(get_dir_name("project"), "project");
    assert_eq!(get_dir_name("/"), "");
}

#[test]
fn test_format_duration() {
    assert_eq!(format_duration(0), "0s");
    assert_eq!(format_duration(5_000), "5s");
    assert_eq!(format_duration(59_999), "59s");
    assert_eq!(format_duration(60_000), "1m");
    assert_eq!(format_duration(3_599_000), "59m");
    assert_eq!(format_duration(3_660_000), "1h1m");
    assert_eq!(format_duration(7_200_000), "2h0m");
}

#[test]
fn test_select_provider_zhipu() {
    assert_eq!(select_provider("https://api.bigmodel.cn/v1"), Some(ProviderKind::Zhipu));
    assert_eq!(select_provider("https://open.z.ai/api"), Some(ProviderKind::Zhipu));
}

#[test]
fn test_select_provider_yunyi() {
    assert_eq!(select_provider("https://yunyi.cfd/api"), Some(ProviderKind::Yunyi));
    assert_eq!(select_provider("https://yunyi.rdzhvip.com"), Some(ProviderKind::Yunyi));
}

#[test]
fn test_select_provider_none() {
    assert_eq!(select_provider("https://api.anthropic.com"), None);
    assert_eq!(select_provider(""), None);
}

#[test]
fn test_select_provider_order_deterministic() {
    // Both predicates accept this endpoint; the first provider of the
    // registry still wins.
    let both = "https://bigmodel.cn.yunyi.cfd/v1";
    assert_eq!(select_provider(both), Some(ProviderKind::Zhipu));
}

#[test]
fn test_providers_order() {
    let v = providers();
    assert_eq!(v, vec![ProviderKind::Zhipu, ProviderKind::Yunyi]);
}

#[test]
fn test_bearer_prefix_detection() {
    assert!(token_has_bearer_prefix("Bearer abc"));
    assert!(token_has_bearer_prefix("bearer abc"));
    assert!(token_has_bearer_prefix("BEARER abc"));
    assert!(token_has_bearer_prefix("bEaReR abc"));
    assert!(!token_has_bearer_prefix("Bearerabc"));
    assert!(!token_has_bearer_prefix("abc"));
    assert!(!token_has_bearer_prefix(""));
}

#[test]
fn test_ensure_bearer_adds_prefix() {
    assert_eq!(ensure_bearer("sk-token"), "Bearer sk-token");
    assert_eq!(ensure_bearer(""), "Bearer ");
}

#[test]
fn test_ensure_bearer_idempotent() {
    // An already-prefixed token, in any case variant, stays as it is.
    assert_eq!(ensure_bearer("Bearer sk-token"), "Bearer sk-token");
    assert_eq!(ensure_bearer("BEARER sk-token"), "BEARER sk-token");
    assert_eq!(ensure_bearer("bearer sk-token"), "bearer sk-token");
    let once = ensure_bearer("sk-token");
    let twice = ensure_bearer(&once);
    assert_eq!(once, twice);
}

#[test]
fn test_cache_freshness_boundaries() {
    assert!(CACHE_TTL_SECONDS == 180);
    assert!(cache_is_fresh(1000, 1000));
    assert!(cache_is_fresh(1000, 1179));
    assert!(!cache_is_fresh(1000, 1180));
    assert!(!cache_is_fresh(1000, 2000));
    // A capture time in the future still counts as fresh.
    assert!(cache_is_fresh(2000, 1000));
}

#[test]
fn test_cache_round_trip_fresh() {
    // Written at 1000, read back 2 minutes later: the snapshot comes back.
    let entry = Some(zhipu_snapshot(1000));
    let got = accept_cached(entry, 1120);
    match got {
        Some(UsageSnapshot::Zhipu(z)) => assert_eq!(z.timestamp, 1000),
        _ => panic!("fresh cache entry was not returned"),
    }
}

#[test]
fn test_cache_round_trip_stale() {
    // Read at or past the time-to-live: absent, whatever the file held.
    let entry = Some(yunyi_snapshot(1000));
    assert!(accept_cached(entry, 1180).is_none());
    assert!(accept_cached(None, 1180).is_none());
}

#[test]
fn test_plan_no_provider_no_fetch() {
    // No provider matches: no enrichment, and in particular no fetch,
    // even with a fresh-looking cache entry on disk.
    let plan = plan_enrichment("https://api.anthropic.com", Some(zhipu_snapshot(995)), 1000);
    assert!(matches!(plan, EnrichmentPlan::NoProvider));
}

#[test]
fn test_plan_fresh_cache_is_used() {
    // A valid entry captured 2 minutes ago: the fetch is never planned.
    let plan = plan_enrichment("https://api.bigmodel.cn/v1", Some(zhipu_snapshot(880)), 1000);
    match plan {
        EnrichmentPlan::UseCached(p, s) => {
            assert_eq!(p, ProviderKind::Zhipu);
            assert_eq!(snapshot_provider(&s), ProviderKind::Zhipu);
        }
        _ => panic!("fresh cache entry was not used"),
    }
}

#[test]
fn test_plan_stale_cache_fetches() {
    let plan = plan_enrichment("https://api.bigmodel.cn/v1", Some(zhipu_snapshot(700)), 1000);
    assert!(matches!(plan, EnrichmentPlan::Fetch(ProviderKind::Zhipu)));
    let plan = plan_enrichment("https://yunyi.cfd/api", None, 1000);
    assert!(matches!(plan, EnrichmentPlan::Fetch(ProviderKind::Yunyi)));
}

#[test]
fn test_plan_wrong_provider_cache_fetches() {
    // A fresh snapshot of the other provider is not used.
    let plan = plan_enrichment("https://api.bigmodel.cn/v1", Some(yunyi_snapshot(995)), 1000);
    assert!(matches!(plan, EnrichmentPlan::Fetch(ProviderKind::Zhipu)));
}

#[test]
fn test_render_segments_dispatch() {
    // The yunyi renderer is the one that runs for a yunyi snapshot, and a
    // snapshot of the other provider renders nothing.
    let snap = yunyi_snapshot(0);
    let parts = render_segments(ProviderKind::Yunyi, &snap);
    assert_eq!(parts.len(), 1);
    assert_eq!(parts[0].text, "[YUNYI] Rem:$1.50");
    assert!(render_segments(ProviderKind::Zhipu, &snap).is_empty());
}

#[test]
fn test_credentials_from_fields() {
    let c = credentials_from_fields(
        Some("https://api.bigmodel.cn/v1".to_string()),
        Some("sk-token".to_string()),
    )
    .unwrap();
    assert_eq!(c.endpoint, "https://api.bigmodel.cn/v1");
    assert_eq!(c.token, "sk-token");
    assert!(credentials_from_fields(Some("x".to_string()), None).is_none());
    assert!(credentials_from_fields(None, Some("x".to_string())).is_none());
    assert!(credentials_from_fields(None, None).is_none());
}

#[test]
fn test_zhipu_quota_url() {
    // The scheme and host are kept (and normalized to lower case by the
    // URL parser), the configured path is discarded, the fixed quota path
    // is appended.
    assert_eq!(
        zhipu_quota_url("https://api.bigmodel.cn/v1").as_deref(),
        Some("https://api.bigmodel.cn/api/monitor/usage/quota/limit")
    );
    assert_eq!(
        zhipu_quota_url("HTTPS://API.BIGMODEL.CN/some/deep/path?q=1").as_deref(),
        Some("https://api.bigmodel.cn/api/monitor/usage/quota/limit")
    );
    assert!(zhipu_quota_url("not a url").is_none());
    assert!(zhipu_quota_url("mailto:nobody@example.com").is_none());
}

#[test]
fn test_yunyi_api_url() {
    assert_eq!(yunyi_api_url(), "https://yunyi.cfd/user/api/v1/me");
}
