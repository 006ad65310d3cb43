use vstd::prelude::*;
use vstd::string::StringExecFns;

verus! {

/// One named limit of the first provider's quota API. Percentages are
/// carried in hundredths of a percent so that thresholds and rounding
/// are exact integer arithmetic.
#[derive(Clone)]
pub struct QuotaLimit {
    pub limit_type: String,
    pub percentage_hundredths: u64,
    pub current_value: Option<u64>,
    pub usage: Option<u64>,
}

/// The first provider's quota snapshot: the token-rate limit and the
/// time-window limit picked out of the vendor's limit list, stamped with
/// the epoch second at which they were fetched.
pub struct ZhipuUsageCache {
    pub token_limit: Option<QuotaLimit>,
    pub mcp_limit: Option<QuotaLimit>,
    pub timestamp: i64,
}

/// The second provider's quota snapshot, stamped with the epoch second
/// at which it was fetched.
pub struct YunyiUsageCache {
    pub daily_used: Option<u64>,
    pub daily_quota: Option<u64>,
    pub daily_spent: Option<u64>,
    pub daily_total_spent: Option<u64>,
    pub expires_at: Option<String>,
    pub request_count: Option<u64>,
    pub daily_request_count: Option<u64>,
    pub timestamp: i64,
}

/// A quota snapshot of whichever provider served it.
pub enum UsageSnapshot {
    Zhipu(ZhipuUsageCache),
    Yunyi(YunyiUsageCache),
}

impl UsageSnapshot {
    /// The epoch second at which the snapshot was captured.
    pub open spec fn spec_timestamp(&self) -> i64 {
        match self {
            UsageSnapshot::Zhipu(z) => z.timestamp,
            UsageSnapshot::Yunyi(y) => y.timestamp,
        }
    }

    /// The epoch second at which the snapshot was captured.
    pub fn timestamp(&self) -> (r: i64)
        ensures
            r == self.spec_timestamp(),
    {
        match self {
            UsageSnapshot::Zhipu(z) => z.timestamp,
            UsageSnapshot::Yunyi(y) => y.timestamp,
        }
    }
}

/// The last element of `limits` whose type tag equals `t`, the one the
/// vendor's list scan leaves in place after every earlier match has been
/// overwritten.
pub open spec fn last_of_type(limits: Seq<QuotaLimit>, t: Seq<char>) -> Option<QuotaLimit>
    decreases limits.len(),
{
    if limits.len() == 0 {
        None
    } else if limits.last().limit_type@ == t {
        Some(limits.last())
    } else {
        last_of_type(limits.drop_last(), t)
    }
}

/// Picks the token-rate limit (tag `TOKENS_LIMIT`) and the time-window
/// limit (tag `TIME_LIMIT`) out of the vendor's limit list, keeping the
/// last of each, and stamps the snapshot with `now`.
pub fn normalize_limits(limits: Vec<QuotaLimit>, now: i64) -> (r: ZhipuUsageCache)
    ensures
        r.token_limit == last_of_type(limits@, "TOKENS_LIMIT"@),
        r.mcp_limit == last_of_type(limits@, "TIME_LIMIT"@),
        r.timestamp == now,
{
    let ghost orig = limits@;
    let tok_tag: String = String::from_str("TOKENS_LIMIT");
    let time_tag: String = String::from_str("TIME_LIMIT");
    let mut rest = limits;
    let mut token_limit: Option<QuotaLimit> = None;
    let mut mcp_limit: Option<QuotaLimit> = None;
    while rest.len() > 0
        invariant
            tok_tag@ == "TOKENS_LIMIT"@,
            time_tag@ == "TIME_LIMIT"@,
            last_of_type(orig, "TOKENS_LIMIT"@) == if token_limit is Some {
                token_limit
            } else {
                last_of_type(rest@, "TOKENS_LIMIT"@)
            },
            last_of_type(orig, "TIME_LIMIT"@) == if mcp_limit is Some {
                mcp_limit
            } else {
                last_of_type(rest@, "TIME_LIMIT"@)
            },
        decreases rest.len(),
    {
        proof {
            reveal_strlit("TOKENS_LIMIT");
            reveal_strlit("TIME_LIMIT");
            assert("TOKENS_LIMIT"@.len() != "TIME_LIMIT"@.len());
        }
        let l = rest.pop().unwrap();
        if token_limit.is_none() && l.limit_type == tok_tag {
            token_limit = Some(l);
        } else if mcp_limit.is_none() && l.limit_type == time_tag {
            mcp_limit = Some(l);
        }
    }
    ZhipuUsageCache { token_limit, mcp_limit, timestamp: now }
}

/// Assembles the second provider's snapshot from the fields of the
/// vendor's reply, stamped with `now`. The daily-spent figure comes from
/// the quota object when it carries one, else from the usage object.
pub fn make_yunyi_entry(
    daily_used: Option<u64>,
    daily_quota: Option<u64>,
    quota_daily_spent: Option<u64>,
    usage_daily_spent: Option<u64>,
    daily_total_spent: Option<u64>,
    expires_at: Option<String>,
    request_count: Option<u64>,
    daily_request_count: Option<u64>,
    now: i64,
) -> (r: YunyiUsageCache)
    ensures
        r.daily_used == daily_used,
        r.daily_quota == daily_quota,
        r.daily_spent == if quota_daily_spent is Some {
            quota_daily_spent
        } else {
            usage_daily_spent
        },
        r.daily_total_spent == daily_total_spent,
        r.expires_at == expires_at,
        r.request_count == request_count,
        r.daily_request_count == daily_request_count,
        r.timestamp == now,
{
    let daily_spent = if quota_daily_spent.is_some() {
        quota_daily_spent
    } else {
        usage_daily_spent
    };
    YunyiUsageCache {
        daily_used,
        daily_quota,
        daily_spent,
        daily_total_spent,
        expires_at,
        request_count,
        daily_request_count,
        timestamp: now,
    }
}

/// What is left of a quota after spending: the difference, floored at
/// zero so that it never goes negative.
pub open spec fn spec_remaining(quota: int, total_spent: int) -> int {
    if quota >= total_spent {
        quota - total_spent
    } else {
        0
    }
}

/// The floored difference is never negative, whatever was spent.
pub proof fn lemma_remaining_never_negative(quota: int, total_spent: int)
    ensures
        spec_remaining(quota, total_spent) >= 0,
{
}

/// The remaining balance, `quota` minus `total_spent`, floored at zero.
pub fn remaining_balance(quota: u64, total_spent: u64) -> (r: u64)
    ensures
        r == spec_remaining(quota as int, total_spent as int),
        r >= 0,
{
    if quota >= total_spent {
        quota - total_spent
    } else {
        0
    }
}

} // verus!
