use vstd::prelude::*;
use vstd::string::StrSliceExecFns;
use vstd::string::StringExecFns;
use crate::cache::fresh_at;
use crate::cache::cache_is_fresh;
use crate::color::Color;
use crate::color::color_code;
use crate::color::get_context_color;
use crate::color::spec_context_color;
use crate::color::balance_color;
use crate::color::spec_remaining_color;
use crate::color::reset_code;
use crate::quota::QuotaLimit;
use crate::quota::UsageSnapshot;
use crate::quota::YunyiUsageCache;
use crate::quota::ZhipuUsageCache;
use crate::quota::spec_remaining;
use crate::quota::remaining_balance;
use crate::text::dec_str;
use crate::text::has_substring;
use crate::text::pad2;
use crate::text::pad2_str;
use crate::text::round_percent;
use crate::text::rounded_percent;
use crate::text::str_contains;
use crate::text::u64_to_string;
use crate::timefmt::format_expiry;
use crate::timefmt::spec_expiry_text;

verus! {

/// One colored fragment of the status line.
pub struct Segment {
    pub color: Color,
    pub text: String,
}

impl Segment {
    /// The segment carries exactly this color and this text.
    pub open spec fn is_seg(&self, c: Color, t: Seq<char>) -> bool {
        &&& self.color == c
        &&& self.text@ == t
    }

    /// The segment as one terminal string: color code, text, reset.
    pub fn ansi(&self) -> (r: String)
        ensures
            r@ == color_code(self.color) + self.text@ + "\x1b[0m"@,
    {
        let r = String::from_str(self.color.code()).concat(self.text.as_str()).concat(
            reset_code(),
        );
        proof {
            assert(r@ =~= color_code(self.color) + self.text@ + "\x1b[0m"@);
        }
        r
    }
}

/// The fixed set of quota providers, in registry order.
#[derive(Clone, Copy, PartialEq, Eq, Structural, Debug)]
pub enum ProviderKind {
    Zhipu,
    Yunyi,
}

/// The first provider claims an endpoint that names one of its two
/// domains.
pub open spec fn zhipu_matches(e: Seq<char>) -> bool {
    has_substring(e, "bigmodel.cn"@) || has_substring(e, "z.ai"@)
}

/// The second provider claims an endpoint that names one of its two
/// domains.
pub open spec fn yunyi_matches(e: Seq<char>) -> bool {
    has_substring(e, "yunyi.rdzhvip.com"@) || has_substring(e, "yunyi.cfd"@)
}

/// Which provider serves an endpoint: the first of the registry whose
/// match predicate accepts it, in registry order, or none at all.
pub open spec fn spec_select(e: Seq<char>) -> Option<ProviderKind> {
    if zhipu_matches(e) {
        Some(ProviderKind::Zhipu)
    } else if yunyi_matches(e) {
        Some(ProviderKind::Yunyi)
    } else {
        None
    }
}

/// A vendor-specific quota integration: a name, an endpoint match
/// predicate, and the rendering of its snapshot into segments.
pub trait Provider {
    /// The provider's fixed name.
    spec fn spec_name(&self) -> Seq<char>;

    /// Which endpoints the provider claims.
    spec fn spec_matches(&self, base_url: Seq<char>) -> bool;

    /// Exactly the segments [`Provider::get_parts`] yields for a snapshot.
    spec fn parts_ok(&self, usage: &UsageSnapshot, parts: Seq<Segment>) -> bool;

    /// The provider's fixed name.
    fn name(&self) -> (r: &'static str)
        ensures
            r@ == self.spec_name(),
    ;

    /// Whether the provider claims this endpoint.
    fn matches(&self, base_url: &str) -> (r: bool)
        ensures
            r == self.spec_matches(base_url@),
    ;

    /// Renders a snapshot into this provider's status segments.
    fn get_parts(&self, usage: &UsageSnapshot) -> (r: Vec<Segment>)
        ensures
            self.parts_ok(usage, r@),
    ;
}

/// The token-rate segment text of the first provider, for a percentage in
/// hundredths.
pub open spec fn zhipu_token_text(h: u64) -> Seq<char> {
    "[ZAI] Token(5h):"@ + dec_str(rounded_percent(h as int) as nat) + "%"@
}

/// The time-window segment text of the first provider, for a percentage
/// in hundredths.
pub open spec fn zhipu_mcp_text(h: u64) -> Seq<char> {
    "[ZAI] MCP(1月):"@ + dec_str(rounded_percent(h as int) as nat) + "%"@
}

/// The segments the first provider renders: one per limit present, the
/// token-rate one first, each colored by its used share.
pub open spec fn zhipu_parts_ok(z: &ZhipuUsageCache, parts: Seq<Segment>) -> bool {
    let tcount: int = if z.token_limit is Some {
        1
    } else {
        0
    };
    let mcount: int = if z.mcp_limit is Some {
        1
    } else {
        0
    };
    &&& parts.len() == tcount + mcount
    &&& (z.token_limit matches Some(l) ==> parts[0].is_seg(
        spec_context_color(l.percentage_hundredths as int),
        zhipu_token_text(l.percentage_hundredths),
    ))
    &&& (z.mcp_limit matches Some(l) ==> parts[tcount].is_seg(
        spec_context_color(l.percentage_hundredths as int),
        zhipu_mcp_text(l.percentage_hundredths),
    ))
}

/// The first provider.
pub struct ZhipuProvider;

impl ZhipuProvider {
    fn limit_segment(l: &QuotaLimit, label: &str) -> (r: Segment)
        ensures
            r.is_seg(
                spec_context_color(l.percentage_hundredths as int),
                label@ + dec_str(rounded_percent(l.percentage_hundredths as int) as nat) + "%"@,
            ),
    {
        let color = get_context_color(l.percentage_hundredths);
        let pct = round_percent(l.percentage_hundredths);
        let text = String::from_str(label).concat(u64_to_string(pct).as_str()).concat("%");
        proof {
            assert(text@ =~= label@ + dec_str(
                rounded_percent(l.percentage_hundredths as int) as nat,
            ) + "%"@);
        }
        Segment { color, text }
    }
}

impl Provider for ZhipuProvider {
    open spec fn spec_name(&self) -> Seq<char> {
        "zhipu"@
    }

    open spec fn spec_matches(&self, base_url: Seq<char>) -> bool {
        zhipu_matches(base_url)
    }

    open spec fn parts_ok(&self, usage: &UsageSnapshot, parts: Seq<Segment>) -> bool {
        match usage {
            UsageSnapshot::Zhipu(z) => zhipu_parts_ok(z, parts),
            UsageSnapshot::Yunyi(_) => parts.len() == 0,
        }
    }

    fn name(&self) -> (r: &'static str) {
        "zhipu"
    }

    fn matches(&self, base_url: &str) -> (r: bool) {
        str_contains(base_url, "bigmodel.cn") || str_contains(base_url, "z.ai")
    }

    fn get_parts(&self, usage: &UsageSnapshot) -> (r: Vec<Segment>) {
        let mut parts: Vec<Segment> = Vec::new();
        match usage {
            UsageSnapshot::Zhipu(z) => {
                if let Some(l) = &z.token_limit {
                    parts.push(Self::limit_segment(l, "[ZAI] Token(5h):"));
                }
                if let Some(l) = &z.mcp_limit {
                    parts.push(Self::limit_segment(l, "[ZAI] MCP(1月):"));
                }
            },
            UsageSnapshot::Yunyi(_) => {},
        }
        parts
    }
}

/// The remaining-balance segment text of the second provider: the floored
/// remainder in minor units, written as currency with two decimals.
pub open spec fn yunyi_rem_text(remaining: int) -> Seq<char> {
    "[YUNYI] Rem:$"@ + dec_str((remaining / 100) as nat) + "."@ + pad2_str(remaining % 100)
}

/// The expiry segment text of the second provider.
pub open spec fn yunyi_exp_text(s: Seq<char>) -> Seq<char> {
    "[YUNYI] Exp:"@ + spec_expiry_text(s)
}

/// The segments the second provider renders: a remaining balance when the
/// snapshot holds a quota and a total spent, then the expiry when one is
/// stored, dimmed.
pub open spec fn yunyi_parts_ok(y: &YunyiUsageCache, parts: Seq<Segment>) -> bool {
    let has_money = y.daily_quota is Some && y.daily_total_spent is Some;
    let mcount: int = if has_money {
        1
    } else {
        0
    };
    let ecount: int = if y.expires_at is Some {
        1
    } else {
        0
    };
    &&& parts.len() == mcount + ecount
    &&& (has_money ==> {
        let quota = y.daily_quota.unwrap() as int;
        let rem = spec_remaining(quota, y.daily_total_spent.unwrap() as int);
        parts[0].is_seg(spec_remaining_color(rem, quota), yunyi_rem_text(rem))
    })
    &&& (y.expires_at matches Some(e) ==> parts[mcount].is_seg(Color::Dim, yunyi_exp_text(e@)))
}

/// The second provider.
pub struct YunyiProvider;

impl Provider for YunyiProvider {
    open spec fn spec_name(&self) -> Seq<char> {
        "yunyi"@
    }

    open spec fn spec_matches(&self, base_url: Seq<char>) -> bool {
        yunyi_matches(base_url)
    }

    open spec fn parts_ok(&self, usage: &UsageSnapshot, parts: Seq<Segment>) -> bool {
        match usage {
            UsageSnapshot::Zhipu(_) => parts.len() == 0,
            UsageSnapshot::Yunyi(y) => yunyi_parts_ok(y, parts),
        }
    }

    fn name(&self) -> (r: &'static str) {
        "yunyi"
    }

    fn matches(&self, base_url: &str) -> (r: bool) {
        str_contains(base_url, "yunyi.rdzhvip.com") || str_contains(base_url, "yunyi.cfd")
    }

    fn get_parts(&self, usage: &UsageSnapshot) -> (r: Vec<Segment>) {
        let mut parts: Vec<Segment> = Vec::new();
        match usage {
            UsageSnapshot::Zhipu(_) => {},
            UsageSnapshot::Yunyi(y) => {
                if y.daily_quota.is_some() && y.daily_total_spent.is_some() {
                    let quota = y.daily_quota.unwrap();
                    let total_spent = y.daily_total_spent.unwrap();
                    let rem = remaining_balance(quota, total_spent);
                    let color = balance_color(rem, quota);
                    let text = String::from_str("[YUNYI] Rem:$").concat(
                        u64_to_string(rem / 100).as_str(),
                    ).concat(".").concat(pad2(rem % 100).as_str());
                    proof {
                        assert(text@ =~= yunyi_rem_text(rem as int));
                    }
                    parts.push(Segment { color, text });
                }
                if let Some(e) = &y.expires_at {
                    let formatted = format_expiry(e.as_str());
                    let text = String::from_str("[YUNYI] Exp:").concat(formatted.as_str());
                    proof {
                        assert(text@ =~= yunyi_exp_text(e@));
                    }
                    parts.push(Segment { color: Color::Dim, text });
                }
            },
        }
        parts
    }
}

/// The registry: every provider, in dispatch order.
pub fn providers() -> (r: Vec<ProviderKind>)
    ensures
        r@ =~= seq![ProviderKind::Zhipu, ProviderKind::Yunyi],
{
    let mut v: Vec<ProviderKind> = Vec::new();
    v.push(ProviderKind::Zhipu);
    v.push(ProviderKind::Yunyi);
    v
}

/// Selects the provider that serves an endpoint: the first of the
/// registry whose match predicate accepts it, or none.
pub fn select_provider(endpoint: &str) -> (r: Option<ProviderKind>)
    ensures
        r == spec_select(endpoint@),
{
    let zhipu = ZhipuProvider;
    let yunyi = YunyiProvider;
    if zhipu.matches(endpoint) {
        Some(ProviderKind::Zhipu)
    } else if yunyi.matches(endpoint) {
        Some(ProviderKind::Yunyi)
    } else {
        None
    }
}

/// Selection is order-deterministic: an endpoint the first provider of
/// the registry matches always selects that provider, whether or not a
/// later provider's predicate would also accept it.
pub proof fn lemma_select_order_deterministic(e: Seq<char>)
    ensures
        zhipu_matches(e) ==> spec_select(e) == Some(ProviderKind::Zhipu),
        !zhipu_matches(e) && yunyi_matches(e) ==> spec_select(e) == Some(ProviderKind::Yunyi),
        !zhipu_matches(e) && !yunyi_matches(e) ==> spec_select(e) is None,
{
}

/// The provider a snapshot belongs to.
pub open spec fn snapshot_kind(s: &UsageSnapshot) -> ProviderKind {
    match s {
        UsageSnapshot::Zhipu(_) => ProviderKind::Zhipu,
        UsageSnapshot::Yunyi(_) => ProviderKind::Yunyi,
    }
}

/// The provider a snapshot belongs to.
pub fn snapshot_provider(s: &UsageSnapshot) -> (r: ProviderKind)
    ensures
        r == snapshot_kind(s),
{
    match s {
        UsageSnapshot::Zhipu(_) => ProviderKind::Zhipu,
        UsageSnapshot::Yunyi(_) => ProviderKind::Yunyi,
    }
}

/// What the enrichment pass does next: nothing (no provider claims the
/// endpoint), render a still-fresh cached snapshot, or fetch from the
/// selected provider.
pub enum EnrichmentPlan {
    NoProvider,
    UseCached(ProviderKind, UsageSnapshot),
    Fetch(ProviderKind),
}

/// The enrichment decision for an endpoint, a stored cache entry and the
/// current time: no provider means no work at all; a fresh snapshot of
/// the selected provider is used as it stands; anything else means a
/// fetch.
pub open spec fn spec_plan(e: Seq<char>, cached: Option<UsageSnapshot>, now: int) -> EnrichmentPlan {
    match spec_select(e) {
        None => EnrichmentPlan::NoProvider,
        Some(p) => match cached {
            Some(s) => if snapshot_kind(&s) == p && fresh_at(s.spec_timestamp() as int, now) {
                EnrichmentPlan::UseCached(p, s)
            } else {
                EnrichmentPlan::Fetch(p)
            },
            None => EnrichmentPlan::Fetch(p),
        },
    }
}

/// Decides the enrichment step for an endpoint, the cache entry that was
/// read for it, and the current epoch second.
pub fn plan_enrichment(endpoint: &str, cached: Option<UsageSnapshot>, now: i64) -> (r:
    EnrichmentPlan)
    ensures
        r == spec_plan(endpoint@, cached, now as int),
{
    match select_provider(endpoint) {
        None => EnrichmentPlan::NoProvider,
        Some(p) => match cached {
            Some(s) => {
                let k = snapshot_provider(&s);
                let ts = s.timestamp();
                if k == p && cache_is_fresh(ts, now) {
                    EnrichmentPlan::UseCached(p, s)
                } else {
                    EnrichmentPlan::Fetch(p)
                }
            },
            None => EnrichmentPlan::Fetch(p),
        },
    }
}

/// Renders a snapshot with the named provider's renderer; the segments
/// are exactly what that provider's rendering contract says.
pub fn render_segments(kind: ProviderKind, usage: &UsageSnapshot) -> (r: Vec<Segment>)
    ensures
        kind is Zhipu ==> (ZhipuProvider).parts_ok(usage, r@),
        kind is Yunyi ==> (YunyiProvider).parts_ok(usage, r@),
{
    match kind {
        ProviderKind::Zhipu => ZhipuProvider.get_parts(usage),
        ProviderKind::Yunyi => YunyiProvider.get_parts(usage),
    }
}

/// An endpoint that no provider claims plans no enrichment at all — in
/// particular, never a fetch.
pub proof fn lemma_no_provider_no_fetch(e: Seq<char>, cached: Option<UsageSnapshot>, now: int)
    requires
        spec_select(e) is None,
    ensures
        spec_plan(e, cached, now) is NoProvider,
{
}

/// A still-fresh cached snapshot of the selected provider is rendered as
/// it stands: the plan is never a fetch.
pub proof fn lemma_fresh_cache_never_fetched(e: Seq<char>, s: UsageSnapshot, now: int)
    requires
        spec_select(e) == Some(snapshot_kind(&s)),
        fresh_at(s.spec_timestamp() as int, now),
    ensures
        spec_plan(e, Some(s), now) == EnrichmentPlan::UseCached(snapshot_kind(&s), s),
{
}

} // verus!
