use vstd::prelude::*;
use vstd::string::StrSliceExecFns;
use vstd::string::StringExecFns;
use chrono::Datelike;
use chrono::Timelike;
use crate::text::pad2;
use crate::text::pad2_str;

verus! {

/// The expiry timestamps are shown in a fixed zone eight hours east of
/// UTC.
pub const EAST8_OFFSET_SECONDS: i64 = 28800;

/// The epoch second an RFC 3339 timestamp string denotes, or nothing
/// where the string is not a valid RFC 3339 date-and-time. Which strings
/// parse is the `chrono` crate's affair; only the outcome is named here.
pub uninterp spec fn rfc3339_epoch(s: Seq<char>) -> Option<i64>;

/// Relies on chrono::DateTime::parse_from_rfc3339 and DateTime::timestamp:
/// parses an RFC 3339 date-and-time string and reads it as an epoch second
/// count. The outcome depends on the input string alone.
#[verifier::external_body]
fn parse_rfc3339_epoch(s: &str) -> (r: Option<i64>)
    ensures
        r == rfc3339_epoch(s@),
{
    match chrono::DateTime::parse_from_rfc3339(s) {
        Ok(dt) => Some(dt.timestamp()),
        Err(_) => None,
    }
}

/// The civil UTC reading (month, day, hour, minute) of an epoch second
/// count, or nothing where it lies outside the representable date range.
pub uninterp spec fn utc_civil(secs: i64) -> Option<(u32, u32, u32, u32)>;

/// Relies on chrono::DateTime::from_timestamp and the Datelike/Timelike
/// accessors month, day, hour and minute: reads an epoch second count as
/// a civil UTC date and time. from_timestamp yields None only out of
/// range; month lies in 1..=12, day in 1..=31, hour below 24 and minute
/// below 60, as chrono documents. The outcome depends on the argument
/// alone.
#[verifier::external_body]
fn utc_fields(secs: i64) -> (r: Option<(u32, u32, u32, u32)>)
    ensures
        r == utc_civil(secs),
        r matches Some(f) ==> 1 <= f.0 <= 12 && 1 <= f.1 <= 31 && f.2 < 24 && f.3 < 60,
{
    match chrono::DateTime::from_timestamp(secs, 0) {
        Some(dt) => Some((dt.month(), dt.day(), dt.hour(), dt.minute())),
        None => None,
    }
}

/// Civil fields written as `MM-DD HH:MM`, every part zero-padded to two
/// digits.
pub open spec fn md_hm_text(f: (u32, u32, u32, u32)) -> Seq<char> {
    pad2_str(f.0 as int) + "-"@ + pad2_str(f.1 as int) + " "@ + pad2_str(f.2 as int) + ":"@
        + pad2_str(f.3 as int)
}

/// What the expiry column shows for a stored expiry string: the timestamp
/// reformatted as `MM-DD HH:MM` in the fixed +8 hour zone, or the string
/// as it stands wherever reformatting fails.
pub open spec fn spec_expiry_text(s: Seq<char>) -> Seq<char> {
    match rfc3339_epoch(s) {
        None => s,
        Some(t) => if t + EAST8_OFFSET_SECONDS > i64::MAX {
            s
        } else {
            match utc_civil((t + EAST8_OFFSET_SECONDS) as i64) {
                None => s,
                Some(f) => md_hm_text(f),
            }
        },
    }
}

/// Reformats a stored RFC 3339 expiry string into `MM-DD HH:MM` in the
/// fixed +8 hour zone, handing the string back unchanged wherever parsing
/// or the calendar conversion fails.
pub fn format_expiry(expires_at: &str) -> (r: String)
    ensures
        r@ == spec_expiry_text(expires_at@),
{
    match parse_rfc3339_epoch(expires_at) {
        None => expires_at.to_owned(),
        Some(t) => {
            match t.checked_add(EAST8_OFFSET_SECONDS) {
                None => expires_at.to_owned(),
                Some(shifted) => {
                    match utc_fields(shifted) {
                        None => expires_at.to_owned(),
                        Some((month, day, hour, minute)) => {
                            let r = pad2(month as u64).concat("-").concat(
                                pad2(day as u64).as_str(),
                            ).concat(" ").concat(pad2(hour as u64).as_str()).concat(":").concat(
                                pad2(minute as u64).as_str(),
                            );
                            proof {
                                assert(r@ =~= md_hm_text((month, day, hour, minute)));
                            }
                            r
                        },
                    }
                },
            }
        },
    }
}

} // verus!
