//! Timestamp rendering: an absolute label for message dates and a relative
//! label for sync times.

use vstd::prelude::*;

use crate::numfmt::{dec_digits, u64_to_chars};
use crate::text::{chars_to_string, str_to_chars};
use crate::types::AccountSyncStatus;

verus! {

/// What the date formatter returns for a timestamp: the "%b %d, %Y at %H:%M"
/// rendering of the UTC time, a function of the timestamp alone; empty when
/// the timestamp lies outside the formatter's range.
pub uninterp spec fn datetime_label(epoch: int) -> Seq<char>;

/// Relies on chrono's `DateTime::from_timestamp` and `format`: the
/// "%b %d, %Y at %H:%M" rendering of the UTC time, a function of the
/// timestamp alone; an out-of-range timestamp renders as empty.
#[verifier::external_body]
pub fn format_datetime(epoch: i64) -> (r: String)
    ensures
        r@ == datetime_label(epoch as int),
{
    match chrono::DateTime::from_timestamp(epoch, 0) {
        Some(dt) => dt.format("%b %d, %Y at %H:%M").to_string(),
        None => String::new(),
    }
}

/// What the timestamp parser returns: the Unix time of an RFC 3339 string,
/// or nothing when the string does not parse.
pub uninterp spec fn rfc3339_epoch(s: Seq<char>) -> Option<int>;

/// Relies on chrono's `DateTime::parse_from_rfc3339` and `timestamp`: the
/// Unix time a well-formed RFC 3339 string denotes. chrono's date range
/// bounds the result to within about 262000 years of the epoch.
#[verifier::external_body]
pub fn parse_rfc3339(s: &str) -> (r: Option<i64>)
    ensures
        match r {
            Some(t) => rfc3339_epoch(s@) == Some(t as int) && -9_000_000_000_000 <= t
                <= 9_000_000_000_000,
            None => rfc3339_epoch(s@) matches Option::None,
        },
{
    match chrono::DateTime::parse_from_rfc3339(s) {
        Ok(dt) => Some(dt.timestamp()),
        Err(_) => None,
    }
}

/// A relative age label: "just now" under a minute, then whole minutes,
/// hours, or days.
pub open spec fn relative_label(now: int, then: int) -> Seq<char> {
    let elapsed = now - then;
    if elapsed < 60 {
        "just now"@
    } else if elapsed < 3600 {
        dec_digits((elapsed / 60) as nat) + "m ago"@
    } else if elapsed < 86400 {
        dec_digits((elapsed / 3600) as nat) + "h ago"@
    } else {
        dec_digits((elapsed / 86400) as nat) + "d ago"@
    }
}

/// A friendly rendering of an RFC 3339 timestamp relative to `now` (a Unix
/// time): a relative age when the string parses, its first sixteen
/// characters otherwise.
pub open spec fn friendly_label(ts: Seq<char>, now: int) -> Seq<char> {
    match rfc3339_epoch(ts) {
        Option::Some(then) => relative_label(now, then),
        Option::None => if ts.len() <= 16 {
            ts
        } else {
            ts.take(16)
        },
    }
}

/// Render a timestamp string as a friendly age relative to `now`.
pub fn friendly_timestamp(ts: &str, now: i64) -> (r: String)
    requires
        -1_000_000_000_000_000 <= now <= 1_000_000_000_000_000,
    ensures
        r@ == friendly_label(ts@, now as int),
{
    match parse_rfc3339(ts) {
        Some(then) => {
            let elapsed: i64 = now - then;
            if elapsed < 60 {
                "just now".to_owned()
            } else if elapsed < 3600 {
                let m = u64_to_chars((elapsed / 60) as u64);
                let len = m.len();
                chars_to_string(&m, 0, len).concat("m ago")
            } else if elapsed < 86400 {
                let h = u64_to_chars((elapsed / 3600) as u64);
                let len = h.len();
                chars_to_string(&h, 0, len).concat("h ago")
            } else {
                let d = u64_to_chars((elapsed / 86400) as u64);
                let len = d.len();
                chars_to_string(&d, 0, len).concat("d ago")
            }
        },
        None => {
            let chars = str_to_chars(ts);
            if chars.len() <= 16 {
                ts.to_owned()
            } else {
                let r = chars_to_string(&chars, 0, 16);
                proof {
                    assert(ts@.take(16) =~= chars@.subrange(0, 16));
                }
                r
            }
        },
    }
}

/// Whether one string reads at or before another in code-point order.
pub open spec fn lex_le(a: Seq<char>, b: Seq<char>) -> bool
    decreases a.len(),
{
    if a.len() == 0 {
        true
    } else if b.len() == 0 {
        false
    } else if (a[0] as u32) < (b[0] as u32) {
        true
    } else if (a[0] as u32) > (b[0] as u32) {
        false
    } else {
        lex_le(a.drop_first(), b.drop_first())
    }
}

fn str_lex_le(a: &str, b: &str) -> (r: bool)
    ensures
        r == lex_le(a@, b@),
{
    let av = str_to_chars(a);
    let bv = str_to_chars(b);
    let mut i: usize = 0;
    proof {
        assert(av@.skip(0) =~= av@);
        assert(bv@.skip(0) =~= bv@);
    }
    #[verifier::loop_isolation(false)]
    loop
        invariant
            i <= av@.len(),
            i <= bv@.len(),
            lex_le(a@, b@) == lex_le(av@.skip(i as int), bv@.skip(i as int)),
        decreases av@.len() - i,
    {
        proof {
            assert(av@.skip(i as int).len() == av@.len() - i);
            assert(bv@.skip(i as int).len() == bv@.len() - i);
        }
        if i >= av.len() {
            return true;
        }
        if i >= bv.len() {
            return false;
        }
        let ca = av[i];
        let cb = bv[i];
        proof {
            assert(av@.skip(i as int)[0] == av@[i as int]);
            assert(bv@.skip(i as int)[0] == bv@[i as int]);
            assert(av@.skip(i as int).drop_first() =~= av@.skip(i + 1));
            assert(bv@.skip(i as int).drop_first() =~= bv@.skip(i + 1));
        }
        if (ca as u32) < (cb as u32) {
            return true;
        }
        if (ca as u32) > (cb as u32) {
            return false;
        }
        i = i + 1;
    }
}

/// The latest recorded sync time across the accounts, in string order.
pub open spec fn latest_sync(accounts: Seq<AccountSyncStatus>) -> Option<Seq<char>>
    decreases accounts.len(),
{
    if accounts.len() == 0 {
        Option::None
    } else {
        let rest = latest_sync(accounts.drop_last());
        match accounts.last().last_sync_at {
            Option::Some(ts) => match rest {
                Option::Some(best) => if lex_le(best, ts@) {
                    Option::Some(ts@)
                } else {
                    Option::Some(best)
                },
                Option::None => Option::Some(ts@),
            },
            Option::None => rest,
        }
    }
}

/// A human-readable label for the most recent sync across the accounts,
/// relative to `now` (a Unix time).
pub open spec fn sync_label(accounts: Seq<AccountSyncStatus>, now: int) -> Seq<char> {
    match latest_sync(accounts) {
        Option::Some(ts) => "Last sync: "@ + friendly_label(ts, now),
        Option::None => "No sync history"@,
    }
}

/// Derive the "last sync" label from the most recent account sync time.
#[verifier::loop_isolation(false)]
pub fn most_recent_sync_label(accounts: &Vec<AccountSyncStatus>, now: i64) -> (r: String)
    requires
        -1_000_000_000_000_000 <= now <= 1_000_000_000_000_000,
    ensures
        r@ == sync_label(accounts@, now as int),
{
    let mut best: Option<String> = None;
    let mut i: usize = 0;
    while i < accounts.len()
        invariant
            i <= accounts@.len(),
            opt_text(best) == latest_sync(accounts@.take(i as int)),
        decreases accounts@.len() - i,
    {
        proof {
            assert(accounts@.take(i + 1).last() == accounts@[i as int]);
            assert(accounts@.take(i + 1).drop_last() =~= accounts@.take(i as int));
        }
        match &accounts[i].last_sync_at {
            Some(ts) => {
                let better = match &best {
                    Some(b) => str_lex_le(b.as_str(), ts.as_str()),
                    None => true,
                };
                if better {
                    best = Some(ts.clone());
                }
            },
            None => {},
        }
        i = i + 1;
    }
    proof {
        assert(accounts@.take(accounts@.len() as int) =~= accounts@);
    }
    match best {
        Some(ts) => "Last sync: ".to_owned().concat(friendly_timestamp(ts.as_str(), now).as_str()),
        None => "No sync history".to_owned(),
    }
}

/// The contents view of an optional string.
pub open spec fn opt_text(o: Option<String>) -> Option<Seq<char>> {
    match o {
        Option::Some(s) => Option::Some(s@),
        Option::None => Option::None,
    }
}

} // verus!
