//! Human-readable age of a Unix timestamp ("5 мин назад").
use vstd::prelude::*;
use crate::decimal::{append_decimal, decimal_digits, decimal_string};
use crate::clock::unix_seconds_now;

verus! {

/// The text for `secs` seen at `now`: the raw number when the clock could
/// not be read, "будущее" for a time after `now`, else the elapsed time in
/// the largest whole unit among seconds, minutes, hours and days, truncated.
pub open spec fn age_text(secs: u64, now: Option<u64>) -> Seq<char> {
    match now {
        None => decimal_digits(secs as nat),
        Some(n) => if secs > n {
            "будущее"@
        } else {
            let diff: nat = (n - secs) as nat;
            if diff < 60 {
                decimal_digits(diff) + " сек назад"@
            } else if diff < 3600 {
                decimal_digits(diff / 60) + " мин назад"@
            } else if diff < 86400 {
                decimal_digits(diff / 3600) + " ч назад"@
            } else {
                decimal_digits(diff / 86400) + " дн назад"@
            }
        },
    }
}

/// The age of `secs` seen at `now`.
pub fn describe_age(secs: u64, now: Option<u64>) -> (s: String)
    ensures
        s@ == age_text(secs, now),
{
    match now {
        None => decimal_string(secs),
        Some(n) => {
            if secs > n {
                return String::from_str("будущее");
            }
            let diff = n - secs;
            let mut s = String::new();
            if diff < 60 {
                append_decimal(&mut s, diff);
                s.append(" сек назад");
            } else if diff < 3600 {
                append_decimal(&mut s, diff / 60);
                s.append(" мин назад");
            } else if diff < 86400 {
                append_decimal(&mut s, diff / 3600);
                s.append(" ч назад");
            } else {
                append_decimal(&mut s, diff / 86400);
                s.append(" дн назад");
            }
            s
        },
    }
}

/// The age of `secs` as of the current wall clock.
pub fn format_timestamp(secs: u64) -> (s: String)
    ensures
        exists|now: Option<u64>| s@ == age_text(secs, now),
{
    let now = unix_seconds_now();
    describe_age(secs, now)
}

} // verus!
