//! Deciding whether the machine rebooted since the reboot marker was written.
use vstd::prelude::*;
use crate::decimal::{decimal_digits, lemma_decimal_round_trip, parse_u64, parse_u64_spec};
use crate::clock::{get_system_uptime, unix_seconds_now};

verus! {

/// An uptime under this many seconds counts as a fresh boot when only the
/// continuation flag is left.
pub const RECENT_BOOT_SECS: u64 = 300;

/// What the reboot check found.
#[derive(Clone, Copy, Debug, PartialEq, Eq, Structural)]
pub enum RebootEvidence {
    /// The machine booted after the marker was written.
    BootAfterMarker { saved: u64, boot: u64 },
    /// The machine has not booted since the marker was written.
    BootBeforeMarker { saved: u64, boot: u64 },
    /// No usable marker, the continuation flag is set and the uptime is short.
    RecentBoot { uptime: u64 },
    /// No usable marker, the continuation flag is set, the uptime is long.
    Unconfirmed,
    /// Neither a usable marker nor the continuation flag.
    NoMarker,
    /// The uptime exceeds the wall clock, so no boot time can be computed.
    ClockBehindUptime { now: u64, uptime: u64 },
}

impl RebootEvidence {
    /// The evidence shows a reboot.
    pub open spec fn shows_reboot(self) -> bool {
        self is BootAfterMarker || self is RecentBoot
    }

    /// Whether the evidence shows a reboot.
    pub fn confirms_reboot(&self) -> (b: bool)
        ensures
            b == self.shows_reboot(),
    {
        match self {
            RebootEvidence::BootAfterMarker { .. } => true,
            RebootEvidence::RecentBoot { .. } => true,
            _ => false,
        }
    }
}

/// The flag variable's value is exactly "1"; an absent variable is not set.
pub open spec fn flag_value_set(value: Option<String>) -> bool {
    value is Some && value->0@ == seq!['1']
}

/// Whether a flag variable's value is exactly "1" (an absent variable is not).
pub fn flag_is_set(value: &Option<String>) -> (b: bool)
    ensures
        b == flag_value_set(*value),
{
    match value {
        Some(v) => {
            let s = v.as_str();
            if s.unicode_len() == 1 {
                let c = s.get_char(0);
                if c == '1' {
                    assert(s@ =~= seq!['1']);
                    true
                } else {
                    false
                }
            } else {
                false
            }
        },
        None => false,
    }
}

/// The verdict from a marker written at `saved`, the uptime and the time now:
/// the boot time is `now - uptime`, and a boot later than the marker is a reboot.
pub fn reboot_by_marker(saved: u64, uptime: u64, now: u64) -> (r: RebootEvidence)
    requires
        uptime <= now,
    ensures
        r == (if now - uptime > saved {
            RebootEvidence::BootAfterMarker { saved, boot: (now - uptime) as u64 }
        } else {
            RebootEvidence::BootBeforeMarker { saved, boot: (now - uptime) as u64 }
        }),
{
    let boot = now - uptime;
    if boot > saved {
        RebootEvidence::BootAfterMarker { saved, boot }
    } else {
        RebootEvidence::BootBeforeMarker { saved, boot }
    }
}

/// The verdict without a usable marker: with the continuation flag set, an
/// uptime under `RECENT_BOOT_SECS` counts as a reboot.
pub open spec fn uptime_verdict(flag_set: bool, uptime: Result<u64, String>) -> RebootEvidence {
    if !flag_set {
        RebootEvidence::NoMarker
    } else {
        match uptime {
            Ok(u) => if u < RECENT_BOOT_SECS {
                RebootEvidence::RecentBoot { uptime: u }
            } else {
                RebootEvidence::Unconfirmed
            },
            Err(_) => RebootEvidence::Unconfirmed,
        }
    }
}

/// The verdict without a usable marker, as `uptime_verdict` gives it.
pub fn reboot_by_uptime(flag_set: bool, uptime: Result<u64, String>) -> (r: RebootEvidence)
    ensures
        r == uptime_verdict(flag_set, uptime),
{
    if !flag_set {
        return RebootEvidence::NoMarker;
    }
    match uptime {
        Ok(u) => if u < RECENT_BOOT_SECS {
            RebootEvidence::RecentBoot { uptime: u }
        } else {
            RebootEvidence::Unconfirmed
        },
        Err(_) => RebootEvidence::Unconfirmed,
    }
}

/// The marker's value, if the variable holds one.
pub open spec fn marker_value(timestamp_var: Option<String>) -> Option<u64> {
    match timestamp_var {
        Some(t) => parse_u64_spec(t@),
        None => None,
    }
}

/// The verdict from a readable marker `saved`, the uptime and a wall-clock
/// reading (an unreadable clock counts as 0): no boot time when the uptime
/// exceeds the clock, else the verdict of `reboot_by_marker`.
pub open spec fn clock_verdict(saved: u64, uptime: u64, now: Option<u64>) -> RebootEvidence {
    let n: u64 = match now {
        Some(v) => v,
        None => 0,
    };
    if uptime > n {
        RebootEvidence::ClockBehindUptime { now: n, uptime }
    } else if n - uptime > saved {
        RebootEvidence::BootAfterMarker { saved, boot: (n - uptime) as u64 }
    } else {
        RebootEvidence::BootBeforeMarker { saved, boot: (n - uptime) as u64 }
    }
}

/// The verdict from a readable marker, the uptime and a wall-clock reading.
pub fn reboot_by_clock(saved: u64, uptime: u64, now: Option<u64>) -> (r: RebootEvidence)
    ensures
        r == clock_verdict(saved, uptime, now),
{
    let n: u64 = match now {
        Some(v) => v,
        None => 0,
    };
    if uptime > n {
        RebootEvidence::ClockBehindUptime { now: n, uptime }
    } else {
        reboot_by_marker(saved, uptime, n)
    }
}

/// The verdict of the reboot check for given variable values, uptime and
/// wall-clock reading: a readable marker decides by the clocks, whatever
/// the flag; otherwise the flag and the uptime decide.
pub open spec fn reboot_verdict(
    timestamp_var: Option<String>,
    after_reboot_var: Option<String>,
    uptime: u64,
    now: Option<u64>,
) -> RebootEvidence {
    match marker_value(timestamp_var) {
        Some(saved) => clock_verdict(saved, uptime, now),
        None => uptime_verdict(flag_value_set(after_reboot_var), Ok(uptime)),
    }
}

/// Checks for a reboot from the values of the marker variable and the
/// continuation flag variable, reading the uptime and the wall clock.
/// The result is `reboot_verdict` for the readings taken: a readable marker
/// decides by the boot time; otherwise the flag and a short uptime do.
pub fn check_if_rebooted(timestamp_var: &Option<String>, after_reboot_var: &Option<String>) -> (r:
    RebootEvidence)
    ensures
        exists|uptime: u64, now: Option<u64>|
            r == #[trigger] reboot_verdict(*timestamp_var, *after_reboot_var, uptime, now),
        match marker_value(*timestamp_var) {
            Some(saved) => match r {
                RebootEvidence::BootAfterMarker { saved: s, boot } => s == saved && boot > saved,
                RebootEvidence::BootBeforeMarker { saved: s, boot } => s == saved && boot <= saved,
                RebootEvidence::ClockBehindUptime { now, uptime } => now < uptime,
                _ => false,
            },
            None => if flag_value_set(*after_reboot_var) {
                match r {
                    RebootEvidence::RecentBoot { uptime } => uptime < RECENT_BOOT_SECS,
                    RebootEvidence::Unconfirmed => true,
                    _ => false,
                }
            } else {
                r == RebootEvidence::NoMarker
            },
        },
{
    if let Some(ts) = timestamp_var {
        if let Some(saved) = parse_u64(ts.as_str()) {
            if let Ok(uptime) = get_system_uptime() {
                let now = unix_seconds_now();
                let r = reboot_by_clock(saved, uptime, now);
                assert(r == reboot_verdict(*timestamp_var, *after_reboot_var, uptime, now));
                return r;
            }
        }
    }
    let flag = flag_is_set(after_reboot_var);
    if flag {
        let up = get_system_uptime();
        let ghost seen = up;
        let r = reboot_by_uptime(true, up);
        proof {
            let u = seen->Ok_0;
            assert(r == reboot_verdict(*timestamp_var, *after_reboot_var, u, None));
        }
        r
    } else {
        assert(RebootEvidence::NoMarker == reboot_verdict(
            *timestamp_var,
            *after_reboot_var,
            0,
            None,
        ));
        RebootEvidence::NoMarker
    }
}

/// A readable marker takes precedence over the continuation flag: for the
/// same readings, the verdict does not depend on the flag's value.
pub proof fn lemma_marker_takes_precedence(
    timestamp_var: Option<String>,
    flag_a: Option<String>,
    flag_b: Option<String>,
    uptime: u64,
    now: Option<u64>,
)
    requires
        marker_value(timestamp_var) is Some,
    ensures
        reboot_verdict(timestamp_var, flag_a, uptime, now) == reboot_verdict(
            timestamp_var,
            flag_b,
            uptime,
            now,
        ),
{
}

/// A marker variable holding the decimal text of `t`, as the first phase
/// writes it, is read as `t`.
pub proof fn lemma_marker_text_read_back(t: u64, text: String)
    requires
        text@ == decimal_digits(t as nat),
    ensures
        marker_value(Some(text)) == Some(t),
{
    lemma_decimal_round_trip(t);
}

} // verus!
