//! Choosing which processes to stop, and when to stop waiting for them.
use vstd::prelude::*;

verus! {

/// A running process as a snapshot lists it.
#[derive(Clone, Debug, PartialEq, Eq)]
pub struct ProcessEntry {
    pub pid: u32,
    pub name: String,
}

/// The ids of the listed processes named `name`, in listing order.
pub open spec fn pids_named(ps: Seq<ProcessEntry>, name: Seq<char>) -> Seq<u32>
    decreases ps.len(),
{
    if ps.len() == 0 {
        Seq::empty()
    } else {
        let rest = pids_named(ps.drop_last(), name);
        if ps.last().name@ == name {
            rest.push(ps.last().pid)
        } else {
            rest
        }
    }
}

/// Some listed process is named `name`.
pub open spec fn lists_name(ps: Seq<ProcessEntry>, name: Seq<char>) -> bool {
    exists|i: int| 0 <= i < ps.len() && (#[trigger] ps[i]).name@ == name
}

/// The ids of the processes in `ps` named exactly `name`, in listing order.
pub fn matching_pids(ps: &Vec<ProcessEntry>, name: &String) -> (r: Vec<u32>)
    ensures
        r@ == pids_named(ps@, name@),
{
    let mut r: Vec<u32> = Vec::new();
    let mut i: usize = 0;
    while i < ps.len()
        invariant
            i <= ps.len(),
            r@ == pids_named(ps@.take(i as int), name@),
        decreases ps.len() - i,
    {
        assert(ps@.take(i + 1).drop_last() =~= ps@.take(i as int));
        if ps[i].name == *name {
            r.push(ps[i].pid);
        }
        i = i + 1;
    }
    assert(ps@.take(ps.len() as int) =~= ps@);
    r
}

/// How many processes in `ps` are named exactly `name`.
pub fn count_matching(ps: &Vec<ProcessEntry>, name: &String) -> (n: usize)
    ensures
        n == pids_named(ps@, name@).len(),
{
    matching_pids(ps, name).len()
}

/// Whether some process in `ps` is named exactly `name`.
pub fn is_running(ps: &Vec<ProcessEntry>, name: &String) -> (b: bool)
    ensures
        b == lists_name(ps@, name@),
{
    let mut i: usize = 0;
    while i < ps.len()
        invariant
            i <= ps.len(),
            forall|k: int| 0 <= k < i ==> (#[trigger] ps@[k]).name@ != name@,
        decreases ps.len() - i,
    {
        if ps[i].name == *name {
            assert(ps@[i as int].name@ == name@);
            return true;
        }
        i = i + 1;
    }
    false
}

/// What to do about the processes to stop.
#[derive(Clone, Debug, PartialEq, Eq)]
pub enum StopPlan {
    /// No such process runs.
    NotRunning,
    /// Signal each of these processes, in this order.
    Kill(Vec<u32>),
}

/// Plans the stop of every process named `name`: none to stop, or all of them.
pub fn plan_stop(ps: &Vec<ProcessEntry>, name: &String) -> (p: StopPlan)
    ensures
        match p {
            StopPlan::NotRunning => pids_named(ps@, name@).len() == 0,
            StopPlan::Kill(pids) => pids@ == pids_named(ps@, name@) && pids@.len() > 0,
        },
{
    let pids = matching_pids(ps, name);
    if pids.len() == 0 {
        StopPlan::NotRunning
    } else {
        StopPlan::Kill(pids)
    }
}

/// How many one-second rechecks the stop waits at most.
pub const STOP_WAIT_CHECKS: u32 = 30;

/// Every how many rechecks the progress is reported.
pub const STOP_REPORT_EVERY: u32 = 5;

/// How a recheck ends the wait, or not.
#[derive(Clone, Copy, Debug, PartialEq, Eq, Structural)]
pub enum WaitOutcome {
    /// No process is left; they stopped within `secs` seconds.
    Stopped { secs: u32 },
    /// Some are left and rechecks remain.
    KeepWaiting,
    /// Some are left after the last recheck.
    GaveUp,
}

/// The decision after a recheck.
#[derive(Clone, Copy, Debug, PartialEq, Eq, Structural)]
pub struct WaitStep {
    /// Report the progress (seconds waited and processes left) now.
    pub report: bool,
    pub outcome: WaitOutcome,
}

/// The decision after recheck number `check` (counted from 0, one second
/// apart) found `remaining` processes left.
pub fn wait_verdict(check: u32, remaining: usize) -> (w: WaitStep)
    requires
        check < STOP_WAIT_CHECKS,
    ensures
        w.report == (check % STOP_REPORT_EVERY == 0),
        w.outcome == (if remaining == 0 {
            WaitOutcome::Stopped { secs: (check + 1) as u32 }
        } else if check + 1 < STOP_WAIT_CHECKS {
            WaitOutcome::KeepWaiting
        } else {
            WaitOutcome::GaveUp
        }),
{
    let report = check % STOP_REPORT_EVERY == 0;
    let outcome = if remaining == 0 {
        WaitOutcome::Stopped { secs: check + 1 }
    } else if check + 1 < STOP_WAIT_CHECKS {
        WaitOutcome::KeepWaiting
    } else {
        WaitOutcome::GaveUp
    };
    WaitStep { report, outcome }
}

/// The number of `true` entries.
pub open spec fn count_true(s: Seq<bool>) -> nat
    decreases s.len(),
{
    if s.len() == 0 {
        0
    } else {
        count_true(s.drop_last()) + if s.last() { 1nat } else { 0nat }
    }
}

/// Tallies per-entry removal outcomes into (removed, failed).
pub fn count_removals(results: &Vec<bool>) -> (r: (usize, usize))
    ensures
        r.0 == count_true(results@),
        r.0 + r.1 == results@.len(),
{
    let mut ok: usize = 0;
    let mut failed: usize = 0;
    let mut i: usize = 0;
    while i < results.len()
        invariant
            i <= results.len(),
            ok == count_true(results@.take(i as int)),
            ok + failed == i,
        decreases results.len() - i,
    {
        assert(results@.take(i + 1).drop_last() =~= results@.take(i as int));
        if results[i] {
            ok = ok + 1;
        } else {
            failed = failed + 1;
        }
        i = i + 1;
    }
    assert(results@.take(results.len() as int) =~= results@);
    (ok, failed)
}

} // verus!
