//! Which phase a launch of the tool runs.
use vstd::prelude::*;
use crate::reboot::{flag_is_set, flag_value_set};

verus! {

/// How the tool was started.
#[derive(Clone, Copy, Debug, PartialEq, Eq, Structural)]
pub enum LaunchMode {
    /// The continuation flag is set and a reboot has been confirmed.
    ResumeAfterReboot,
    /// The continuation flag is set, but no reboot happened since it was set.
    StaleMarker,
    /// No continuation flag: the first phase starts.
    FirstRun,
}

/// The mode of a launch, from whether the continuation flag holds "1"
/// and whether a reboot was confirmed.
pub open spec fn launch_mode_of(flag_set: bool, was_reboot: bool) -> LaunchMode {
    if flag_set && was_reboot {
        LaunchMode::ResumeAfterReboot
    } else if flag_set {
        LaunchMode::StaleMarker
    } else {
        LaunchMode::FirstRun
    }
}

/// Chooses the launch mode from the continuation flag variable's value
/// (set when it is exactly "1") and whether a reboot was confirmed.
pub fn decide_launch(after_reboot_var: &Option<String>, was_reboot: bool) -> (mode: LaunchMode)
    ensures
        mode == launch_mode_of(flag_value_set(*after_reboot_var), was_reboot),
{
    let flag_set = flag_is_set(after_reboot_var);
    if flag_set && was_reboot {
        LaunchMode::ResumeAfterReboot
    } else if flag_set {
        LaunchMode::StaleMarker
    } else {
        LaunchMode::FirstRun
    }
}

impl LaunchMode {
    /// The flags and the RunOnce entry are removed before the phase runs:
    /// whenever the continuation flag was found set.
    pub fn cleans_flags_first(&self) -> (b: bool)
        ensures
            b == !(*self is FirstRun),
    {
        !matches!(self, LaunchMode::FirstRun)
    }

    /// The second phase runs; otherwise the first does.
    pub fn runs_second_phase(&self) -> (b: bool)
        ensures
            b == (*self is ResumeAfterReboot),
    {
        matches!(self, LaunchMode::ResumeAfterReboot)
    }
}

/// The second phase runs only when the continuation flag is set and a
/// reboot was confirmed, and the flags are cleaned exactly when the flag is set.
pub proof fn lemma_second_phase_needs_reboot(flag_set: bool, was_reboot: bool)
    ensures
        launch_mode_of(flag_set, was_reboot) is ResumeAfterReboot <==> (flag_set && was_reboot),
        !(launch_mode_of(flag_set, was_reboot) is FirstRun) <==> flag_set,
{
}

} // verus!
