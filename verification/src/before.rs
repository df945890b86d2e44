//! The first phase: remove the old licence manager, arm the continuation
//! flags and the reboot marker, then reboot.
use vstd::prelude::*;
use crate::decimal::{decimal_digits, decimal_string, lemma_decimal_round_trip, parse_u64_spec};
use crate::process::{count_removals, count_true};
use crate::script::{
    directs, exit_code_of, exit_code_or_minus_one, runonce_command, runonce_text, Directive,
    Event, Note, Op, Target, REBOOT_COUNTDOWN_SECS,
};

verus! {

/// Where the first phase stands: the operation it waits on the answer of.
#[derive(Clone, Copy, Debug, PartialEq, Eq, Structural)]
pub enum BeforeStep {
    StoppingProcess,
    ProbingUninstaller,
    RunningUninstaller,
    ProbingFolder,
    RemovingFolder,
    RecreatingFolder,
    ClearingFolder,
    CreatingFolder,
    ReadingTemp,
    ClearingTemp,
    SettingFlag,
    ReadingClock,
    /// The marker `timestamp` is being written.
    SettingTimestamp { timestamp: u64 },
    LocatingExecutable,
    RegisteringRunOnce,
    /// `left` seconds are being shown before the reboot.
    CountingDown { left: u32 },
    Rebooting,
    CleaningUp,
    WaitingForEnter,
    Finished,
}

/// The state of the first phase.
#[derive(Clone, Copy, Debug, PartialEq, Eq, Structural)]
pub struct BeforeReboot {
    pub step: BeforeStep,
    /// The reboot marker once it is written.
    pub marker: Option<u64>,
}

/// The answer the first phase expects at `step`.
pub open spec fn before_accepts(step: BeforeStep, e: Event) -> bool {
    match step {
        BeforeStep::StoppingProcess => e is Done,
        BeforeStep::ProbingUninstaller => e is Exists,
        BeforeStep::RunningUninstaller => e is Exited || e is Failed,
        BeforeStep::ProbingFolder => e is Exists,
        BeforeStep::RemovingFolder => e is Done || e is Failed,
        BeforeStep::RecreatingFolder => e is Done || e is Failed,
        BeforeStep::ClearingFolder => e is Removed,
        BeforeStep::CreatingFolder => e is Done || e is Failed,
        BeforeStep::ReadingTemp => e is TempVar,
        BeforeStep::ClearingTemp => e is Removed,
        BeforeStep::SettingFlag => e is Done,
        BeforeStep::ReadingClock => e is Clock,
        BeforeStep::SettingTimestamp { .. } => e is Done,
        BeforeStep::LocatingExecutable => e is Executable,
        BeforeStep::RegisteringRunOnce => e is Done,
        BeforeStep::CountingDown { .. } => e is Done,
        BeforeStep::Rebooting => e is Done || e is Failed,
        BeforeStep::CleaningUp => e is Done,
        BeforeStep::WaitingForEnter => e is Done,
        BeforeStep::Finished => false,
    }
}

/// The notes on the outcome of clearing the temporary folder.
pub open spec fn temp_notes(outcomes: Seq<bool>) -> Seq<Note> {
    let deleted = count_true(outcomes);
    let errors = outcomes.len() - deleted;
    let report = seq![Note::TempCleared { deleted: deleted as usize, errors: errors as usize }];
    if errors > 0 {
        report.push(Note::TempBusy)
    } else {
        report
    }
}

/// One step of the first phase: from state `s` and answer `e` to state `t`
/// and directive `d`.
pub open spec fn before_next(s: BeforeReboot, e: Event, t: BeforeReboot, d: Directive) -> bool {
    let m = s.marker;
    let at = |step: BeforeStep| BeforeReboot { step, marker: m };
    match s.step {
        BeforeStep::StoppingProcess => t == at(BeforeStep::ProbingUninstaller) && directs(
            d,
            seq![],
            Op::CheckExists(Target::Uninstaller),
        ),
        BeforeStep::ProbingUninstaller => match e {
            Event::Exists(true) => t == at(BeforeStep::RunningUninstaller) && directs(
                d,
                seq![],
                Op::RunProgram(Target::Uninstaller),
            ),
            _ => t == at(BeforeStep::ProbingFolder) && directs(
                d,
                seq![Note::UninstallerMissing],
                Op::CheckExists(Target::NlmFolder),
            ),
        },
        BeforeStep::RunningUninstaller => match e {
            Event::Exited { code, success } => t == at(BeforeStep::ProbingFolder) && directs(
                d,
                seq![Note::UninstallerExited { code: exit_code_or_minus_one(code), success }],
                Op::CheckExists(Target::NlmFolder),
            ),
            Event::Failed(msg) => t == at(BeforeStep::ProbingFolder) && directs(
                d,
                seq![Note::UninstallerFailedToStart(msg)],
                Op::CheckExists(Target::NlmFolder),
            ),
            _ => false,
        },
        BeforeStep::ProbingFolder => match e {
            Event::Exists(true) => t == at(BeforeStep::RemovingFolder) && directs(
                d,
                seq![],
                Op::RemoveDirAll(Target::NlmFolder),
            ),
            _ => t == at(BeforeStep::CreatingFolder) && directs(
                d,
                seq![Note::FolderMissing],
                Op::CreateDirAll(Target::NlmFolder),
            ),
        },
        BeforeStep::RemovingFolder => match e {
            Event::Failed(msg) => t == at(BeforeStep::ClearingFolder) && directs(
                d,
                seq![Note::FolderRemoveFailed(msg)],
                Op::ClearEntries(Target::NlmFolder),
            ),
            _ => t == at(BeforeStep::RecreatingFolder) && directs(
                d,
                seq![Note::FolderRemoved],
                Op::CreateDirAll(Target::NlmFolder),
            ),
        },
        BeforeStep::RecreatingFolder => match e {
            Event::Failed(msg) => t == at(BeforeStep::ReadingTemp) && directs(
                d,
                seq![Note::FolderCreateFailed(msg)],
                Op::ReadTempVar,
            ),
            _ => t == at(BeforeStep::ReadingTemp) && directs(
                d,
                seq![Note::FolderRecreated],
                Op::ReadTempVar,
            ),
        },
        BeforeStep::ClearingFolder => match e {
            Event::Removed(outcomes) => t == at(BeforeStep::ReadingTemp) && directs(
                d,
                seq![Note::FolderCleared { removed: count_true(outcomes@) as usize }],
                Op::ReadTempVar,
            ),
            _ => false,
        },
        BeforeStep::CreatingFolder => match e {
            Event::Failed(msg) => t == at(BeforeStep::ReadingTemp) && directs(
                d,
                seq![Note::FolderCreateFailed(msg)],
                Op::ReadTempVar,
            ),
            _ => t == at(BeforeStep::ReadingTemp) && directs(
                d,
                seq![Note::FolderCreated],
                Op::ReadTempVar,
            ),
        },
        BeforeStep::ReadingTemp => match e {
            Event::TempVar(Some(dir)) => t == at(BeforeStep::ClearingTemp) && directs(
                d,
                seq![],
                Op::ClearFolder(dir),
            ),
            _ => t == at(BeforeStep::SettingFlag) && directs(
                d,
                seq![Note::TempMissing],
                Op::SetAfterRebootFlag,
            ),
        },
        BeforeStep::ClearingTemp => match e {
            Event::Removed(outcomes) => t == at(BeforeStep::SettingFlag) && directs(
                d,
                temp_notes(outcomes@),
                Op::SetAfterRebootFlag,
            ),
            _ => false,
        },
        BeforeStep::SettingFlag => t == at(BeforeStep::ReadingClock) && directs(
            d,
            seq![],
            Op::ReadClock,
        ),
        BeforeStep::ReadingClock => match e {
            Event::Clock(c) => {
                let ts: u64 = match c {
                    Some(v) => v,
                    None => 0,
                };
                &&& t == at(BeforeStep::SettingTimestamp { timestamp: ts })
                &&& d.notes@ == Seq::<Note>::empty()
                &&& d.op matches Op::SetTimestamp(text) && text@ == decimal_digits(ts as nat)
            },
            _ => false,
        },
        BeforeStep::SettingTimestamp { timestamp } => t == BeforeReboot {
            step: BeforeStep::LocatingExecutable,
            marker: Some(timestamp),
        } && directs(d, seq![Note::FlagsSet { timestamp }], Op::LocateExecutable),
        BeforeStep::LocatingExecutable => match e {
            Event::Executable(Some(exe)) => {
                &&& t == at(BeforeStep::RegisteringRunOnce)
                &&& d.notes@ == Seq::<Note>::empty()
                &&& d.op matches Op::RegisterRunOnce(cmd) && cmd@ == runonce_text(exe@)
            },
            _ => t == at(BeforeStep::CountingDown { left: REBOOT_COUNTDOWN_SECS }) && directs(
                d,
                seq![Note::ExecutableUnknown],
                Op::Tick(REBOOT_COUNTDOWN_SECS),
            ),
        },
        BeforeStep::RegisteringRunOnce => t == at(
            BeforeStep::CountingDown { left: REBOOT_COUNTDOWN_SECS },
        ) && directs(d, seq![Note::RunOnceRegistered], Op::Tick(REBOOT_COUNTDOWN_SECS)),
        BeforeStep::CountingDown { left } => if left > 1 {
            t == at(BeforeStep::CountingDown { left: (left - 1) as u32 }) && directs(
                d,
                seq![],
                Op::Tick((left - 1) as u32),
            )
        } else {
            t == at(BeforeStep::Rebooting) && directs(d, seq![], Op::Reboot)
        },
        BeforeStep::Rebooting => match e {
            Event::Failed(msg) => t == at(BeforeStep::CleaningUp) && directs(
                d,
                seq![Note::RebootFailed(msg)],
                Op::CleanupFlags,
            ),
            _ => t == at(BeforeStep::Finished) && directs(d, seq![], Op::Exit(0)),
        },
        BeforeStep::CleaningUp => t == at(BeforeStep::WaitingForEnter) && directs(
            d,
            seq![],
            Op::WaitForEnter,
        ),
        BeforeStep::WaitingForEnter => t == at(BeforeStep::Finished) && directs(
            d,
            seq![],
            Op::Exit(1),
        ),
        BeforeStep::Finished => false,
    }
}

fn directive(notes: Vec<Note>, op: Op) -> (d: Directive)
    ensures
        d.notes == notes,
        d.op == op,
{
    Directive { notes, op }
}

fn directive0(op: Op) -> (d: Directive)
    ensures
        directs(d, seq![], op),
{
    let d = Directive { notes: Vec::new(), op };
    assert(d.notes@ =~= Seq::<Note>::empty());
    d
}

fn directive1(note: Note, op: Op) -> (d: Directive)
    ensures
        directs(d, seq![note], op),
{
    let mut notes = Vec::new();
    notes.push(note);
    assert(notes@ =~= seq![note]);
    Directive { notes, op }
}

impl BeforeReboot {
    /// The first phase starts by stopping the licence manager.
    pub fn start() -> (r: (BeforeReboot, Directive))
        ensures
            r.0 == (BeforeReboot { step: BeforeStep::StoppingProcess, marker: None }),
            directs(r.1, seq![], Op::StopLicenceManager),
    {
        (
            BeforeReboot { step: BeforeStep::StoppingProcess, marker: None },
            directive0(Op::StopLicenceManager),
        )
    }

    /// Whether `e` is the kind of answer this state waits for.
    pub fn accepts(&self, e: &Event) -> (b: bool)
        ensures
            b == before_accepts(self.step, *e),
    {
        match self.step {
            BeforeStep::StoppingProcess => matches!(e, Event::Done),
            BeforeStep::ProbingUninstaller => matches!(e, Event::Exists(_)),
            BeforeStep::RunningUninstaller => matches!(e, Event::Exited { .. } | Event::Failed(_)),
            BeforeStep::ProbingFolder => matches!(e, Event::Exists(_)),
            BeforeStep::RemovingFolder => matches!(e, Event::Done | Event::Failed(_)),
            BeforeStep::RecreatingFolder => matches!(e, Event::Done | Event::Failed(_)),
            BeforeStep::ClearingFolder => matches!(e, Event::Removed(_)),
            BeforeStep::CreatingFolder => matches!(e, Event::Done | Event::Failed(_)),
            BeforeStep::ReadingTemp => matches!(e, Event::TempVar(_)),
            BeforeStep::ClearingTemp => matches!(e, Event::Removed(_)),
            BeforeStep::SettingFlag => matches!(e, Event::Done),
            BeforeStep::ReadingClock => matches!(e, Event::Clock(_)),
            BeforeStep::SettingTimestamp { .. } => matches!(e, Event::Done),
            BeforeStep::LocatingExecutable => matches!(e, Event::Executable(_)),
            BeforeStep::RegisteringRunOnce => matches!(e, Event::Done),
            BeforeStep::CountingDown { .. } => matches!(e, Event::Done),
            BeforeStep::Rebooting => matches!(e, Event::Done | Event::Failed(_)),
            BeforeStep::CleaningUp => matches!(e, Event::Done),
            BeforeStep::WaitingForEnter => matches!(e, Event::Done),
            BeforeStep::Finished => false,
        }
    }

    /// Takes the answer to the last directive and gives the next one.
    pub fn advance(self, e: Event) -> (r: (BeforeReboot, Directive))
        requires
            before_accepts(self.step, e),
        ensures
            before_next(self, e, r.0, r.1),
    {
        let m = self.marker;
        match self.step {
            BeforeStep::StoppingProcess => (
                BeforeReboot { step: BeforeStep::ProbingUninstaller, marker: m },
                directive0(Op::CheckExists(Target::Uninstaller)),
            ),
            BeforeStep::ProbingUninstaller => match e {
                Event::Exists(true) => (
                    BeforeReboot { step: BeforeStep::RunningUninstaller, marker: m },
                    directive0(Op::RunProgram(Target::Uninstaller)),
                ),
                _ => (
                    BeforeReboot { step: BeforeStep::ProbingFolder, marker: m },
                    directive1(Note::UninstallerMissing, Op::CheckExists(Target::NlmFolder)),
                ),
            },
            BeforeStep::RunningUninstaller => match e {
                Event::Exited { code, success } => (
                    BeforeReboot { step: BeforeStep::ProbingFolder, marker: m },
                    directive1(Note::UninstallerExited { code: exit_code_of(code), success }, Op::CheckExists(Target::NlmFolder),
                    ),
                ),
                Event::Failed(msg) => (
                    BeforeReboot { step: BeforeStep::ProbingFolder, marker: m },
                    directive1(Note::UninstallerFailedToStart(msg), Op::CheckExists(Target::NlmFolder),
                    ),
                ),
                _ => {
                    assert(false);
                    (self, directive0(Op::Exit(1)))
                },
            },
            BeforeStep::ProbingFolder => match e {
                Event::Exists(true) => (
                    BeforeReboot { step: BeforeStep::RemovingFolder, marker: m },
                    directive0(Op::RemoveDirAll(Target::NlmFolder)),
                ),
                _ => (
                    BeforeReboot { step: BeforeStep::CreatingFolder, marker: m },
                    directive1(Note::FolderMissing, Op::CreateDirAll(Target::NlmFolder)),
                ),
            },
            BeforeStep::RemovingFolder => match e {
                Event::Failed(msg) => (
                    BeforeReboot { step: BeforeStep::ClearingFolder, marker: m },
                    directive1(Note::FolderRemoveFailed(msg), Op::ClearEntries(Target::NlmFolder),
                    ),
                ),
                _ => (
                    BeforeReboot { step: BeforeStep::RecreatingFolder, marker: m },
                    directive1(Note::FolderRemoved, Op::CreateDirAll(Target::NlmFolder)),
                ),
            },
            BeforeStep::RecreatingFolder => match e {
                Event::Failed(msg) => (
                    BeforeReboot { step: BeforeStep::ReadingTemp, marker: m },
                    directive1(Note::FolderCreateFailed(msg), Op::ReadTempVar),
                ),
                _ => (
                    BeforeReboot { step: BeforeStep::ReadingTemp, marker: m },
                    directive1(Note::FolderRecreated, Op::ReadTempVar),
                ),
            },
            BeforeStep::ClearingFolder => match e {
                Event::Removed(outcomes) => {
                    let (removed, _failed) = count_removals(&outcomes);
                    (
                        BeforeReboot { step: BeforeStep::ReadingTemp, marker: m },
                        directive1(Note::FolderCleared { removed }, Op::ReadTempVar),
                    )
                },
                _ => {
                    assert(false);
                    (self, directive0(Op::Exit(1)))
                },
            },
            BeforeStep::CreatingFolder => match e {
                Event::Failed(msg) => (
                    BeforeReboot { step: BeforeStep::ReadingTemp, marker: m },
                    directive1(Note::FolderCreateFailed(msg), Op::ReadTempVar),
                ),
                _ => (
                    BeforeReboot { step: BeforeStep::ReadingTemp, marker: m },
                    directive1(Note::FolderCreated, Op::ReadTempVar),
                ),
            },
            BeforeStep::ReadingTemp => match e {
                Event::TempVar(Some(dir)) => (
                    BeforeReboot { step: BeforeStep::ClearingTemp, marker: m },
                    directive0(Op::ClearFolder(dir)),
                ),
                _ => (
                    BeforeReboot { step: BeforeStep::SettingFlag, marker: m },
                    directive1(Note::TempMissing, Op::SetAfterRebootFlag),
                ),
            },
            BeforeStep::ClearingTemp => match e {
                Event::Removed(outcomes) => {
                    let (deleted, errors) = count_removals(&outcomes);
                    let mut notes = vec![Note::TempCleared { deleted, errors }];
                    if errors > 0 {
                        notes.push(Note::TempBusy);
                    }
                    proof {
                        assert(notes@ =~= temp_notes(outcomes@));
                    }
                    (
                        BeforeReboot { step: BeforeStep::SettingFlag, marker: m },
                        directive(notes, Op::SetAfterRebootFlag),
                    )
                },
                _ => {
                    assert(false);
                    (self, directive0(Op::Exit(1)))
                },
            },
            BeforeStep::SettingFlag => (
                BeforeReboot { step: BeforeStep::ReadingClock, marker: m },
                directive0(Op::ReadClock),
            ),
            BeforeStep::ReadingClock => match e {
                Event::Clock(c) => {
                    let ts: u64 = match c {
                        Some(v) => v,
                        None => 0,
                    };
                    (
                        BeforeReboot { step: BeforeStep::SettingTimestamp { timestamp: ts }, marker: m },
                        directive0(Op::SetTimestamp(decimal_string(ts))),
                    )
                },
                _ => {
                    assert(false);
                    (self, directive0(Op::Exit(1)))
                },
            },
            BeforeStep::SettingTimestamp { timestamp } => (
                BeforeReboot { step: BeforeStep::LocatingExecutable, marker: Some(timestamp) },
                directive1(Note::FlagsSet { timestamp }, Op::LocateExecutable),
            ),
            BeforeStep::LocatingExecutable => match e {
                Event::Executable(Some(exe)) => (
                    BeforeReboot { step: BeforeStep::RegisteringRunOnce, marker: m },
                    directive0(Op::RegisterRunOnce(runonce_command(exe.as_str()))),
                ),
                _ => (
                    BeforeReboot {
                        step: BeforeStep::CountingDown { left: REBOOT_COUNTDOWN_SECS },
                        marker: m,
                    },
                    directive1(Note::ExecutableUnknown, Op::Tick(REBOOT_COUNTDOWN_SECS)),
                ),
            },
            BeforeStep::RegisteringRunOnce => (
                BeforeReboot {
                    step: BeforeStep::CountingDown { left: REBOOT_COUNTDOWN_SECS },
                    marker: m,
                },
                directive1(Note::RunOnceRegistered, Op::Tick(REBOOT_COUNTDOWN_SECS)),
            ),
            BeforeStep::CountingDown { left } => if left > 1 {
                (
                    BeforeReboot { step: BeforeStep::CountingDown { left: left - 1 }, marker: m },
                    directive0(Op::Tick(left - 1)),
                )
            } else {
                (
                    BeforeReboot { step: BeforeStep::Rebooting, marker: m },
                    directive0(Op::Reboot),
                )
            },
            BeforeStep::Rebooting => match e {
                Event::Failed(msg) => (
                    BeforeReboot { step: BeforeStep::CleaningUp, marker: m },
                    directive1(Note::RebootFailed(msg), Op::CleanupFlags),
                ),
                _ => (
                    BeforeReboot { step: BeforeStep::Finished, marker: m },
                    directive0(Op::Exit(0)),
                ),
            },
            BeforeStep::CleaningUp => (
                BeforeReboot { step: BeforeStep::WaitingForEnter, marker: m },
                directive0(Op::WaitForEnter),
            ),
            BeforeStep::WaitingForEnter => (
                BeforeReboot { step: BeforeStep::Finished, marker: m },
                directive0(Op::Exit(1)),
            ),
            BeforeStep::Finished => {
                assert(false);
                (self, directive0(Op::Exit(1)))
            },
        }
    }
}

/// How many steps at most separate `step` from the end of the first phase.
pub open spec fn before_rank(step: BeforeStep) -> nat {
    match step {
        BeforeStep::StoppingProcess => 30,
        BeforeStep::ProbingUninstaller => 29,
        BeforeStep::RunningUninstaller => 28,
        BeforeStep::ProbingFolder => 27,
        BeforeStep::RemovingFolder => 26,
        BeforeStep::RecreatingFolder => 25,
        BeforeStep::ClearingFolder => 25,
        BeforeStep::CreatingFolder => 25,
        BeforeStep::ReadingTemp => 24,
        BeforeStep::ClearingTemp => 23,
        BeforeStep::SettingFlag => 22,
        BeforeStep::ReadingClock => 21,
        BeforeStep::SettingTimestamp { .. } => 20,
        BeforeStep::LocatingExecutable => 19,
        BeforeStep::RegisteringRunOnce => 18,
        BeforeStep::CountingDown { left } => 4 + left as nat,
        BeforeStep::Rebooting => 3,
        BeforeStep::CleaningUp => 2,
        BeforeStep::WaitingForEnter => 1,
        BeforeStep::Finished => 0,
    }
}

/// The first phase always ends: every step lowers the rank.
pub proof fn lemma_before_step_progresses(s: BeforeReboot, e: Event, t: BeforeReboot, d: Directive)
    requires
        before_accepts(s.step, e),
        before_next(s, e, t, d),
    ensures
        before_rank(t.step) < before_rank(s.step),
{
}

/// The driver is never stuck: a step that is not the end accepts some answer,
/// and the end accepts none.
pub proof fn lemma_before_never_stuck(step: BeforeStep)
    ensures
        !(step is Finished) <==> exists|e: Event| before_accepts(step, e),
{
    if !(step is Finished) {
        let w = match step {
            BeforeStep::ProbingUninstaller => Event::Exists(true),
            BeforeStep::ProbingFolder => Event::Exists(true),
            BeforeStep::RunningUninstaller => Event::Exited { code: None, success: true },
            BeforeStep::ClearingFolder => Event::Removed(arbitrary()),
            BeforeStep::ClearingTemp => Event::Removed(arbitrary()),
            BeforeStep::ReadingTemp => Event::TempVar(None),
            BeforeStep::ReadingClock => Event::Clock(None),
            BeforeStep::LocatingExecutable => Event::Executable(None),
            _ => Event::Done,
        };
        assert(before_accepts(step, w));
    }
}

/// The program is told to exit exactly when the first phase reaches its end.
pub proof fn lemma_before_exit_at_end(s: BeforeReboot, e: Event, t: BeforeReboot, d: Directive)
    requires
        before_accepts(s.step, e),
        before_next(s, e, t, d),
    ensures
        (d.op is Exit) <==> (t.step is Finished),
{
}

/// Once the marker has been written, it stays: every step from the
/// locating of the executable on holds it.
pub open spec fn marker_kept(s: BeforeReboot) -> bool {
    (s.step is LocatingExecutable || s.step is RegisteringRunOnce || s.step is CountingDown
        || s.step is Rebooting || s.step is CleaningUp || s.step is WaitingForEnter
        || s.step is Finished) ==> s.marker is Some
}

/// The start keeps the marker rule.
pub proof fn lemma_before_start_keeps_marker()
    ensures
        marker_kept(BeforeReboot { step: BeforeStep::StoppingProcess, marker: None }),
{
}

/// Every step keeps the marker rule, and so the reboot is only asked for
/// after the reboot marker has been written.
pub proof fn lemma_reboot_only_after_marker(s: BeforeReboot, e: Event, t: BeforeReboot, d: Directive)
    requires
        marker_kept(s),
        before_accepts(s.step, e),
        before_next(s, e, t, d),
    ensures
        marker_kept(t),
        d.op == Op::Reboot ==> t.marker is Some,
{
}

/// The text stored as the reboot marker reads back as the timestamp
/// that the phase records.
pub proof fn lemma_stored_marker_reads_back(s: BeforeReboot, e: Event, t: BeforeReboot, d: Directive)
    requires
        before_accepts(s.step, e),
        before_next(s, e, t, d),
        d.op is SetTimestamp,
    ensures
        t.step is SettingTimestamp,
        match (d.op, t.step) {
            (Op::SetTimestamp(text), BeforeStep::SettingTimestamp { timestamp }) => parse_u64_spec(
                text@,
            ) == Some(timestamp),
            _ => false,
        },
{
    if let BeforeStep::SettingTimestamp { timestamp } = t.step {
        lemma_decimal_round_trip(timestamp);
    }
}

/// The first phase exits with 0 right after a reboot request that did not
/// fail, and with 1 only at the end of the path that a failed reboot request
/// opens: cleanup of the flags, then waiting for Enter.
pub proof fn lemma_before_exit_codes(s: BeforeReboot, e: Event, t: BeforeReboot, d: Directive)
    requires
        before_accepts(s.step, e),
        before_next(s, e, t, d),
    ensures
        d.op == Op::Exit(0) ==> s.step is Rebooting && e is Done,
        d.op == Op::Exit(1) ==> s.step is WaitingForEnter,
        t.step is WaitingForEnter ==> s.step is CleaningUp && d.op == Op::WaitForEnter,
        t.step is CleaningUp ==> s.step is Rebooting && e is Failed && d.op == Op::CleanupFlags,
        d.op is Exit ==> d.op == Op::Exit(0) || d.op == Op::Exit(1),
{
}

/// The numbered step of the first phase that a state belongs to:
/// 1 stop the licence manager, 2 uninstall, 3 renew its folder, 4 clear the
/// temporary files, 5 arm the flags, the marker and RunOnce, 6 reboot.
pub open spec fn before_stage(step: BeforeStep) -> nat {
    match step {
        BeforeStep::StoppingProcess => 1,
        BeforeStep::ProbingUninstaller | BeforeStep::RunningUninstaller => 2,
        BeforeStep::ProbingFolder | BeforeStep::RemovingFolder | BeforeStep::RecreatingFolder
        | BeforeStep::ClearingFolder | BeforeStep::CreatingFolder => 3,
        BeforeStep::ReadingTemp | BeforeStep::ClearingTemp => 4,
        BeforeStep::SettingFlag | BeforeStep::ReadingClock | BeforeStep::SettingTimestamp { .. }
        | BeforeStep::LocatingExecutable | BeforeStep::RegisteringRunOnce => 5,
        _ => 6,
    }
}

/// The operation that a state of the first phase waits on is the one its
/// name says.
pub open spec fn before_waits_on(step: BeforeStep, op: Op) -> bool {
    match step {
        BeforeStep::StoppingProcess => op == Op::StopLicenceManager,
        BeforeStep::ProbingUninstaller => op == Op::CheckExists(Target::Uninstaller),
        BeforeStep::RunningUninstaller => op == Op::RunProgram(Target::Uninstaller),
        BeforeStep::ProbingFolder => op == Op::CheckExists(Target::NlmFolder),
        BeforeStep::RemovingFolder => op == Op::RemoveDirAll(Target::NlmFolder),
        BeforeStep::RecreatingFolder => op == Op::CreateDirAll(Target::NlmFolder),
        BeforeStep::ClearingFolder => op == Op::ClearEntries(Target::NlmFolder),
        BeforeStep::CreatingFolder => op == Op::CreateDirAll(Target::NlmFolder),
        BeforeStep::ReadingTemp => op == Op::ReadTempVar,
        BeforeStep::ClearingTemp => op is ClearFolder,
        BeforeStep::SettingFlag => op == Op::SetAfterRebootFlag,
        BeforeStep::ReadingClock => op == Op::ReadClock,
        BeforeStep::SettingTimestamp { timestamp } => op matches Op::SetTimestamp(text)
            && parse_u64_spec(text@) == Some(timestamp),
        BeforeStep::LocatingExecutable => op == Op::LocateExecutable,
        BeforeStep::RegisteringRunOnce => op is RegisterRunOnce,
        BeforeStep::CountingDown { left } => op == Op::Tick(left),
        BeforeStep::Rebooting => op == Op::Reboot,
        BeforeStep::CleaningUp => op == Op::CleanupFlags,
        BeforeStep::WaitingForEnter => op == Op::WaitForEnter,
        BeforeStep::Finished => op is Exit,
    }
}

/// The operation that opens each numbered step of the first phase.
pub open spec fn before_stage_opening(stage: nat, op: Op) -> bool {
    if stage == 2 {
        op == Op::CheckExists(Target::Uninstaller)
    } else if stage == 3 {
        op == Op::CheckExists(Target::NlmFolder)
    } else if stage == 4 {
        op == Op::ReadTempVar
    } else if stage == 5 {
        op == Op::SetAfterRebootFlag
    } else if stage == 6 {
        op == Op::Tick(REBOOT_COUNTDOWN_SECS)
    } else {
        false
    }
}

/// Every directive asks for the operation that the new state waits on.
pub proof fn lemma_before_directive_fits_state(s: BeforeReboot, e: Event, t: BeforeReboot, d: Directive)
    requires
        before_accepts(s.step, e),
        before_next(s, e, t, d),
    ensures
        before_waits_on(t.step, d.op),
{
    if let BeforeStep::SettingTimestamp { timestamp } = t.step {
        lemma_decimal_round_trip(timestamp);
    }
}

/// The first phase takes its numbered steps in order, skipping none: a
/// step stays within its stage or enters the next one, and it enters it by
/// that stage's opening operation.
pub proof fn lemma_before_stages_in_order(s: BeforeReboot, e: Event, t: BeforeReboot, d: Directive)
    requires
        before_accepts(s.step, e),
        before_next(s, e, t, d),
    ensures
        before_stage(s.step) <= before_stage(t.step) <= before_stage(s.step) + 1,
        before_stage(t.step) == before_stage(s.step) + 1 ==> before_stage_opening(
            before_stage(t.step),
            d.op,
        ),
{
}

/// A run of the first phase: the start, then one accepted answer and one
/// step per event.
pub open spec fn before_run(states: Seq<BeforeReboot>, events: Seq<Event>, ds: Seq<Directive>) -> bool {
    &&& states.len() == events.len() + 1
    &&& ds.len() == states.len()
    &&& states[0] == (BeforeReboot { step: BeforeStep::StoppingProcess, marker: None })
    &&& directs(ds[0], seq![], Op::StopLicenceManager)
    &&& forall|i: int|
        0 <= i < events.len() ==> before_accepts(states[i].step, #[trigger] events[i])
            && before_next(states[i], events[i], states[i + 1], ds[i + 1])
}

proof fn lemma_before_stage_entered(
    states: Seq<BeforeReboot>,
    events: Seq<Event>,
    ds: Seq<Directive>,
    k: int,
    x: nat,
) -> (i: int)
    requires
        before_run(states, events, ds),
        0 <= k < states.len(),
        1 < x <= before_stage(states[k].step),
    ensures
        0 < i <= k,
        before_stage(states[i].step) == x,
        before_stage(states[i - 1].step) + 1 == x,
        before_stage_opening(x, ds[i].op),
    decreases k,
{
    let j = k - 1;
    assert(before_accepts(states[j].step, events[j]));
    lemma_before_stages_in_order(states[j], events[j], states[j + 1], ds[j + 1]);
    if before_stage(states[j].step) >= x {
        lemma_before_stage_entered(states, events, ds, j, x)
    } else {
        k
    }
}

/// Every run of the first phase that asks for the reboot has, before that,
/// checked the licence manager's folder, read the `TEMP` variable and set
/// the continuation flag, in this order.
pub proof fn lemma_reboot_after_every_step(
    states: Seq<BeforeReboot>,
    events: Seq<Event>,
    ds: Seq<Directive>,
    k: int,
)
    requires
        before_run(states, events, ds),
        0 <= k < ds.len(),
        ds[k].op == Op::Reboot,
    ensures
        exists|a: int, b: int, c: int|
            #![trigger ds[a], ds[b], ds[c]]
            0 < a < b < c < k && ds[a].op == Op::CheckExists(Target::NlmFolder) && ds[b].op
                == Op::ReadTempVar && ds[c].op == Op::SetAfterRebootFlag,
{
    if k == 0 {
        assert(ds[0].op == Op::StopLicenceManager);
    }
    let j = k - 1;
    assert(before_accepts(states[j].step, events[j]));
    lemma_before_directive_fits_state(states[j], events[j], states[k], ds[k]);
    assert(states[k].step is Rebooting);
    let a = lemma_before_stage_entered(states, events, ds, k, 3);
    let b = lemma_before_stage_entered(states, events, ds, k, 4);
    let c = lemma_before_stage_entered(states, events, ds, k, 5);
    let e6 = lemma_before_stage_entered(states, events, ds, k, 6);
    assert(ds[e6].op == Op::Tick(REBOOT_COUNTDOWN_SECS));
    // Each stage is entered once, after the one before it.
    lemma_before_stage_monotone(states, events, ds, a, b);
    lemma_before_stage_monotone(states, events, ds, b, c);
    lemma_before_stage_monotone(states, events, ds, c, e6);
    assert(0 < a < b < c < k);
}

proof fn lemma_before_stage_monotone(
    states: Seq<BeforeReboot>,
    events: Seq<Event>,
    ds: Seq<Directive>,
    i: int,
    j: int,
)
    requires
        before_run(states, events, ds),
        0 <= i < states.len(),
        0 <= j < states.len(),
        before_stage(states[i].step) < before_stage(states[j].step),
    ensures
        i < j,
    decreases j - i + states.len(),
{
    if j <= i {
        lemma_before_stage_rises(states, events, ds, j, i);
    }
}

proof fn lemma_before_stage_rises(
    states: Seq<BeforeReboot>,
    events: Seq<Event>,
    ds: Seq<Directive>,
    i: int,
    j: int,
)
    requires
        before_run(states, events, ds),
        0 <= i <= j < states.len(),
    ensures
        before_stage(states[i].step) <= before_stage(states[j].step),
    decreases j - i,
{
    if i < j {
        lemma_before_stage_rises(states, events, ds, i, j - 1);
        assert(before_accepts(states[j - 1].step, events[j - 1]));
        lemma_before_stages_in_order(states[j - 1], events[j - 1], states[j], ds[j]);
    }
}

} // verus!
