//! The second phase, after the reboot: install the licence manager and
//! start it.
use vstd::prelude::*;
use crate::process::{is_running, lists_name};
use crate::script::{
    directs, exit_code_of, exit_code_or_minus_one, Directive, Event, Note, Op, Target,
    NLM_PROCESS, NLM_SETTLE_SECS,
};

verus! {

/// Where the second phase stands: the operation it waits on the answer of.
#[derive(Clone, Copy, Debug, PartialEq, Eq, Structural)]
pub enum AfterStep {
    ProbingInstaller,
    RunningInstaller,
    /// The installer failed; is the licence manager installed anyway?
    VerifyingInstall,
    ProbingLocalNlm,
    SpawningLocalNlm,
    SettlingNlm,
    CheckingNlm,
    ProbingSystemNlm,
    SpawningSystemNlm,
    WaitingForEnter,
    Finished,
}

/// The answer the second phase expects at `step`.
pub open spec fn after_accepts(step: AfterStep, e: Event) -> bool {
    match step {
        AfterStep::ProbingInstaller => e is Exists,
        AfterStep::RunningInstaller => e is Exited || e is Failed,
        AfterStep::VerifyingInstall => e is Exists,
        AfterStep::ProbingLocalNlm => e is Exists,
        AfterStep::SpawningLocalNlm => e is Spawned || e is Failed,
        AfterStep::SettlingNlm => e is Done,
        AfterStep::CheckingNlm => e is Processes,
        AfterStep::ProbingSystemNlm => e is Exists,
        AfterStep::SpawningSystemNlm => e is Spawned || e is Failed,
        AfterStep::WaitingForEnter => e is Done,
        AfterStep::Finished => false,
    }
}

/// One step of the second phase: from `s` and answer `e` to `t` and directive `d`.
pub open spec fn after_next(s: AfterStep, e: Event, t: AfterStep, d: Directive) -> bool {
    match s {
        AfterStep::ProbingInstaller => match e {
            Event::Exists(true) => t == AfterStep::RunningInstaller && directs(
                d,
                seq![],
                Op::RunProgram(Target::Installer),
            ),
            _ => t == AfterStep::ProbingLocalNlm && directs(
                d,
                seq![Note::InstallerMissing],
                Op::CheckExists(Target::LocalNlm),
            ),
        },
        AfterStep::RunningInstaller => match e {
            Event::Exited { code, success } => {
                let note = Note::InstallerExited { code: exit_code_or_minus_one(code), success };
                if success {
                    t == AfterStep::ProbingLocalNlm && directs(
                        d,
                        seq![note],
                        Op::CheckExists(Target::LocalNlm),
                    )
                } else {
                    t == AfterStep::VerifyingInstall && directs(
                        d,
                        seq![note],
                        Op::CheckExists(Target::SystemNlm),
                    )
                }
            },
            Event::Failed(msg) => t == AfterStep::ProbingLocalNlm && directs(
                d,
                seq![Note::InstallerFailedToStart(msg)],
                Op::CheckExists(Target::LocalNlm),
            ),
            _ => false,
        },
        AfterStep::VerifyingInstall => match e {
            Event::Exists(true) => t == AfterStep::ProbingLocalNlm && directs(
                d,
                seq![Note::InstalledDespiteError],
                Op::CheckExists(Target::LocalNlm),
            ),
            _ => t == AfterStep::ProbingLocalNlm && directs(
                d,
                seq![],
                Op::CheckExists(Target::LocalNlm),
            ),
        },
        AfterStep::ProbingLocalNlm => match e {
            Event::Exists(true) => t == AfterStep::SpawningLocalNlm && directs(
                d,
                seq![],
                Op::Spawn(Target::LocalNlm),
            ),
            _ => t == AfterStep::ProbingSystemNlm && directs(
                d,
                seq![Note::LocalNlmMissing],
                Op::CheckExists(Target::SystemNlm),
            ),
        },
        AfterStep::SpawningLocalNlm => match e {
            Event::Spawned(pid) => t == AfterStep::SettlingNlm && directs(
                d,
                seq![Note::NlmStarted(pid)],
                Op::Pause(NLM_SETTLE_SECS),
            ),
            Event::Failed(msg) => t == AfterStep::WaitingForEnter && directs(
                d,
                seq![Note::NlmFailedToStart(msg), Note::AllDone],
                Op::WaitForEnter,
            ),
            _ => false,
        },
        AfterStep::SettlingNlm => t == AfterStep::CheckingNlm && directs(d, seq![], Op::Snapshot),
        AfterStep::CheckingNlm => match e {
            Event::Processes(ps) => t == AfterStep::WaitingForEnter && directs(
                d,
                seq![
                    if lists_name(ps@, NLM_PROCESS@) {
                        Note::NlmRunning
                    } else {
                        Note::NlmExitedEarly
                    },
                    Note::AllDone,
                ],
                Op::WaitForEnter,
            ),
            _ => false,
        },
        AfterStep::ProbingSystemNlm => match e {
            Event::Exists(true) => t == AfterStep::SpawningSystemNlm && directs(
                d,
                seq![Note::SystemNlmFound],
                Op::Spawn(Target::SystemNlm),
            ),
            _ => t == AfterStep::WaitingForEnter && directs(
                d,
                seq![Note::AllDone],
                Op::WaitForEnter,
            ),
        },
        AfterStep::SpawningSystemNlm => match e {
            Event::Spawned(pid) => t == AfterStep::WaitingForEnter && directs(
                d,
                seq![Note::SystemNlmStarted(pid), Note::AllDone],
                Op::WaitForEnter,
            ),
            Event::Failed(msg) => t == AfterStep::WaitingForEnter && directs(
                d,
                seq![Note::SystemNlmFailedToStart(msg), Note::AllDone],
                Op::WaitForEnter,
            ),
            _ => false,
        },
        AfterStep::WaitingForEnter => t == AfterStep::Finished && directs(d, seq![], Op::Exit(0)),
        AfterStep::Finished => false,
    }
}

fn directive0(op: Op) -> (d: Directive)
    ensures
        directs(d, seq![], op),
{
    let d = Directive { notes: Vec::new(), op };
    assert(d.notes@ =~= Seq::<Note>::empty());
    d
}

fn directive1(note: Note, op: Op) -> (d: Directive)
    ensures
        directs(d, seq![note], op),
{
    let mut notes = Vec::new();
    notes.push(note);
    assert(notes@ =~= seq![note]);
    Directive { notes, op }
}

fn directive2(first: Note, second: Note, op: Op) -> (d: Directive)
    ensures
        directs(d, seq![first, second], op),
{
    let mut notes = Vec::new();
    notes.push(first);
    notes.push(second);
    assert(notes@ =~= seq![first, second]);
    Directive { notes, op }
}

impl AfterStep {
    /// The second phase starts by looking for the installer.
    pub fn start() -> (r: (AfterStep, Directive))
        ensures
            r.0 == AfterStep::ProbingInstaller,
            directs(r.1, seq![], Op::CheckExists(Target::Installer)),
    {
        (AfterStep::ProbingInstaller, directive0(Op::CheckExists(Target::Installer)))
    }

    /// Whether `e` is the kind of answer this step waits for.
    pub fn accepts(&self, e: &Event) -> (b: bool)
        ensures
            b == after_accepts(*self, *e),
    {
        match self {
            AfterStep::ProbingInstaller => matches!(e, Event::Exists(_)),
            AfterStep::RunningInstaller => matches!(e, Event::Exited { .. } | Event::Failed(_)),
            AfterStep::VerifyingInstall => matches!(e, Event::Exists(_)),
            AfterStep::ProbingLocalNlm => matches!(e, Event::Exists(_)),
            AfterStep::SpawningLocalNlm => matches!(e, Event::Spawned(_) | Event::Failed(_)),
            AfterStep::SettlingNlm => matches!(e, Event::Done),
            AfterStep::CheckingNlm => matches!(e, Event::Processes(_)),
            AfterStep::ProbingSystemNlm => matches!(e, Event::Exists(_)),
            AfterStep::SpawningSystemNlm => matches!(e, Event::Spawned(_) | Event::Failed(_)),
            AfterStep::WaitingForEnter => matches!(e, Event::Done),
            AfterStep::Finished => false,
        }
    }

    /// Takes the answer to the last directive and gives the next one.
    pub fn advance(self, e: Event) -> (r: (AfterStep, Directive))
        requires
            after_accepts(self, e),
        ensures
            after_next(self, e, r.0, r.1),
    {
        match self {
            AfterStep::ProbingInstaller => match e {
                Event::Exists(true) => (
                    AfterStep::RunningInstaller,
                    directive0(Op::RunProgram(Target::Installer)),
                ),
                _ => (
                    AfterStep::ProbingLocalNlm,
                    directive1(Note::InstallerMissing, Op::CheckExists(Target::LocalNlm)),
                ),
            },
            AfterStep::RunningInstaller => match e {
                Event::Exited { code, success } => {
                    let note = Note::InstallerExited { code: exit_code_of(code), success };
                    if success {
                        (
                            AfterStep::ProbingLocalNlm,
                            directive1(note, Op::CheckExists(Target::LocalNlm)),
                        )
                    } else {
                        (
                            AfterStep::VerifyingInstall,
                            directive1(note, Op::CheckExists(Target::SystemNlm)),
                        )
                    }
                },
                Event::Failed(msg) => (
                    AfterStep::ProbingLocalNlm,
                    directive1(Note::InstallerFailedToStart(msg), Op::CheckExists(Target::LocalNlm)),
                ),
                _ => {
                    assert(false);
                    (self, directive0(Op::Exit(1)))
                },
            },
            AfterStep::VerifyingInstall => match e {
                Event::Exists(true) => (
                    AfterStep::ProbingLocalNlm,
                    directive1(Note::InstalledDespiteError, Op::CheckExists(Target::LocalNlm)),
                ),
                _ => (AfterStep::ProbingLocalNlm, directive0(Op::CheckExists(Target::LocalNlm))),
            },
            AfterStep::ProbingLocalNlm => match e {
                Event::Exists(true) => (
                    AfterStep::SpawningLocalNlm,
                    directive0(Op::Spawn(Target::LocalNlm)),
                ),
                _ => (
                    AfterStep::ProbingSystemNlm,
                    directive1(Note::LocalNlmMissing, Op::CheckExists(Target::SystemNlm)),
                ),
            },
            AfterStep::SpawningLocalNlm => match e {
                Event::Spawned(pid) => (
                    AfterStep::SettlingNlm,
                    directive1(Note::NlmStarted(pid), Op::Pause(NLM_SETTLE_SECS)),
                ),
                Event::Failed(msg) => (
                    AfterStep::WaitingForEnter,
                    directive2(Note::NlmFailedToStart(msg), Note::AllDone, Op::WaitForEnter),
                ),
                _ => {
                    assert(false);
                    (self, directive0(Op::Exit(1)))
                },
            },
            AfterStep::SettlingNlm => (AfterStep::CheckingNlm, directive0(Op::Snapshot)),
            AfterStep::CheckingNlm => match e {
                Event::Processes(ps) => {
                    let name = String::from_str(NLM_PROCESS);
                    let note = if is_running(&ps, &name) {
                        Note::NlmRunning
                    } else {
                        Note::NlmExitedEarly
                    };
                    (AfterStep::WaitingForEnter, directive2(note, Note::AllDone, Op::WaitForEnter))
                },
                _ => {
                    assert(false);
                    (self, directive0(Op::Exit(1)))
                },
            },
            AfterStep::ProbingSystemNlm => match e {
                Event::Exists(true) => (
                    AfterStep::SpawningSystemNlm,
                    directive1(Note::SystemNlmFound, Op::Spawn(Target::SystemNlm)),
                ),
                _ => (AfterStep::WaitingForEnter, directive1(Note::AllDone, Op::WaitForEnter)),
            },
            AfterStep::SpawningSystemNlm => match e {
                Event::Spawned(pid) => (
                    AfterStep::WaitingForEnter,
                    directive2(Note::SystemNlmStarted(pid), Note::AllDone, Op::WaitForEnter),
                ),
                Event::Failed(msg) => (
                    AfterStep::WaitingForEnter,
                    directive2(Note::SystemNlmFailedToStart(msg), Note::AllDone, Op::WaitForEnter),
                ),
                _ => {
                    assert(false);
                    (self, directive0(Op::Exit(1)))
                },
            },
            AfterStep::WaitingForEnter => (AfterStep::Finished, directive0(Op::Exit(0))),
            AfterStep::Finished => {
                assert(false);
                (self, directive0(Op::Exit(1)))
            },
        }
    }
}

/// How many steps at most separate `step` from the end of the second phase.
pub open spec fn after_rank(step: AfterStep) -> nat {
    match step {
        AfterStep::ProbingInstaller => 9,
        AfterStep::RunningInstaller => 8,
        AfterStep::VerifyingInstall => 7,
        AfterStep::ProbingLocalNlm => 6,
        AfterStep::SpawningLocalNlm => 5,
        AfterStep::SettlingNlm => 4,
        AfterStep::CheckingNlm => 3,
        AfterStep::ProbingSystemNlm => 3,
        AfterStep::SpawningSystemNlm => 2,
        AfterStep::WaitingForEnter => 1,
        AfterStep::Finished => 0,
    }
}

/// The second phase always ends: every step lowers the rank.
pub proof fn lemma_after_step_progresses(s: AfterStep, e: Event, t: AfterStep, d: Directive)
    requires
        after_accepts(s, e),
        after_next(s, e, t, d),
    ensures
        after_rank(t) < after_rank(s),
{
}

/// The driver is never stuck: a step that is not the end accepts some answer,
/// and the end accepts none.
pub proof fn lemma_after_never_stuck(step: AfterStep)
    ensures
        !(step is Finished) <==> exists|e: Event| after_accepts(step, e),
{
    if !(step is Finished) {
        let w = match step {
            AfterStep::RunningInstaller => Event::Exited { code: None, success: true },
            AfterStep::SpawningLocalNlm => Event::Spawned(0),
            AfterStep::SpawningSystemNlm => Event::Spawned(0),
            AfterStep::SettlingNlm => Event::Done,
            AfterStep::WaitingForEnter => Event::Done,
            AfterStep::CheckingNlm => Event::Processes(arbitrary()),
            _ => Event::Exists(true),
        };
        assert(after_accepts(step, w));
    }
}

/// The second phase always exits with code 0, and does so exactly when it ends.
pub proof fn lemma_after_exit_at_end(s: AfterStep, e: Event, t: AfterStep, d: Directive)
    requires
        after_accepts(s, e),
        after_next(s, e, t, d),
    ensures
        (d.op is Exit) <==> (t is Finished),
        d.op is Exit ==> d.op == Op::Exit(0),
{
}

/// The numbered step of the second phase that a state belongs to:
/// 1 run the installer, 2 start the licence manager, 3 finish.
pub open spec fn after_stage(step: AfterStep) -> nat {
    match step {
        AfterStep::ProbingInstaller | AfterStep::RunningInstaller | AfterStep::VerifyingInstall => 1,
        AfterStep::WaitingForEnter | AfterStep::Finished => 3,
        _ => 2,
    }
}

/// The operation that a state of the second phase waits on is the one its
/// name says.
pub open spec fn after_waits_on(step: AfterStep, op: Op) -> bool {
    match step {
        AfterStep::ProbingInstaller => op == Op::CheckExists(Target::Installer),
        AfterStep::RunningInstaller => op == Op::RunProgram(Target::Installer),
        AfterStep::VerifyingInstall => op == Op::CheckExists(Target::SystemNlm),
        AfterStep::ProbingLocalNlm => op == Op::CheckExists(Target::LocalNlm),
        AfterStep::SpawningLocalNlm => op == Op::Spawn(Target::LocalNlm),
        AfterStep::SettlingNlm => op == Op::Pause(NLM_SETTLE_SECS),
        AfterStep::CheckingNlm => op == Op::Snapshot,
        AfterStep::ProbingSystemNlm => op == Op::CheckExists(Target::SystemNlm),
        AfterStep::SpawningSystemNlm => op == Op::Spawn(Target::SystemNlm),
        AfterStep::WaitingForEnter => op == Op::WaitForEnter,
        AfterStep::Finished => op == Op::Exit(0),
    }
}

/// The operation that opens each numbered step of the second phase.
pub open spec fn after_stage_opening(stage: nat, op: Op) -> bool {
    if stage == 2 {
        op == Op::CheckExists(Target::LocalNlm)
    } else if stage == 3 {
        op == Op::WaitForEnter
    } else {
        false
    }
}

/// Every directive asks for the operation that the new state waits on.
pub proof fn lemma_after_directive_fits_state(s: AfterStep, e: Event, t: AfterStep, d: Directive)
    requires
        after_accepts(s, e),
        after_next(s, e, t, d),
    ensures
        after_waits_on(t, d.op),
{
}

/// The second phase takes its numbered steps in order, skipping none: a
/// step stays within its stage or enters the next one, and it enters it by
/// that stage's opening operation. In particular, whatever the installer
/// did, the phase next looks for the licence manager beside the tool.
pub proof fn lemma_after_stages_in_order(s: AfterStep, e: Event, t: AfterStep, d: Directive)
    requires
        after_accepts(s, e),
        after_next(s, e, t, d),
    ensures
        after_stage(s) <= after_stage(t) <= after_stage(s) + 1,
        after_stage(t) == after_stage(s) + 1 ==> after_stage_opening(after_stage(t), d.op),
        after_stage(t) == 2 && after_stage(s) == 1 ==> t == AfterStep::ProbingLocalNlm,
{
}

/// A run of the second phase: the start, then one accepted answer and one
/// step per event.
pub open spec fn after_run(states: Seq<AfterStep>, events: Seq<Event>, ds: Seq<Directive>) -> bool {
    &&& states.len() == events.len() + 1
    &&& ds.len() == states.len()
    &&& states[0] == AfterStep::ProbingInstaller
    &&& directs(ds[0], seq![], Op::CheckExists(Target::Installer))
    &&& forall|i: int|
        0 <= i < events.len() ==> after_accepts(states[i], #[trigger] events[i]) && after_next(
            states[i],
            events[i],
            states[i + 1],
            ds[i + 1],
        )
}

proof fn lemma_after_stage_entered(
    states: Seq<AfterStep>,
    events: Seq<Event>,
    ds: Seq<Directive>,
    k: int,
    x: nat,
) -> (i: int)
    requires
        after_run(states, events, ds),
        0 <= k < states.len(),
        1 < x <= after_stage(states[k]),
    ensures
        0 < i <= k,
        after_stage(states[i]) == x,
        after_stage(states[i - 1]) + 1 == x,
        after_stage_opening(x, ds[i].op),
    decreases k,
{
    let j = k - 1;
    assert(after_accepts(states[j], events[j]));
    lemma_after_stages_in_order(states[j], events[j], states[j + 1], ds[j + 1]);
    if after_stage(states[j]) >= x {
        lemma_after_stage_entered(states, events, ds, j, x)
    } else {
        k
    }
}

/// Every run of the second phase that comes to wait for Enter has, before
/// that, looked for the licence manager beside the tool.
pub proof fn lemma_finish_after_looking_for_nlm(
    states: Seq<AfterStep>,
    events: Seq<Event>,
    ds: Seq<Directive>,
    k: int,
)
    requires
        after_run(states, events, ds),
        0 <= k < ds.len(),
        ds[k].op == Op::WaitForEnter,
    ensures
        exists|a: int| 0 < a < k && #[trigger] ds[a].op == Op::CheckExists(Target::LocalNlm),
{
    if k == 0 {
        assert(ds[0].op == Op::CheckExists(Target::Installer));
    }
    let j = k - 1;
    assert(after_accepts(states[j], events[j]));
    lemma_after_directive_fits_state(states[j], events[j], states[k], ds[k]);
    assert(states[k] == AfterStep::WaitingForEnter);
    let a = lemma_after_stage_entered(states, events, ds, k, 2);
    let b = lemma_after_stage_entered(states, events, ds, k, 3);
    assert(ds[b].op == Op::WaitForEnter);
    lemma_after_stage_rises(states, events, ds, b, a);
    assert(a < b);
    assert(a < k);
}

proof fn lemma_after_stage_rises(
    states: Seq<AfterStep>,
    events: Seq<Event>,
    ds: Seq<Directive>,
    i: int,
    j: int,
)
    requires
        after_run(states, events, ds),
        0 <= i < states.len(),
        0 <= j < states.len(),
        after_stage(states[i]) == 3,
        after_stage(states[j]) == 2,
    ensures
        j < i,
    decreases i - j + states.len(),
{
    if i <= j {
        lemma_after_stage_grows(states, events, ds, i, j);
    }
}

proof fn lemma_after_stage_grows(
    states: Seq<AfterStep>,
    events: Seq<Event>,
    ds: Seq<Directive>,
    i: int,
    j: int,
)
    requires
        after_run(states, events, ds),
        0 <= i <= j < states.len(),
    ensures
        after_stage(states[i]) <= after_stage(states[j]),
    decreases j - i,
{
    if i < j {
        lemma_after_stage_grows(states, events, ds, i, j - 1);
        assert(after_accepts(states[j - 1], events[j - 1]));
        lemma_after_stages_in_order(states[j - 1], events[j - 1], states[j], ds[j]);
    }
}

} // verus!
