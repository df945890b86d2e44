use nlm_reinstall::after::AfterStep;
use nlm_reinstall::before::{BeforeReboot, BeforeStep};
use nlm_reinstall::decimal::parse_u64;
use nlm_reinstall::process::ProcessEntry;
use nlm_reinstall::script::{runonce_command, Directive, Event, Note, Op, Target};

fn run_before(events: Vec<Event>) -> (Vec<Directive>, BeforeReboot) {
    let (mut state, first) = BeforeReboot::start();
    let mut out = vec![first];
    for e in events {
        assert!(state.accepts(&e), "{:?} not accepted at {:?}", e, state);
        let (next, d) = state.advance(e);
        state = next;
        out.push(d);
    }
    (out, state)
}

fn ops(ds: &[Directive]) -> Vec<Op> {
    ds.iter().map(|d| d.op.clone()).collect()
}

fn notes(ds: &[Directive]) -> Vec<Note> {
    ds.iter().flat_map(|d| d.notes.clone()).collect()
}

fn countdown_events() -> Vec<Event> {
    (0..10).map(|_| Event::Done).collect()
}

#[test]
fn first_phase_full_run() {
    let mut events = vec![
        Event::Done,
        Event::Exists(true),
        Event::Exited { code: Some(0), success: true },
        Event::Exists(true),
        Event::Done,
        Event::Done,
        Event::TempVar(Some("C:\\Temp".to_string())),
        Event::Removed(vec![true, false, true]),
        Event::Done,
        Event::Clock(Some(1_700_000_000)),
        Event::Done,
        Event::Executable(Some("C:\\tool.exe".to_string())),
        Event::Done,
    ];
    events.extend(countdown_events());
    events.push(Event::Done);
    let (ds, end) = run_before(events);
    let mut expected = vec![
        Op::StopLicenceManager,
        Op::CheckExists(Target::Uninstaller),
        Op::RunProgram(Target::Uninstaller),
        Op::CheckExists(Target::NlmFolder),
        Op::RemoveDirAll(Target::NlmFolder),
        Op::CreateDirAll(Target::NlmFolder),
        Op::ReadTempVar,
        Op::ClearFolder("C:\\Temp".to_string()),
        Op::SetAfterRebootFlag,
        Op::ReadClock,
        Op::SetTimestamp("1700000000".to_string()),
        Op::LocateExecutable,
        Op::RegisterRunOnce(runonce_command("C:\\tool.exe")),
    ];
    expected.extend((1..=10).rev().map(Op::Tick));
    expected.push(Op::Reboot);
    expected.push(Op::Exit(0));
    assert_eq!(ops(&ds), expected);
    assert_eq!(
        notes(&ds),
        vec![
            Note::UninstallerExited { code: 0, success: true },
            Note::FolderRemoved,
            Note::FolderRecreated,
            Note::TempCleared { deleted: 2, errors: 1 },
            Note::TempBusy,
            Note::FlagsSet { timestamp: 1_700_000_000 },
            Note::RunOnceRegistered,
        ]
    );
    assert_eq!(end, BeforeReboot { step: BeforeStep::Finished, marker: Some(1_700_000_000) });
    assert!(!end.accepts(&Event::Done));
}

#[test]
fn first_phase_everything_missing_and_reboot_fails() {
    let mut events = vec![
        Event::Done,
        Event::Exists(false),
        Event::Exists(false),
        Event::Failed("denied".to_string()),
        Event::TempVar(None),
        Event::Done,
        Event::Clock(None),
        Event::Done,
        Event::Executable(None),
    ];
    events.extend(countdown_events());
    events.push(Event::Failed("no shutdown".to_string()));
    events.push(Event::Done);
    events.push(Event::Done);
    let (ds, end) = run_before(events);
    let all_ops = ops(&ds);
    assert_eq!(all_ops[3], Op::CreateDirAll(Target::NlmFolder));
    assert_eq!(all_ops[7], Op::SetTimestamp("0".to_string()));
    assert_eq!(all_ops[9], Op::Tick(10));
    let tail: Vec<Op> = all_ops[all_ops.len() - 4..].to_vec();
    assert_eq!(tail, vec![Op::Reboot, Op::CleanupFlags, Op::WaitForEnter, Op::Exit(1)]);
    assert_eq!(
        notes(&ds),
        vec![
            Note::UninstallerMissing,
            Note::FolderMissing,
            Note::FolderCreateFailed("denied".to_string()),
            Note::TempMissing,
            Note::FlagsSet { timestamp: 0 },
            Note::ExecutableUnknown,
            Note::RebootFailed("no shutdown".to_string()),
        ]
    );
    assert_eq!(end.step, BeforeStep::Finished);
}

#[test]
fn first_phase_folder_remove_fails_then_cleared() {
    let events = vec![
        Event::Done,
        Event::Exists(true),
        Event::Failed("cannot start".to_string()),
        Event::Exists(true),
        Event::Failed("in use".to_string()),
        Event::Removed(vec![true, true, false]),
        Event::TempVar(Some("T".to_string())),
        Event::Removed(vec![true]),
    ];
    let (ds, end) = run_before(events);
    assert_eq!(ops(&ds)[5], Op::ClearEntries(Target::NlmFolder));
    assert_eq!(ops(&ds)[8], Op::SetAfterRebootFlag);
    assert_eq!(
        notes(&ds),
        vec![
            Note::UninstallerFailedToStart("cannot start".to_string()),
            Note::FolderRemoveFailed("in use".to_string()),
            Note::FolderCleared { removed: 2 },
            Note::TempCleared { deleted: 1, errors: 0 },
        ]
    );
    assert_eq!(end.step, BeforeStep::SettingFlag);
    assert_eq!(end.marker, None);
}

#[test]
fn uninstaller_without_exit_code_reports_minus_one() {
    let (ds, _) = run_before(vec![
        Event::Done,
        Event::Exists(true),
        Event::Exited { code: None, success: false },
    ]);
    assert_eq!(notes(&ds), vec![Note::UninstallerExited { code: -1, success: false }]);
}

#[test]
fn reboot_is_asked_only_with_the_marker_written() {
    let mut events = vec![
        Event::Done,
        Event::Exists(false),
        Event::Exists(true),
        Event::Done,
        Event::Done,
        Event::TempVar(None),
        Event::Done,
        Event::Clock(Some(42)),
    ];
    let (ds, before_marker) = run_before(events.clone());
    let stored = match &ds.last().unwrap().op {
        Op::SetTimestamp(t) => t.clone(),
        other => panic!("unexpected {:?}", other),
    };
    assert_eq!(before_marker.marker, None);
    assert_eq!(parse_u64(&stored), Some(42));
    events.push(Event::Done);
    events.push(Event::Executable(None));
    events.extend(countdown_events());
    let (ds, state) = run_before(events);
    assert_eq!(ds.last().unwrap().op, Op::Reboot);
    assert_eq!(state.marker, Some(42));
}

#[test]
fn wrong_answers_are_refused() {
    let (state, _) = BeforeReboot::start();
    assert!(!state.accepts(&Event::Exists(true)));
    assert!(state.accepts(&Event::Done));
    let (state, _) = state.advance(Event::Done);
    assert!(!state.accepts(&Event::Done));
    assert!(state.accepts(&Event::Exists(false)));
}

fn run_after(events: Vec<Event>) -> (Vec<Directive>, AfterStep) {
    let (mut state, first) = AfterStep::start();
    let mut out = vec![first];
    for e in events {
        assert!(state.accepts(&e), "{:?} not accepted at {:?}", e, state);
        let (next, d) = state.advance(e);
        state = next;
        out.push(d);
    }
    (out, state)
}

fn procs(names: &[&str]) -> Vec<ProcessEntry> {
    names
        .iter()
        .enumerate()
        .map(|(i, n)| ProcessEntry { pid: i as u32 + 100, name: n.to_string() })
        .collect()
}

#[test]
fn second_phase_full_run() {
    let (ds, end) = run_after(vec![
        Event::Exists(true),
        Event::Exited { code: Some(0), success: true },
        Event::Exists(true),
        Event::Spawned(4242),
        Event::Done,
        Event::Processes(procs(&["System", "AdskNLM.exe"])),
        Event::Done,
    ]);
    assert_eq!(
        ops(&ds),
        vec![
            Op::CheckExists(Target::Installer),
            Op::RunProgram(Target::Installer),
            Op::CheckExists(Target::LocalNlm),
            Op::Spawn(Target::LocalNlm),
            Op::Pause(3),
            Op::Snapshot,
            Op::WaitForEnter,
            Op::Exit(0),
        ]
    );
    assert_eq!(
        notes(&ds),
        vec![
            Note::InstallerExited { code: 0, success: true },
            Note::NlmStarted(4242),
            Note::NlmRunning,
            Note::AllDone,
        ]
    );
    assert_eq!(end, AfterStep::Finished);
}

#[test]
fn second_phase_installer_fails_but_installed() {
    let (ds, _) = run_after(vec![
        Event::Exists(true),
        Event::Exited { code: Some(1603), success: false },
        Event::Exists(true),
        Event::Exists(true),
        Event::Spawned(7),
        Event::Done,
        Event::Processes(procs(&["System"])),
    ]);
    assert_eq!(ops(&ds)[2], Op::CheckExists(Target::SystemNlm));
    assert_eq!(
        notes(&ds),
        vec![
            Note::InstallerExited { code: 1603, success: false },
            Note::InstalledDespiteError,
            Note::NlmStarted(7),
            Note::NlmExitedEarly,
            Note::AllDone,
        ]
    );
}

#[test]
fn second_phase_falls_back_to_system_copy() {
    let (ds, end) = run_after(vec![
        Event::Exists(false),
        Event::Exists(false),
        Event::Exists(true),
        Event::Spawned(9),
        Event::Done,
    ]);
    assert_eq!(
        ops(&ds),
        vec![
            Op::CheckExists(Target::Installer),
            Op::CheckExists(Target::LocalNlm),
            Op::CheckExists(Target::SystemNlm),
            Op::Spawn(Target::SystemNlm),
            Op::WaitForEnter,
            Op::Exit(0),
        ]
    );
    assert_eq!(
        notes(&ds),
        vec![
            Note::InstallerMissing,
            Note::LocalNlmMissing,
            Note::SystemNlmFound,
            Note::SystemNlmStarted(9),
            Note::AllDone,
        ]
    );
    assert_eq!(end, AfterStep::Finished);
}

#[test]
fn second_phase_nothing_to_start() {
    let (ds, _) = run_after(vec![
        Event::Exists(true),
        Event::Failed("bad exe".to_string()),
        Event::Exists(false),
        Event::Exists(false),
        Event::Done,
    ]);
    assert_eq!(
        notes(&ds),
        vec![Note::InstallerFailedToStart("bad exe".to_string()), Note::LocalNlmMissing, Note::AllDone]
    );
    assert_eq!(ds.last().unwrap().op, Op::Exit(0));
}

#[test]
fn second_phase_spawn_failures() {
    let (ds, _) = run_after(vec![
        Event::Exists(false),
        Event::Exists(true),
        Event::Failed("denied".to_string()),
    ]);
    assert_eq!(notes(&ds), vec![Note::InstallerMissing, Note::NlmFailedToStart("denied".to_string()), Note::AllDone]);
    let (ds, _) = run_after(vec![
        Event::Exists(false),
        Event::Exists(false),
        Event::Exists(true),
        Event::Failed("denied".to_string()),
    ]);
    assert_eq!(ds.last().unwrap().notes, vec![Note::SystemNlmFailedToStart("denied".to_string()), Note::AllDone]);
}

#[test]
fn every_run_ends_within_its_rank() {
    // The longest first-phase run is 31 answers; the longest second-phase run is 8.
    let (mut state, _) = BeforeReboot::start();
    let mut steps = 0;
    while state.step != BeforeStep::Finished {
        let e = match state.step {
            BeforeStep::ProbingUninstaller | BeforeStep::ProbingFolder => Event::Exists(true),
            BeforeStep::RunningUninstaller => Event::Exited { code: Some(0), success: true },
            BeforeStep::RemovingFolder | BeforeStep::Rebooting => Event::Failed("x".to_string()),
            BeforeStep::ClearingFolder | BeforeStep::ClearingTemp => Event::Removed(vec![]),
            BeforeStep::ReadingTemp => Event::TempVar(Some("t".to_string())),
            BeforeStep::ReadingClock => Event::Clock(Some(5)),
            BeforeStep::LocatingExecutable => Event::Executable(Some("e".to_string())),
            _ => Event::Done,
        };
        state = state.advance(e).0;
        steps += 1;
        assert!(steps <= 30);
    }
}
