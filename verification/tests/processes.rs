use nlm_reinstall::process::{
    count_matching, count_removals, is_running, matching_pids, plan_stop, wait_verdict,
    ProcessEntry, StopPlan, WaitOutcome, WaitStep,
};

fn entry(pid: u32, name: &str) -> ProcessEntry {
    ProcessEntry { pid, name: name.to_string() }
}

fn sample() -> Vec<ProcessEntry> {
    vec![
        entry(10, "AdskNLM.exe"),
        entry(11, "explorer.exe"),
        entry(12, "adsknlm.exe"),
        entry(13, "AdskNLM.exe"),
        entry(14, "AdskNLM.exe "),
    ]
}

#[test]
fn pids_match_the_exact_name_in_order() {
    let name = "AdskNLM.exe".to_string();
    assert_eq!(matching_pids(&sample(), &name), vec![10, 13]);
    assert_eq!(count_matching(&sample(), &name), 2);
    assert!(is_running(&sample(), &name));
    assert!(!is_running(&sample(), &"notepad.exe".to_string()));
    assert!(!is_running(&vec![], &name));
}

#[test]
fn stop_plan() {
    let name = "AdskNLM.exe".to_string();
    assert_eq!(plan_stop(&sample(), &name), StopPlan::Kill(vec![10, 13]));
    assert_eq!(plan_stop(&vec![entry(1, "a")], &name), StopPlan::NotRunning);
}

#[test]
fn waiting_for_processes() {
    assert_eq!(wait_verdict(0, 2), WaitStep { report: true, outcome: WaitOutcome::KeepWaiting });
    assert_eq!(wait_verdict(1, 2), WaitStep { report: false, outcome: WaitOutcome::KeepWaiting });
    assert_eq!(wait_verdict(5, 0), WaitStep { report: true, outcome: WaitOutcome::Stopped { secs: 6 } });
    assert_eq!(wait_verdict(7, 0), WaitStep { report: false, outcome: WaitOutcome::Stopped { secs: 8 } });
    assert_eq!(wait_verdict(28, 1).outcome, WaitOutcome::KeepWaiting);
    assert_eq!(wait_verdict(29, 1), WaitStep { report: false, outcome: WaitOutcome::GaveUp });
    assert_eq!(wait_verdict(29, 0).outcome, WaitOutcome::Stopped { secs: 30 });
}

#[test]
fn removal_tally() {
    assert_eq!(count_removals(&vec![]), (0, 0));
    assert_eq!(count_removals(&vec![true, false, true, true, false]), (3, 2));
    assert_eq!(count_removals(&vec![false]), (0, 1));
}
