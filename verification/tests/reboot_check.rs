use nlm_reinstall::clock::{get_system_uptime, unix_seconds_now};
use nlm_reinstall::decimal::decimal_string;
use nlm_reinstall::launch::{decide_launch, LaunchMode};
use nlm_reinstall::reboot::{
    check_if_rebooted, flag_is_set, reboot_by_clock, reboot_by_marker, reboot_by_uptime, RebootEvidence,
    RECENT_BOOT_SECS,
};

fn s(v: &str) -> Option<String> {
    Some(v.to_string())
}

#[test]
fn flag_must_be_exactly_one() {
    assert!(flag_is_set(&s("1")));
    assert!(!flag_is_set(&None));
    assert!(!flag_is_set(&s("")));
    assert!(!flag_is_set(&s("0")));
    assert!(!flag_is_set(&s("11")));
    assert!(!flag_is_set(&s(" 1")));
    assert!(!flag_is_set(&s("١")));
}

#[test]
fn marker_older_than_boot_means_reboot() {
    let e = reboot_by_marker(1000, 500, 2000);
    assert_eq!(e, RebootEvidence::BootAfterMarker { saved: 1000, boot: 1500 });
    assert!(e.confirms_reboot());
}

#[test]
fn marker_at_or_after_boot_means_no_reboot() {
    let e = reboot_by_marker(1500, 500, 2000);
    assert_eq!(e, RebootEvidence::BootBeforeMarker { saved: 1500, boot: 1500 });
    assert!(!e.confirms_reboot());
    let e = reboot_by_marker(1800, 500, 2000);
    assert_eq!(e, RebootEvidence::BootBeforeMarker { saved: 1800, boot: 1500 });
}

#[test]
fn uptime_fallback() {
    assert_eq!(reboot_by_uptime(false, Ok(5)), RebootEvidence::NoMarker);
    assert_eq!(reboot_by_uptime(true, Ok(299)), RebootEvidence::RecentBoot { uptime: 299 });
    assert_eq!(reboot_by_uptime(true, Ok(RECENT_BOOT_SECS)), RebootEvidence::Unconfirmed);
    assert_eq!(reboot_by_uptime(true, Err("no uptime".to_string())), RebootEvidence::Unconfirmed);
    assert!(RebootEvidence::RecentBoot { uptime: 1 }.confirms_reboot());
    assert!(!RebootEvidence::Unconfirmed.confirms_reboot());
    assert!(!RebootEvidence::NoMarker.confirms_reboot());
    assert!(!RebootEvidence::ClockBehindUptime { now: 1, uptime: 2 }.confirms_reboot());
}

#[test]
fn nothing_set_means_first_run() {
    assert_eq!(check_if_rebooted(&None, &None), RebootEvidence::NoMarker);
    assert_eq!(check_if_rebooted(&s("not a number"), &s("0")), RebootEvidence::NoMarker);
}

#[test]
fn marker_from_before_boot_confirms() {
    // A marker at the epoch predates any boot of this machine.
    match check_if_rebooted(&s("0"), &s("1")) {
        RebootEvidence::BootAfterMarker { saved, boot } => {
            assert_eq!(saved, 0);
            assert!(boot > 0);
        }
        other => panic!("unexpected {:?}", other),
    }
}

#[test]
fn marker_written_now_does_not_confirm() {
    let now = unix_seconds_now().unwrap();
    let text = decimal_string(now + 10);
    match check_if_rebooted(&Some(text), &s("1")) {
        RebootEvidence::BootBeforeMarker { saved, .. } => assert_eq!(saved, now + 10),
        other => panic!("unexpected {:?}", other),
    }
}

#[test]
fn unreadable_marker_falls_back_to_uptime() {
    let uptime = get_system_uptime().unwrap();
    let e = check_if_rebooted(&s("+"), &s("1"));
    if uptime + 5 < RECENT_BOOT_SECS {
        assert!(matches!(e, RebootEvidence::RecentBoot { .. }));
    } else if uptime > RECENT_BOOT_SECS + 5 {
        assert_eq!(e, RebootEvidence::Unconfirmed);
    }
}

#[test]
fn clocks_are_readable() {
    let now = unix_seconds_now().expect("clock after the epoch");
    assert!(now > 1_600_000_000);
    let uptime = get_system_uptime().unwrap();
    assert!(uptime <= now);
}

#[test]
fn launch_modes() {
    assert_eq!(decide_launch(&s("1"), true), LaunchMode::ResumeAfterReboot);
    assert_eq!(decide_launch(&s("1"), false), LaunchMode::StaleMarker);
    assert_eq!(decide_launch(&None, true), LaunchMode::FirstRun);
    assert_eq!(decide_launch(&s("yes"), true), LaunchMode::FirstRun);
    assert!(LaunchMode::ResumeAfterReboot.cleans_flags_first());
    assert!(LaunchMode::StaleMarker.cleans_flags_first());
    assert!(!LaunchMode::FirstRun.cleans_flags_first());
    assert!(LaunchMode::ResumeAfterReboot.runs_second_phase());
    assert!(!LaunchMode::StaleMarker.runs_second_phase());
    assert!(!LaunchMode::FirstRun.runs_second_phase());
}

#[test]
fn clock_readings_decide_a_readable_marker() {
    assert_eq!(
        reboot_by_clock(1000, 500, Some(2000)),
        RebootEvidence::BootAfterMarker { saved: 1000, boot: 1500 }
    );
    assert_eq!(
        reboot_by_clock(1500, 500, Some(2000)),
        RebootEvidence::BootBeforeMarker { saved: 1500, boot: 1500 }
    );
    assert_eq!(
        reboot_by_clock(1000, 2500, Some(2000)),
        RebootEvidence::ClockBehindUptime { now: 2000, uptime: 2500 }
    );
    assert_eq!(
        reboot_by_clock(0, 5, None),
        RebootEvidence::ClockBehindUptime { now: 0, uptime: 5 }
    );
    assert_eq!(reboot_by_clock(0, 0, None), RebootEvidence::BootBeforeMarker { saved: 0, boot: 0 });
}

#[test]
fn readable_marker_takes_precedence_over_flag() {
    for flag in [None, s("1"), s("0"), s("")] {
        match check_if_rebooted(&s("0"), &flag) {
            RebootEvidence::BootAfterMarker { saved, .. } => assert_eq!(saved, 0),
            other => panic!("unexpected {:?}", other),
        }
    }
}
