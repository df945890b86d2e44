use nlm_reinstall::age::{describe_age, format_timestamp};
use nlm_reinstall::decimal::{decimal_string, parse_u64};
use nlm_reinstall::script::{runonce_command, RUNONCE_PREFIX, RUNONCE_SUFFIX};

#[test]
fn decimal_text_of_numbers() {
    assert_eq!(decimal_string(0), "0");
    assert_eq!(decimal_string(7), "7");
    assert_eq!(decimal_string(10), "10");
    assert_eq!(decimal_string(1700000000), "1700000000");
    assert_eq!(decimal_string(u64::MAX), "18446744073709551615");
}

#[test]
fn parse_accepts_what_std_accepts() {
    for s in ["0", "42", "+42", "0012", "18446744073709551615", "1700000000"] {
        assert_eq!(parse_u64(s), s.parse::<u64>().ok(), "input {:?}", s);
    }
    assert_eq!(parse_u64("+42"), Some(42));
    assert_eq!(parse_u64("0012"), Some(12));
}

#[test]
fn parse_rejects_what_std_rejects() {
    for s in ["", "+", "-", "-0", "-5", " 5", "5 ", "1_000", "12a", "18446744073709551616",
        "99999999999999999999", "++1", "٣", "+-1"] {
        assert_eq!(parse_u64(s), None, "input {:?}", s);
        assert_eq!(s.parse::<u64>().ok(), None, "input {:?}", s);
    }
}

#[test]
fn marker_text_reads_back() {
    for n in [0u64, 1, 9, 10, 99, 100, 300, 1_700_000_000, u64::MAX - 1, u64::MAX] {
        assert_eq!(parse_u64(&decimal_string(n)), Some(n));
        assert_eq!(decimal_string(n), n.to_string());
    }
}

#[test]
fn age_units() {
    assert_eq!(describe_age(100, Some(100)), "0 сек назад");
    assert_eq!(describe_age(100, Some(159)), "59 сек назад");
    assert_eq!(describe_age(100, Some(160)), "1 мин назад");
    assert_eq!(describe_age(0, Some(3599)), "59 мин назад");
    assert_eq!(describe_age(0, Some(3600)), "1 ч назад");
    assert_eq!(describe_age(0, Some(86399)), "23 ч назад");
    assert_eq!(describe_age(0, Some(86400)), "1 дн назад");
    assert_eq!(describe_age(0, Some(10 * 86400 + 5)), "10 дн назад");
}

#[test]
fn age_of_future_and_unknown_clock() {
    assert_eq!(describe_age(101, Some(100)), "будущее");
    assert_eq!(describe_age(1234, None), "1234");
}

#[test]
fn age_against_the_real_clock() {
    let now = std::time::SystemTime::now()
        .duration_since(std::time::UNIX_EPOCH)
        .unwrap()
        .as_secs();
    let text = format_timestamp(now);
    assert!(text.ends_with(" сек назад"), "{}", text);
    assert_eq!(format_timestamp(now + 100_000), "будущее");
    assert_eq!(format_timestamp(now - 2 * 86400 - 10), "2 дн назад");
}

#[test]
fn runonce_command_wraps_the_path() {
    let exe = r"C:\Tools\nlm update.exe";
    let cmd = runonce_command(exe);
    assert_eq!(
        cmd,
        r#"powershell.exe -ExecutionPolicy Bypass -WindowStyle Normal -Command "Start-Process 'C:\Tools\nlm update.exe' -Verb RunAs""#
    );
    assert_eq!(cmd, format!("{}{}{}", RUNONCE_PREFIX, exe, RUNONCE_SUFFIX));
}
