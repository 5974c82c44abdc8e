use pwr_cap_rs::state::{parse_connected, parse_power_mode, PowerMode, System, SystemReadError};
use pwr_cap_rs::text::{str_eq, trim_str};

#[test]
fn recognized_modes_parse_after_trimming() {
    assert_eq!(parse_power_mode("quiet").unwrap(), PowerMode::Quiet);
    assert_eq!(parse_power_mode("quiet\n").unwrap(), PowerMode::Quiet);
    assert_eq!(parse_power_mode("balanced\n").unwrap(), PowerMode::Balanced);
    assert_eq!(parse_power_mode(" performance \r\n").unwrap(), PowerMode::Performance);
}

#[test]
fn unrecognized_mode_fails_with_the_raw_value() {
    let r = parse_power_mode("power-saver\n");
    match r {
        Err(SystemReadError::UnknownPowerMode(raw)) => assert_eq!(raw, "power-saver\n"),
        _ => panic!("expected an unknown-power-mode error"),
    }
}

#[test]
fn empty_and_whitespace_only_modes_fail() {
    assert!(matches!(
        parse_power_mode(""),
        Err(SystemReadError::UnknownPowerMode(_))
    ));
    assert!(matches!(
        parse_power_mode(" \t\r\n"),
        Err(SystemReadError::UnknownPowerMode(_))
    ));
}

#[test]
fn mode_matching_is_case_sensitive_and_exact() {
    assert!(parse_power_mode("QUIET").is_err());
    assert!(parse_power_mode("quiet mode").is_err());
    assert!(parse_power_mode("balance").is_err());
}

#[test]
fn connectivity_is_one_after_trimming() {
    assert!(parse_connected("1"));
    assert!(parse_connected("1\n"));
    assert!(parse_connected(" 1 "));
}

#[test]
fn any_other_connectivity_value_means_battery() {
    assert!(!parse_connected("0\n"));
    assert!(!parse_connected(""));
    assert!(!parse_connected("2"));
    assert!(!parse_connected("on"));
    assert!(!parse_connected("11"));
}

#[test]
fn system_combines_both_parsed_values() {
    let sys = System::new("balanced\n", "1\n").unwrap();
    assert_eq!(sys.power_profile, PowerMode::Balanced);
    assert!(sys.plugged);

    let sys = System::new("quiet\n", "0\n").unwrap();
    assert_eq!(sys.power_profile, PowerMode::Quiet);
    assert!(!sys.plugged);
}

#[test]
fn system_fails_on_unknown_mode_whatever_the_connectivity() {
    let r = System::new("turbo\n", "1\n");
    match r {
        Err(SystemReadError::UnknownPowerMode(raw)) => assert_eq!(raw, "turbo\n"),
        _ => panic!("expected an unknown-power-mode error"),
    }
}

#[test]
fn unavailable_source_error_carries_its_source() {
    let e = SystemReadError::Unavailable(String::from("platform_profile"));
    assert!(matches!(e, SystemReadError::Unavailable(s) if s == "platform_profile"));
}

#[test]
fn trimming_strips_both_ends_only() {
    assert_eq!(trim_str("  a b\t\n"), "a b");
    assert_eq!(trim_str("quiet"), "quiet");
    assert_eq!(trim_str(" \t\r\n"), "");
    assert_eq!(trim_str(""), "");
}

#[test]
fn trimming_removes_every_unicode_whitespace_character() {
    assert_eq!(trim_str("quiet\u{000B}"), "quiet");
    assert_eq!(trim_str("\u{000C}quiet\u{0085}"), "quiet");
    assert_eq!(trim_str("\u{00A0}\u{1680}quiet\u{2000}\u{200A}"), "quiet");
    assert_eq!(trim_str("\u{2028}\u{2029}1\u{202F}\u{205F}\u{3000}"), "1");
}

#[test]
fn trimming_agrees_with_std_trim() {
    let samples = [
        "quiet\u{000B}\n",
        "\u{000C}balanced\u{0085}",
        "\u{00A0}performance\u{3000}",
        " 1\u{2006} ",
        "\u{200B}zero width space is not whitespace\u{200B}",
        "\u{2005}\u{2009}",
        "a\u{000B}b",
        "",
    ];
    for s in samples {
        assert_eq!(trim_str(s), s.trim());
    }
}

#[test]
fn mode_parses_with_unicode_whitespace_around_it() {
    assert_eq!(parse_power_mode("quiet\u{000B}").unwrap(), PowerMode::Quiet);
    assert_eq!(parse_power_mode("\u{00A0}balanced\u{0085}").unwrap(), PowerMode::Balanced);
    assert_eq!(
        parse_power_mode("\u{3000}performance\u{2028}\n").unwrap(),
        PowerMode::Performance
    );
}

#[test]
fn connectivity_is_recognized_with_unicode_whitespace_around_it() {
    assert!(parse_connected("1\u{000B}"));
    assert!(parse_connected("\u{202F}1\u{000C}\n"));
}

#[test]
fn system_accepts_unicode_whitespace_around_both_readings() {
    let sys = System::new("quiet\u{000B}", "1\u{000B}").unwrap();
    assert_eq!(sys.power_profile, PowerMode::Quiet);
    assert!(sys.plugged);
}

#[test]
fn string_equality_is_exact() {
    assert!(str_eq("quiet", "quiet"));
    assert!(!str_eq("quiet", "quiet "));
    assert!(!str_eq("quiet", "quieT"));
    assert!(!str_eq("", "x"));
    assert!(str_eq("", ""));
}
