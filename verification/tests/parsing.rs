use keyboard_sender::error::KeyboardSenderError;
use keyboard_sender::parser::command::parse_command_params;
use keyboard_sender::parser::command::parse_hwnd;
use keyboard_sender::parser::duration::parse_duration;
use keyboard_sender::types::DurationValue;

#[test]
fn duration_millis_round_trip() {
    assert_eq!(parse_duration("250ms").unwrap(), DurationValue::Millis(250));
    assert_eq!(parse_duration("20ms").unwrap(), DurationValue::Millis(20));
    assert_eq!(parse_duration("0ms").unwrap(), DurationValue::Millis(0));
    assert_eq!(parse_duration("500ms").unwrap(), DurationValue::Millis(500));
}

#[test]
fn duration_secs_round_trip() {
    assert_eq!(parse_duration("2s").unwrap(), DurationValue::Secs(2));
    assert_eq!(parse_duration("1s").unwrap(), DurationValue::Secs(1));
    assert_eq!(parse_duration("3600s").unwrap(), DurationValue::Secs(3600));
}

#[test]
fn duration_rejects_everything_else() {
    for bad in [
        "", "ms", "s", "5", "5m", "-5s", "+5s", " 5s", "5s ", "5 s", "5sms", "5ms5", "abcms",
        "5.5s",
    ] {
        let e = parse_duration(bad);
        assert!(
            matches!(e, Err(KeyboardSenderError::InvalidDuration(ref m)) if m == bad),
            "expected InvalidDuration for {:?}",
            bad
        );
    }
}

#[test]
fn duration_overflow_names_the_number() {
    let e = parse_duration("99999999999999999999999ms");
    match e {
        Err(KeyboardSenderError::InvalidDuration(m)) => {
            assert_eq!(m, "Invalid number: 99999999999999999999999");
        }
        other => panic!("expected InvalidDuration, got {:?}", other),
    }
}

#[test]
fn duration_boundary_values() {
    assert_eq!(
        parse_duration("18446744073709551615ms").unwrap(),
        DurationValue::Millis(u64::MAX)
    );
    assert_eq!(parse_duration("18446744073709551615s").unwrap(), DurationValue::Secs(u64::MAX));
    match parse_duration("18446744073709551616ms") {
        Err(KeyboardSenderError::InvalidDuration(m)) => {
            assert_eq!(m, "Invalid number: 18446744073709551616");
        }
        other => panic!("expected InvalidDuration, got {:?}", other),
    }
}

#[test]
fn hwnd_boundary_values() {
    assert_eq!(parse_hwnd("9223372036854775807").unwrap(), isize::MAX);
    assert_eq!(parse_hwnd("-9223372036854775808").unwrap(), isize::MIN);
    assert_eq!(parse_hwnd("0x7fffffffffffffff").unwrap(), isize::MAX);
    assert!(parse_hwnd("9223372036854775808").is_err());
    assert!(parse_hwnd("-9223372036854775809").is_err());
    assert!(parse_hwnd("0x8000000000000000").is_err());
}

#[test]
fn hwnd_empty_is_zero() {
    assert_eq!(parse_hwnd("").unwrap(), 0);
}

#[test]
fn hwnd_hex_and_decimal() {
    assert_eq!(parse_hwnd("0x1A2B").unwrap(), 6699);
    assert_eq!(parse_hwnd("0x1a2b").unwrap(), 6699);
    assert_eq!(parse_hwnd("123456").unwrap(), 123456);
    assert_eq!(parse_hwnd("0").unwrap(), 0);
    assert_eq!(parse_hwnd("-42").unwrap(), -42);
    assert_eq!(parse_hwnd("+42").unwrap(), 42);
}

#[test]
fn hwnd_rejects_garbage() {
    for bad in ["notanumber", "0x", "-", "+", "12x", "0xZZ", " 5", "99999999999999999999999999"] {
        let e = parse_hwnd(bad);
        assert!(
            matches!(e, Err(KeyboardSenderError::InvalidWindowHandle(ref m)) if m == bad),
            "expected InvalidWindowHandle for {:?}",
            bad
        );
    }
}

#[test]
fn extract_three_fields_exactly() {
    let m = parse_command_params("key:a,hwnd:123456,duration:50ms");
    assert_eq!(m.n_fields(), 3);
    assert_eq!(m.get("key").unwrap(), "a");
    assert_eq!(m.get("hwnd").unwrap(), "123456");
    assert_eq!(m.get("duration").unwrap(), "50ms");
    assert!(m.get("action").is_none());
}

#[test]
fn extract_first_occurrence_wins() {
    let m = parse_command_params("key:a,key:b");
    assert_eq!(m.n_fields(), 1);
    assert_eq!(m.get("key").unwrap(), "a");
}

#[test]
fn extract_value_runs_to_comma() {
    let m = parse_command_params("text:hello world,key:a");
    assert_eq!(m.get("text").unwrap(), "hello world");
    assert_eq!(m.get("key").unwrap(), "a");
}

#[test]
fn extract_value_may_hold_colons() {
    let m = parse_command_params("a:b:c");
    assert_eq!(m.n_fields(), 1);
    assert_eq!(m.get("a").unwrap(), "b:c");
}

#[test]
fn extract_ignores_unmatched_text() {
    let m = parse_command_params("!! key:a ,, stray");
    assert_eq!(m.n_fields(), 1);
    assert_eq!(m.get("key").unwrap(), "a ");
    let empty = parse_command_params("");
    assert_eq!(empty.n_fields(), 0);
    let none = parse_command_params("no fields here");
    assert_eq!(none.n_fields(), 0);
}
