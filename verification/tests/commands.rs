use keyboard_sender::error::KeyboardSenderError;
use keyboard_sender::parser::command::parse_command_params;
use keyboard_sender::parser::command::resolve_params;
use keyboard_sender::parser::command::send;
use keyboard_sender::types::Action;
use keyboard_sender::types::Destination;
use keyboard_sender::types::DurationValue;
use keyboard_sender::types::KeyEvent;

#[test]
fn test_command_parser() {
    send("key:a").unwrap();
    send("char:b").unwrap();
    send("text:hello").unwrap();
    send("shortcut:ctrl+c").unwrap();
}

#[test]
fn key_takes_precedence_over_text() {
    let params = parse_command_params("key:a,text:hello");
    let (action, dest) = resolve_params(&params).unwrap();
    match action {
        Action::KeyClick(k, d) => {
            assert_eq!(k.name(), "a");
            assert_eq!(d, None);
        }
        other => panic!("expected KeyClick, got {:?}", other),
    }
    assert_eq!(dest, Destination::Focused);
}

#[test]
fn resolving_twice_yields_equal_plans() {
    let a = send("key:a,hwnd:3,duration:50ms").unwrap();
    let b = send("key:a,hwnd:3,duration:50ms").unwrap();
    assert_eq!(a, b);
}

#[test]
fn explicit_action_verbs() {
    let p = send("action:key_down,key:a").unwrap();
    assert_eq!(p.len(), 1);
    assert!(matches!(&p[0], KeyEvent::Press { .. }));
    let p = send("action:keyup,key:a").unwrap();
    assert_eq!(p.len(), 1);
    assert!(matches!(&p[0], KeyEvent::Release { .. }));
    let p = send("type:key_click,key:a,duration:10ms").unwrap();
    assert_eq!(p.len(), 3);
    assert!(
        matches!(&p[1], KeyEvent::Wait { duration } if *duration == DurationValue::Millis(10))
    );
    let p = send("action:char,char:xyz").unwrap();
    assert_eq!(p.len(), 1);
    assert!(matches!(&p[0], KeyEvent::Char { ch: 'x', .. }));
    let p = send("action:text,text:hi").unwrap();
    assert_eq!(p.len(), 2);
    assert!(matches!(&p[0], KeyEvent::Char { ch: 'h', .. }));
    assert!(matches!(&p[1], KeyEvent::Char { ch: 'i', .. }));
}

#[test]
fn unknown_action_is_reported_verbatim() {
    match send("action:bogus,key:a") {
        Err(KeyboardSenderError::CommandParseError(m)) => {
            assert_eq!(m, "Unknown action: bogus");
        }
        other => panic!("expected CommandParseError, got {:?}", other),
    }
}

#[test]
fn missing_required_field_is_named() {
    match send("action:key_down") {
        Err(KeyboardSenderError::CommandParseError(m)) => assert_eq!(m, "Missing field: key"),
        other => panic!("expected CommandParseError, got {:?}", other),
    }
    match send("action:char") {
        Err(KeyboardSenderError::CommandParseError(m)) => assert_eq!(m, "Missing field: char"),
        other => panic!("expected CommandParseError, got {:?}", other),
    }
    match send("action:text") {
        Err(KeyboardSenderError::CommandParseError(m)) => assert_eq!(m, "Missing field: text"),
        other => panic!("expected CommandParseError, got {:?}", other),
    }
}

#[test]
fn empty_command_is_refused() {
    match send("nothing to see") {
        Err(KeyboardSenderError::CommandParseError(m)) => {
            assert_eq!(m, "No valid command found");
        }
        other => panic!("expected CommandParseError, got {:?}", other),
    }
}

#[test]
fn unresolvable_key_is_unsupported() {
    match send("key:blorp") {
        Err(KeyboardSenderError::UnsupportedKey(m)) => assert_eq!(m, "blorp"),
        other => panic!("expected UnsupportedKey, got {:?}", other),
    }
}

#[test]
fn bad_hwnd_fails_before_anything_else() {
    match send("key:a,hwnd:zzz") {
        Err(KeyboardSenderError::InvalidWindowHandle(m)) => assert_eq!(m, "zzz"),
        other => panic!("expected InvalidWindowHandle, got {:?}", other),
    }
}

#[test]
fn hwnd_routes_to_window() {
    let p = send("key:a,hwnd:123456").unwrap();
    assert_eq!(p.len(), 2);
    match &p[0] {
        KeyEvent::Press { target, key } => {
            assert_eq!(*target, Destination::Window(123456));
            assert_eq!(key.name(), "a");
        }
        other => panic!("unexpected event {:?}", other),
    }
}

#[test]
fn hwnd_zero_means_focused() {
    let p = send("key:a,hwnd:0x0").unwrap();
    assert!(matches!(&p[0], KeyEvent::Press { target: Destination::Focused, .. }));
}

#[test]
fn bad_duration_fails_the_command() {
    match send("key:a,duration:banana") {
        Err(KeyboardSenderError::InvalidDuration(m)) => assert_eq!(m, "banana"),
        other => panic!("expected InvalidDuration, got {:?}", other),
    }
    match send("action:text,text:hi,duration:banana") {
        Err(KeyboardSenderError::InvalidDuration(m)) => assert_eq!(m, "banana"),
        other => panic!("expected InvalidDuration, got {:?}", other),
    }
    match send("shortcut:ctrl+c,duration:2x") {
        Err(KeyboardSenderError::InvalidDuration(m)) => assert_eq!(m, "2x"),
        other => panic!("expected InvalidDuration, got {:?}", other),
    }
}

#[test]
fn duration_attaches_to_clicks() {
    let p = send("key:a,duration:50ms").unwrap();
    assert_eq!(p.len(), 3);
    assert!(
        matches!(&p[1], KeyEvent::Wait { duration } if *duration == DurationValue::Millis(50))
    );
}

#[test]
fn shortcut_field_wins_and_goes_to_focus() {
    let p = send("shortcut:ctrl+c,key:x,hwnd:7").unwrap();
    assert_eq!(p.len(), 4);
    match &p[0] {
        KeyEvent::Press { target, key } => {
            assert_eq!(*target, Destination::Focused);
            assert_eq!(key.name(), "Control");
        }
        other => panic!("unexpected event {:?}", other),
    }
}
