use keyboard_sender::smart::detect_single_char;
use keyboard_sender::smart::is_special_key_name;
use keyboard_sender::type_auto;
use keyboard_sender::type_multiple;
use keyboard_sender::type_with_delay;
use keyboard_sender::types::Destination;
use keyboard_sender::types::DurationValue;
use keyboard_sender::types::KeyEvent;

#[test]
fn test_detect_single_char() {
    assert_eq!(detect_single_char("a"), Some('a'));
    assert_eq!(detect_single_char("1"), Some('1'));
    assert_eq!(detect_single_char(" "), None);
    assert_eq!(detect_single_char("enter"), None);
    assert_eq!(detect_single_char("abc"), None);
}

#[test]
fn test_is_special_key_name() {
    assert!(is_special_key_name("enter"));
    assert!(is_special_key_name("ENTER"));
    assert!(is_special_key_name("space"));
    assert!(is_special_key_name("f1"));
    assert!(!is_special_key_name("a"));
    assert!(!is_special_key_name("1"));
    assert!(!is_special_key_name("abc"));
}

#[test]
fn test_smart_functions() {
    assert!(type_auto("Hello").is_ok());
}

#[test]
fn freeform_text_becomes_text_input() {
    let p = type_auto("Hello World").unwrap();
    assert_eq!(p.len(), 11);
    let expected: Vec<char> = "Hello World".chars().collect();
    for (ev, c) in p.iter().zip(expected.iter()) {
        match ev {
            KeyEvent::Char { target, ch } => {
                assert_eq!(*target, Destination::Focused);
                assert_eq!(ch, c);
            }
            other => panic!("unexpected event {:?}", other),
        }
    }
}

#[test]
fn named_key_becomes_click() {
    let p = type_auto("enter").unwrap();
    assert_eq!(p.len(), 2);
    match &p[0] {
        KeyEvent::Press { key, .. } => assert!(key.name().eq_ignore_ascii_case("Enter")),
        other => panic!("unexpected event {:?}", other),
    }
    assert!(matches!(&p[1], KeyEvent::Release { .. }));
}

#[test]
fn named_modifier_clicks_its_key() {
    let p = type_auto("ctrl").unwrap();
    assert_eq!(p.len(), 2);
    match &p[0] {
        KeyEvent::Press { key, .. } => assert_eq!(key.name(), "Control"),
        other => panic!("unexpected event {:?}", other),
    }
}

#[test]
fn shortcut_string_becomes_combination() {
    let p = type_auto("ctrl+s").unwrap();
    assert_eq!(p.len(), 4);
    match (&p[0], &p[1], &p[2], &p[3]) {
        (
            KeyEvent::Press { key: m1, .. },
            KeyEvent::Press { key: k1, .. },
            KeyEvent::Release { key: k2, .. },
            KeyEvent::Release { key: m2, .. },
        ) => {
            assert_eq!(m1.name(), "Control");
            assert!(k1.name().eq_ignore_ascii_case("S"));
            assert!(k2.name().eq_ignore_ascii_case("S"));
            assert_eq!(m2.name(), "Control");
        }
        other => panic!("unexpected events {:?}", other),
    }
}

#[test]
fn single_letter_clicks_uppercased_key() {
    let p = type_auto("a").unwrap();
    assert_eq!(p.len(), 2);
    match &p[0] {
        KeyEvent::Press { key, .. } => assert_eq!(key.name(), "A"),
        other => panic!("unexpected event {:?}", other),
    }
}

#[test]
fn single_digit_clicks_digit_key() {
    let p = type_auto("5").unwrap();
    assert_eq!(p.len(), 2);
    match &p[0] {
        KeyEvent::Press { key, .. } => assert_eq!(key.name(), "D5"),
        other => panic!("unexpected event {:?}", other),
    }
}

#[test]
fn lone_space_falls_through_to_text() {
    let p = type_auto(" ").unwrap();
    assert_eq!(p.len(), 1);
    assert!(matches!(&p[0], KeyEvent::Char { ch: ' ', .. }));
}

#[test]
fn single_non_ascii_char_is_injected_literally() {
    let p = type_auto("é").unwrap();
    assert_eq!(p.len(), 1);
    assert!(matches!(&p[0], KeyEvent::Char { ch: 'é', .. }));
}

#[test]
fn uppercase_alias_resolves_too() {
    let p = type_auto("RETURN").unwrap();
    assert_eq!(p.len(), 2);
    match &p[0] {
        KeyEvent::Press { key, .. } => assert_eq!(key.name(), "Enter"),
        other => panic!("unexpected event {:?}", other),
    }
}

#[test]
fn empty_input_is_a_no_op() {
    let p = type_auto("").unwrap();
    assert_eq!(p.len(), 0);
}

#[test]
fn unknown_shortcut_tokens_are_skipped_in_fallback() {
    let p = type_auto("blorp+s").unwrap();
    assert_eq!(p.len(), 2);
    match &p[0] {
        KeyEvent::Press { key, .. } => assert!(key.name().eq_ignore_ascii_case("S")),
        other => panic!("unexpected event {:?}", other),
    }
}

#[test]
fn hopeless_shortcut_becomes_text() {
    let p = type_auto("blorp+zzz").unwrap();
    let expected: Vec<char> = "blorp+zzz".chars().collect();
    assert_eq!(p.len(), expected.len());
    for (ev, c) in p.iter().zip(expected.iter()) {
        assert!(matches!(ev, KeyEvent::Char { ch, .. } if ch == c));
    }
}

#[test]
fn multiple_inputs_are_separated_by_waits() {
    let inputs = vec![String::from("ab"), String::from("cd")];
    let p = type_multiple(&inputs).unwrap();
    assert_eq!(p.len(), 5);
    assert!(matches!(&p[0], KeyEvent::Char { ch: 'a', .. }));
    assert!(matches!(&p[1], KeyEvent::Char { ch: 'b', .. }));
    assert!(
        matches!(&p[2], KeyEvent::Wait { duration } if *duration == DurationValue::Millis(20))
    );
    assert!(matches!(&p[3], KeyEvent::Char { ch: 'c', .. }));
    assert!(matches!(&p[4], KeyEvent::Char { ch: 'd', .. }));
}

#[test]
fn delayed_typing_waits_after_every_character() {
    let p = type_with_delay("Hi", DurationValue::Millis(50)).unwrap();
    assert_eq!(p.len(), 6);
    match &p[0] {
        KeyEvent::Press { key, .. } => assert_eq!(key.name(), "H"),
        other => panic!("unexpected event {:?}", other),
    }
    assert!(matches!(&p[1], KeyEvent::Release { .. }));
    assert!(
        matches!(&p[2], KeyEvent::Wait { duration } if *duration == DurationValue::Millis(50))
    );
    match &p[3] {
        KeyEvent::Press { key, .. } => assert_eq!(key.name(), "I"),
        other => panic!("unexpected event {:?}", other),
    }
    assert!(matches!(&p[5], KeyEvent::Wait { .. }));
}
