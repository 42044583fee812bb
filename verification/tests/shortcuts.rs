use keyboard_sender::error::KeyboardSenderError;
use keyboard_sender::parser::command::shortcut;
use keyboard_sender::parser::shortcut::decompose_shortcut;
use keyboard_sender::types::Destination;
use keyboard_sender::types::KeyEvent;
use keyboard_sender::types::ModifierId;

#[test]
fn decompose_ctrl_c() {
    let (mods, key) = decompose_shortcut("ctrl+c").unwrap();
    assert_eq!(mods, vec![ModifierId::Control]);
    assert!(key.name().eq_ignore_ascii_case("C"));
}

#[test]
fn decompose_ctrl_alt_delete_keeps_modifier_order() {
    let (mods, key) = decompose_shortcut("ctrl+alt+delete").unwrap();
    assert_eq!(mods, vec![ModifierId::Control, ModifierId::Alt]);
    assert!(key.name().eq_ignore_ascii_case("Delete"));
}

#[test]
fn decompose_normalizes_aliases() {
    let (mods, key) = decompose_shortcut("win+esc").unwrap();
    assert_eq!(mods, vec![ModifierId::Meta]);
    assert_eq!(key.name(), "Escape");
}

#[test]
fn decompose_trims_tokens() {
    let (mods, key) = decompose_shortcut(" ctrl + s ").unwrap();
    assert_eq!(mods, vec![ModifierId::Control]);
    assert!(key.name().eq_ignore_ascii_case("S"));
}

#[test]
fn decompose_last_key_token_wins() {
    let (mods, key) = decompose_shortcut("ctrl+x+c").unwrap();
    assert_eq!(mods, vec![ModifierId::Control]);
    assert!(key.name().eq_ignore_ascii_case("C"));
}

#[test]
fn lone_plus_is_a_parse_error() {
    let e = decompose_shortcut("+");
    assert!(matches!(e, Err(KeyboardSenderError::ParseError(_))));
}

#[test]
fn all_modifiers_without_key_is_a_parse_error() {
    let e = decompose_shortcut("ctrl+shift");
    match e {
        Err(KeyboardSenderError::ParseError(m)) => {
            assert_eq!(m, "No main key found in shortcut");
        }
        other => panic!("expected ParseError, got {:?}", other),
    }
}

#[test]
fn unknown_token_is_a_parse_error() {
    let e = decompose_shortcut("ctrl+blorp+c");
    match e {
        Err(KeyboardSenderError::ParseError(m)) => assert_eq!(m, "blorp"),
        other => panic!("expected ParseError, got {:?}", other),
    }
}

#[test]
fn shortcut_plans_nested_press_release() {
    let plan = shortcut("ctrl+c").unwrap();
    assert_eq!(plan.len(), 4);
    match &plan[0] {
        KeyEvent::Press { target, key } => {
            assert_eq!(*target, Destination::Focused);
            assert_eq!(key.name(), "Control");
        }
        other => panic!("unexpected event {:?}", other),
    }
    match &plan[1] {
        KeyEvent::Press { key, .. } => assert!(key.name().eq_ignore_ascii_case("C")),
        other => panic!("unexpected event {:?}", other),
    }
    match &plan[2] {
        KeyEvent::Release { key, .. } => assert!(key.name().eq_ignore_ascii_case("C")),
        other => panic!("unexpected event {:?}", other),
    }
    match &plan[3] {
        KeyEvent::Release { key, .. } => assert_eq!(key.name(), "Control"),
        other => panic!("unexpected event {:?}", other),
    }
}
