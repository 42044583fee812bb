use keyboard_sender::convenience::send_backspace;
use keyboard_sender::convenience::send_delete;
use keyboard_sender::convenience::send_enter;
use keyboard_sender::convenience::send_escape;
use keyboard_sender::convenience::send_space;
use keyboard_sender::convenience::send_tab;
use keyboard_sender::planner::dispatch::dispatch;
use keyboard_sender::planner::global::key_click;
use keyboard_sender::planner::global::key_down;
use keyboard_sender::planner::global::key_up;
use keyboard_sender::planner::global::press_combination;
use keyboard_sender::planner::global::send_char;
use keyboard_sender::planner::global::type_string;
use keyboard_sender::planner::modifier_to_key;
use keyboard_sender::planner::window_target::send_key_click_to_window;
use keyboard_sender::planner::window_target::type_string_to_window;
use keyboard_sender::resolver::resolve_key;
use keyboard_sender::resolver::resolve_modifier;
use keyboard_sender::types::Action;
use keyboard_sender::types::Destination;
use keyboard_sender::types::DurationValue;
use keyboard_sender::types::KeyEvent;
use keyboard_sender::types::ModifierId;

fn key_name_of(ev: &KeyEvent) -> String {
    match ev {
        KeyEvent::Press { key, .. } => key.name().clone(),
        KeyEvent::Release { key, .. } => key.name().clone(),
        other => panic!("expected a key event, got {:?}", other),
    }
}

#[test]
fn shortcut_dispatch_orders_presses_and_releases() {
    let delete = resolve_key("delete").unwrap();
    let action = Action::Shortcut(vec![ModifierId::Control, ModifierId::Alt], delete, None);
    let plan = dispatch(&action, Destination::Focused);
    assert_eq!(plan.len(), 6);
    assert!(matches!(&plan[0], KeyEvent::Press { target: Destination::Focused, .. }));
    assert_eq!(key_name_of(&plan[0]), "Control");
    assert!(matches!(&plan[1], KeyEvent::Press { .. }));
    assert_eq!(key_name_of(&plan[1]), "Alt");
    assert!(matches!(&plan[2], KeyEvent::Press { .. }));
    assert!(key_name_of(&plan[2]).eq_ignore_ascii_case("Delete"));
    assert!(matches!(&plan[3], KeyEvent::Release { .. }));
    assert!(key_name_of(&plan[3]).eq_ignore_ascii_case("Delete"));
    assert!(matches!(&plan[4], KeyEvent::Release { .. }));
    assert_eq!(key_name_of(&plan[4]), "Alt");
    assert!(matches!(&plan[5], KeyEvent::Release { .. }));
    assert_eq!(key_name_of(&plan[5]), "Control");
}

#[test]
fn dispatch_normalizes_window_zero() {
    let key = resolve_key("a").unwrap();
    let plan = dispatch(&Action::KeyDown(key), Destination::Window(0));
    assert_eq!(plan.len(), 1);
    assert!(matches!(&plan[0], KeyEvent::Press { target: Destination::Focused, .. }));
}

#[test]
fn key_click_holds_for_the_duration() {
    let key = resolve_key("a").unwrap();
    let plan = key_click(&key, Some(DurationValue::Millis(30)));
    assert_eq!(plan.len(), 3);
    assert!(matches!(&plan[0], KeyEvent::Press { .. }));
    assert!(
        matches!(&plan[1], KeyEvent::Wait { duration } if *duration == DurationValue::Millis(30))
    );
    assert!(matches!(&plan[2], KeyEvent::Release { .. }));
}

#[test]
fn down_and_up_are_single_events() {
    let key = resolve_key("a").unwrap();
    assert_eq!(key_down(&key).len(), 1);
    assert_eq!(key_up(&key).len(), 1);
    assert!(matches!(&key_down(&key)[0], KeyEvent::Press { .. }));
    assert!(matches!(&key_up(&key)[0], KeyEvent::Release { .. }));
}

#[test]
fn send_char_is_one_char_event() {
    let plan = send_char('é');
    assert_eq!(plan.len(), 1);
    assert!(matches!(&plan[0], KeyEvent::Char { ch: 'é', target: Destination::Focused }));
}

#[test]
fn type_string_is_one_event_per_character() {
    let plan = type_string("héllo");
    assert_eq!(plan.len(), 5);
    let expected: Vec<char> = "héllo".chars().collect();
    for (ev, c) in plan.iter().zip(expected.iter()) {
        assert!(matches!(ev, KeyEvent::Char { ch, .. } if ch == c));
    }
}

#[test]
fn window_targeted_plans_carry_the_handle() {
    let key = resolve_key("a").unwrap();
    let plan = send_key_click_to_window(42, &key, None);
    assert_eq!(plan.len(), 2);
    assert!(matches!(&plan[0], KeyEvent::Press { target: Destination::Window(42), .. }));
    let text_plan = type_string_to_window(7, "ok");
    assert_eq!(text_plan.len(), 2);
    assert!(matches!(&text_plan[0], KeyEvent::Char { target: Destination::Window(7), .. }));
}

#[test]
fn press_combination_nests_modifiers() {
    let key = resolve_key("c").unwrap();
    let plan = press_combination(&vec![ModifierId::Shift], &key, None);
    assert_eq!(plan.len(), 4);
    assert_eq!(key_name_of(&plan[0]), "Shift");
    assert_eq!(key_name_of(&plan[3]), "Shift");
}

#[test]
fn modifier_to_key_collapses_variants() {
    assert_eq!(modifier_to_key(ModifierId::LeftShift).name(), "Shift");
    assert_eq!(modifier_to_key(ModifierId::RightControl).name(), "Control");
    assert_eq!(modifier_to_key(ModifierId::Alt).name(), "Alt");
    assert_eq!(modifier_to_key(ModifierId::LeftMeta).name(), "Meta");
}

#[test]
fn resolver_normalizes_and_reports() {
    assert_eq!(resolve_key("ESC").unwrap().name(), "Escape");
    assert_eq!(resolve_key("up").unwrap().name(), "ArrowUp");
    assert_eq!(resolve_key("7").unwrap().name(), "D7");
    assert!(resolve_key("enter").is_ok());
    assert!(resolve_key("blorp").is_err());
    assert_eq!(resolve_modifier("CMD").unwrap(), ModifierId::Meta);
    assert_eq!(resolve_modifier("lctrl").unwrap(), ModifierId::LeftControl);
    assert!(resolve_modifier("blorp").is_err());
}

#[test]
fn test_special_keys() {
    key_click(&resolve_key("tab").unwrap(), None);
    key_click(&resolve_key("enter").unwrap(), None);
    key_click(&resolve_key("space").unwrap(), None);
    key_click(&resolve_key("escape").unwrap(), None);
}

#[test]
fn convenience_keys_click_their_key() {
    for (plan, name) in [
        (send_tab(), "Tab"),
        (send_enter(), "Enter"),
        (send_escape(), "Escape"),
        (send_space(), "Space"),
        (send_backspace(), "Backspace"),
        (send_delete(), "Delete"),
    ] {
        assert_eq!(plan.len(), 2);
        assert_eq!(key_name_of(&plan[0]), name);
        assert_eq!(key_name_of(&plan[1]), name);
    }
}
