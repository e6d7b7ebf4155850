use puprs::input::{button_from_pressed, button_to_flag, type_text_steps, KeyboardState, MouseButton, MouseState, TouchState, TypeStep};
use puprs::keyboard_layout::{key_description_for_string, modifier_bit};

#[test]
fn shift_changes_the_key_and_release_restores() {
    let mut k = KeyboardState::new();
    let down = k.down("Shift").unwrap();
    assert_eq!(down.modifiers, 8);
    assert_eq!(k.modifiers(), 8);
    let a = k.down("KeyA").unwrap();
    assert_eq!(a.key, "A");
    assert_eq!(a.text.as_deref(), Some("A"));
    assert_eq!(a.auto_repeat, Some(false));
    let again = k.down("KeyA").unwrap();
    assert_eq!(again.auto_repeat, Some(true));
    k.up("KeyA").unwrap();
    k.up("Shift").unwrap();
    assert_eq!(k.modifiers(), 0);
    assert!(k.pressed_keys.is_empty());
}

#[test]
fn unknown_keys_are_refused() {
    let mut k = KeyboardState::new();
    let e = k.down("NoSuchKey").unwrap_err();
    assert_eq!(e.message(), "input error: Unknown key: \"NoSuchKey\"");
    assert!(matches!(e, puprs::error::Error::InputError(_)));
    assert!(key_description_for_string("NoSuchKey", 0).is_none());
    assert_eq!(modifier_bit("Control"), 2);
    assert_eq!(modifier_bit("a"), 0);
}

#[test]
fn typing_presses_known_keys_and_inserts_others() {
    let steps = type_text_steps("a\u{e9}");
    assert_eq!(steps.len(), 2);
    assert!(matches!(&steps[0], TypeStep::Press(k) if k == "a"));
    assert!(matches!(&steps[1], TypeStep::Insert(t) if t == "\u{e9}"));
}

#[test]
fn mouse_buttons_press_and_release() {
    let mut m = MouseState::new();
    assert_eq!(m.press(None).unwrap(), 1);
    assert_eq!(m.press(Some(MouseButton::Right)).unwrap(), 3);
    assert_eq!(m.press(None).unwrap_err().message(), "Mouse button Left is already pressed");
    assert_eq!(button_from_pressed(3), MouseButton::Left);
    assert_eq!(m.buttons_to_release(), vec![MouseButton::Left, MouseButton::Right]);
    assert_eq!(m.release(None).unwrap(), 2);
    assert_eq!(m.release(None).unwrap_err().message(), "Mouse button Left is not pressed");
    for b in [MouseButton::Left, MouseButton::Right, MouseButton::Middle, MouseButton::Back, MouseButton::Forward] {
        assert_eq!(button_from_pressed(button_to_flag(b)), b);
    }
    assert_eq!(button_from_pressed(0), MouseButton::NoButton);
}

#[test]
fn touch_must_start_before_it_moves() {
    let mut t = TouchState::new();
    assert!(t.check_start().is_ok());
    t.mark_started();
    assert_eq!(t.check_start().unwrap_err().message(), "Touch already started");
    t.end();
    assert!(t.check_start().is_ok());
}
