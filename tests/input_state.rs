use glider::input::{
    AdvanceableState, Button, ButtonState, InputState, Key, KeyState, Keyboard, Mouse,
    BUTTON_SLOTS, KEY_SLOTS,
};

#[test]
fn key_state_advances_to_settled_states() {
    assert_eq!(KeyState::WasPressed.advance(), KeyState::Pressed);
    assert_eq!(KeyState::WasReleased.advance(), KeyState::Released);
    assert_eq!(KeyState::Pressed.advance(), KeyState::Pressed);
    assert_eq!(KeyState::Released.advance(), KeyState::Released);
}

#[test]
fn key_state_reset_releases_held_keys() {
    assert_eq!(KeyState::Pressed.reset(), KeyState::WasReleased);
    assert_eq!(KeyState::WasPressed.reset(), KeyState::WasPressed);
    assert_eq!(KeyState::Released.reset(), KeyState::Released);
}

#[test]
fn key_state_queries() {
    assert!(KeyState::WasPressed.was_pressed());
    assert!(KeyState::WasPressed.is_pressed());
    assert!(!KeyState::WasPressed.is_released());
    assert!(KeyState::Pressed.is_pressed());
    assert!(!KeyState::Pressed.was_pressed());
    assert!(KeyState::WasReleased.was_released());
    assert!(KeyState::WasReleased.is_released());
    assert!(KeyState::Released.is_released());
    assert!(!KeyState::Released.was_released());
    assert_eq!(KeyState::default(), KeyState::Released);
}

#[test]
fn button_state_keeps_its_position() {
    let s = ButtonState::WasPressed(3, 4);
    assert_eq!(s.advance(), ButtonState::Pressed(3, 4));
    assert_eq!(ButtonState::Pressed(1, 2).reset(), ButtonState::WasReleased(1, 2));
    assert_eq!(ButtonState::WasReleased(7, 8).advance(), ButtonState::Released(7, 8));
    assert_eq!(ButtonState::Position(5, 6).advance(), ButtonState::Position(5, 6));
    assert_eq!(ButtonState::Position(5, 6).position(), (5, 6));
    assert!(ButtonState::Pressed(0, 0).is_pressed());
    assert!(ButtonState::WasPressed(0, 0).is_pressed());
    assert!(!ButtonState::Position(0, 0).is_pressed());
    assert!(!ButtonState::Position(0, 0).is_released());
    assert_eq!(ButtonState::default(), ButtonState::Released(-1, -1));
}

#[test]
fn key_slots_are_distinct_and_in_range() {
    assert_eq!(Key::A.index(), 0);
    assert_eq!(Key::Z.index(), 25);
    assert_eq!(Key::Space.index(), 27);
    assert_eq!(Key::Key1.index(), 30);
    assert_eq!(Key::LShift.index(), 42);
    assert_eq!(Key::Unknown.index(), 43);
    assert!(Key::Unknown.index() < KEY_SLOTS);
    assert_eq!(Button::Right.index(), 1);
    assert!(Button::Unknown.index() < BUTTON_SLOTS);
}

#[test]
fn keyboard_frame_cycle() {
    let mut k: Keyboard = InputState::new(KEY_SLOTS, ());
    assert_eq!(k.len(), KEY_SLOTS);
    assert!(k.is_released(Key::W));
    k.set(Key::W, KeyState::WasPressed);
    assert!(k.was_pressed(Key::W));
    assert!(k.is_pressed(Key::W));
    k.advance();
    assert!(!k.was_pressed(Key::W));
    assert!(k.is_pressed(Key::W));
    assert_eq!(*k.get(Key::W), KeyState::Pressed);
    k.reset();
    assert!(k.was_released(Key::W));
    k.advance();
    assert_eq!(*k.get(Key::W), KeyState::Released);
    assert_eq!(*k.get(Key::A), KeyState::Released);
}

#[test]
fn mouse_tracks_buttons_and_cursor() {
    let mut m: Mouse = InputState::new(BUTTON_SLOTS, (-1, -1));
    assert_eq!(m.position(), (-1, -1));
    assert_eq!(*m.get(Button::Left), ButtonState::Released(-1, -1));
    m.set(Button::Left, ButtonState::WasPressed(3, 4));
    m.advance();
    assert_eq!(*m.get(Button::Left), ButtonState::Pressed(3, 4));
    m.set_position((10, 20));
    assert_eq!(m.position(), (10, 20));
    assert_eq!(m.get(Button::Left).position(), (3, 4));
}
