use cube_renderer::input::{DeviceEvent, ElementState, InputState, KeyboardInput, ESCAPE};

fn key(state: ElementState, code: Option<u32>) -> DeviceEvent {
    DeviceEvent::Key(KeyboardInput { state, virtual_keycode: code })
}

#[test]
fn new_state_has_no_key_pressed() {
    let state = InputState::new();
    assert!(!state.is_key_pressed(0));
    assert!(!state.is_key_pressed(ESCAPE));
    assert!(!state.is_key_pressed(u32::MAX));
}

#[test]
fn default_state_has_no_key_pressed() {
    let state = InputState::default();
    assert!(!state.is_key_pressed(ESCAPE));
}

#[test]
fn pressed_key_is_reported() {
    let mut state = InputState::new();
    state.update(&key(ElementState::Pressed, Some(10)));
    assert!(state.is_key_pressed(10));
    assert!(!state.is_key_pressed(11));
}

#[test]
fn released_key_is_forgotten() {
    let mut state = InputState::new();
    state.update(&key(ElementState::Pressed, Some(10)));
    state.update(&key(ElementState::Pressed, Some(11)));
    state.update(&key(ElementState::Released, Some(10)));
    assert!(!state.is_key_pressed(10));
    assert!(state.is_key_pressed(11));
}

#[test]
fn pressing_twice_needs_one_release() {
    let mut state = InputState::new();
    state.update(&key(ElementState::Pressed, Some(7)));
    state.update(&key(ElementState::Pressed, Some(7)));
    state.update(&key(ElementState::Released, Some(7)));
    assert!(!state.is_key_pressed(7));
}

#[test]
fn releasing_an_unpressed_key_changes_nothing() {
    let mut state = InputState::new();
    state.update(&key(ElementState::Pressed, Some(3)));
    state.update(&key(ElementState::Released, Some(4)));
    assert!(state.is_key_pressed(3));
    assert!(!state.is_key_pressed(4));
}

#[test]
fn unnamed_key_is_ignored() {
    let mut state = InputState::new();
    state.update(&key(ElementState::Pressed, Some(5)));
    state.update(&key(ElementState::Pressed, None));
    state.update(&key(ElementState::Released, None));
    assert!(state.is_key_pressed(5));
}

#[test]
fn other_device_events_are_ignored() {
    let mut state = InputState::new();
    state.update(&key(ElementState::Pressed, Some(5)));
    state.update(&DeviceEvent::Other);
    assert!(state.is_key_pressed(5));
    assert!(!state.is_key_pressed(6));
}

#[test]
fn escape_has_the_code_of_the_windowing_library() {
    assert_eq!(ESCAPE, winit::event::VirtualKeyCode::Escape as u32);
    assert_eq!(ESCAPE, 36);
}
