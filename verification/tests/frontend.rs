use snes_ppu::frontend::{
    FrontendAction, FrontendEvent, InputState, KeyboardInput, KeyboardState, WindowState,
};

fn no_keys() -> KeyboardState {
    KeyboardState {
        w: false,
        a: false,
        s: false,
        d: false,
        g: false,
        h: false,
        l: false,
        k: false,
        o: false,
        i: false,
        p: false,
        q: false,
    }
}

#[test]
fn events_ask_for_actions() {
    let mut state = WindowState::new();
    assert_eq!(state.on_event(FrontendEvent::Other), None);
    assert_eq!(state.on_event(FrontendEvent::SaveKeyDown), Some(FrontendAction::SaveState));
    assert_eq!(state.on_event(FrontendEvent::LoadKeyDown), Some(FrontendAction::LoadState));
    assert_eq!(state.on_event(FrontendEvent::Quit), Some(FrontendAction::Exit));
    assert_eq!(state.resized(), None);
}

#[test]
fn new_size_is_remembered_until_taken() {
    let mut state = WindowState::new();
    assert_eq!(state.on_event(FrontendEvent::Resized { w: 640, h: 480 }), None);
    assert_eq!(state.on_event(FrontendEvent::Resized { w: 800, h: 600 }), None);
    assert_eq!(state.on_event(FrontendEvent::Other), None);
    assert_eq!(state.resized(), Some((800, 600)));
    assert_eq!(state.resized(), None);
}

#[test]
fn no_key_is_no_button() {
    let input = KeyboardInput.poll(&no_keys());
    assert_eq!(input, InputState::new());
    assert!(!input.a && !input.up && !input.start);
}

#[test]
fn each_key_is_one_button() {
    let mut expected = InputState::new();
    expected.up(true);
    assert_eq!(KeyboardInput.poll(&KeyboardState { w: true, ..no_keys() }), expected);
    let mut expected = InputState::new();
    expected.left(true);
    assert_eq!(KeyboardInput.poll(&KeyboardState { a: true, ..no_keys() }), expected);
    let mut expected = InputState::new();
    expected.down(true);
    assert_eq!(KeyboardInput.poll(&KeyboardState { s: true, ..no_keys() }), expected);
    let mut expected = InputState::new();
    expected.right(true);
    assert_eq!(KeyboardInput.poll(&KeyboardState { d: true, ..no_keys() }), expected);
    let mut expected = InputState::new();
    expected.select(true);
    assert_eq!(KeyboardInput.poll(&KeyboardState { g: true, ..no_keys() }), expected);
    let mut expected = InputState::new();
    expected.start(true);
    assert_eq!(KeyboardInput.poll(&KeyboardState { h: true, ..no_keys() }), expected);
    let mut expected = InputState::new();
    expected.a(true);
    assert_eq!(KeyboardInput.poll(&KeyboardState { l: true, ..no_keys() }), expected);
    let mut expected = InputState::new();
    expected.b(true);
    assert_eq!(KeyboardInput.poll(&KeyboardState { k: true, ..no_keys() }), expected);
    let mut expected = InputState::new();
    expected.x(true);
    assert_eq!(KeyboardInput.poll(&KeyboardState { o: true, ..no_keys() }), expected);
    let mut expected = InputState::new();
    expected.y(true);
    assert_eq!(KeyboardInput.poll(&KeyboardState { i: true, ..no_keys() }), expected);
    let mut expected = InputState::new();
    expected.r(true);
    assert_eq!(KeyboardInput.poll(&KeyboardState { p: true, ..no_keys() }), expected);
    let mut expected = InputState::new();
    expected.l(true);
    assert_eq!(KeyboardInput.poll(&KeyboardState { q: true, ..no_keys() }), expected);
}

#[test]
fn buttons_can_be_released_again() {
    let mut input = InputState::new();
    input.a(true);
    input.up(true);
    input.a(false);
    assert!(!input.a && input.up);
}
