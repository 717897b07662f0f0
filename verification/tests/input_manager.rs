use opal::event::{ElementState, Event, Key, MouseDelta};
use opal::{OpalAppInputManager, OpalAppInputState};

const KEY_W: u32 = 32;
const KEY_S: u32 = 28;
const SCAN_W: u32 = 17;
const SCAN_S: u32 = 31;

fn key_down(scancode: u32, virtual_keycode: Option<u32>) -> Event {
    Event::KeyboardInput { scancode, state: ElementState::Pressed, virtual_keycode }
}

fn key_up(scancode: u32, virtual_keycode: Option<u32>) -> Event {
    Event::KeyboardInput { scancode, state: ElementState::Released, virtual_keycode }
}

fn motion(dx: f64, dy: f64) -> Event {
    Event::MouseMotion { delta: MouseDelta::new(dx.to_bits(), dy.to_bits()) }
}

fn as_floats(delta: MouseDelta) -> (f64, f64) {
    (f64::from_bits(delta.x_bits), f64::from_bits(delta.y_bits))
}

#[test]
fn fresh_manager_reports_every_key_up() {
    let manager = OpalAppInputManager::new();
    for code in [0u32, 1, KEY_W, KEY_S, u32::MAX] {
        assert!(!manager.is_keycode_down(&code));
        assert!(!manager.is_keycode_just_pressed(&code));
        assert!(!manager.is_keycode_just_released(&code));
        assert!(!manager.is_down(&Key::Scan(code)));
        assert!(!manager.is_just_pressed(&Key::Scan(code)));
        assert!(!manager.is_just_released(&Key::Scan(code)));
    }
    assert!(manager.consume_mouse_delta().is_zero());
}

#[test]
fn default_manager_is_a_fresh_manager() {
    let manager = OpalAppInputManager::default();
    assert!(!manager.is_keycode_down(&KEY_W));
    assert_eq!(manager.consume_mouse_delta(), MouseDelta::new(0, 0));
    assert_eq!(MouseDelta::default(), MouseDelta::new(0, 0));
}

#[test]
fn key_never_recorded_stays_up_while_others_change() {
    let mut manager = OpalAppInputManager::new();
    manager.handle_event(&key_down(SCAN_W, Some(KEY_W)));
    manager.push_state();
    manager.handle_event(&motion(1.0, 1.0));
    manager.handle_event(&key_up(SCAN_W, Some(KEY_W)));
    manager.push_state();
    manager.handle_event(&key_down(SCAN_W, Some(KEY_W)));
    assert!(!manager.is_keycode_down(&KEY_S));
    assert!(!manager.is_keycode_just_pressed(&KEY_S));
    assert!(!manager.is_keycode_just_released(&KEY_S));
    assert!(!manager.is_down(&Key::Scan(SCAN_S)));
    assert!(!manager.is_just_pressed(&Key::Scan(SCAN_S)));
}

#[test]
fn press_is_down_and_just_pressed_within_its_frame() {
    let mut manager = OpalAppInputManager::new();
    manager.handle_event(&key_down(SCAN_W, Some(KEY_W)));
    assert!(manager.is_keycode_down(&KEY_W));
    assert!(manager.is_keycode_just_pressed(&KEY_W));
    assert!(!manager.is_keycode_just_released(&KEY_W));
    assert!(manager.is_down(&Key::Scan(SCAN_W)));
    assert!(manager.is_just_pressed(&Key::Scan(SCAN_W)));
}

#[test]
fn press_is_no_longer_just_pressed_after_the_frame_ends() {
    let mut manager = OpalAppInputManager::new();
    manager.handle_event(&key_down(SCAN_W, Some(KEY_W)));
    manager.push_state();
    assert!(manager.is_keycode_down(&KEY_W));
    assert!(!manager.is_keycode_just_pressed(&KEY_W));
    assert!(!manager.is_keycode_just_released(&KEY_W));
}

#[test]
fn release_after_a_frame_is_just_released_and_not_down() {
    let mut manager = OpalAppInputManager::new();
    manager.handle_event(&key_down(SCAN_W, Some(KEY_W)));
    manager.push_state();
    manager.handle_event(&key_up(SCAN_W, Some(KEY_W)));
    assert!(manager.is_keycode_just_released(&KEY_W));
    assert!(!manager.is_keycode_down(&KEY_W));
    assert!(!manager.is_keycode_just_pressed(&KEY_W));
    assert!(manager.is_just_released(&Key::Scan(SCAN_W)));
    assert!(!manager.is_down(&Key::Scan(SCAN_W)));
    manager.push_state();
    assert!(!manager.is_keycode_just_released(&KEY_W));
    assert!(!manager.is_keycode_down(&KEY_W));
}

#[test]
fn held_key_stays_down_over_two_frames_without_edges() {
    let mut manager = OpalAppInputManager::new();
    manager.handle_event(&key_down(SCAN_W, Some(KEY_W)));
    assert!(manager.is_keycode_just_pressed(&KEY_W));
    manager.push_state();
    assert!(manager.is_keycode_down(&KEY_W));
    assert!(!manager.is_keycode_just_pressed(&KEY_W));
    manager.push_state();
    assert!(manager.is_keycode_down(&KEY_W));
    assert!(!manager.is_keycode_just_pressed(&KEY_W));
    assert!(!manager.is_keycode_just_released(&KEY_W));
}

#[test]
fn press_and_release_within_one_frame_leave_no_edge() {
    let mut manager = OpalAppInputManager::new();
    manager.handle_event(&key_down(SCAN_W, Some(KEY_W)));
    manager.handle_event(&key_up(SCAN_W, Some(KEY_W)));
    assert!(!manager.is_keycode_down(&KEY_W));
    assert!(!manager.is_keycode_just_pressed(&KEY_W));
    assert!(!manager.is_keycode_just_released(&KEY_W));
}

#[test]
fn repeated_press_of_a_held_key_is_no_edge() {
    let mut manager = OpalAppInputManager::new();
    manager.handle_event(&key_down(SCAN_W, Some(KEY_W)));
    manager.push_state();
    manager.handle_event(&key_down(SCAN_W, Some(KEY_W)));
    manager.handle_event(&key_down(SCAN_W, Some(KEY_W)));
    assert!(manager.is_keycode_down(&KEY_W));
    assert!(!manager.is_keycode_just_pressed(&KEY_W));
}

#[test]
fn release_of_a_key_never_pressed_is_the_same_as_no_event() {
    let mut manager = OpalAppInputManager::new();
    manager.handle_event(&key_up(SCAN_W, Some(KEY_W)));
    assert!(!manager.is_keycode_down(&KEY_W));
    assert!(!manager.is_keycode_just_pressed(&KEY_W));
    assert!(!manager.is_keycode_just_released(&KEY_W));
    manager.push_state();
    manager.handle_event(&key_down(SCAN_W, Some(KEY_W)));
    assert!(manager.is_keycode_just_pressed(&KEY_W));
}

#[test]
fn key_without_virtual_code_updates_the_scan_code_only() {
    let mut manager = OpalAppInputManager::new();
    manager.handle_event(&key_down(SCAN_W, None));
    assert!(manager.is_down(&Key::Scan(SCAN_W)));
    assert!(manager.is_just_pressed(&Key::Scan(SCAN_W)));
    assert!(!manager.is_keycode_down(&KEY_W));
    assert!(!manager.is_keycode_down(&SCAN_W));
    assert!(!manager.is_down(&Key::Virtual(SCAN_W)));
}

#[test]
fn the_two_keyspaces_do_not_mix() {
    let mut manager = OpalAppInputManager::new();
    manager.handle_event(&key_down(5, Some(9)));
    assert!(manager.is_down(&Key::Scan(5)));
    assert!(manager.is_down(&Key::Virtual(9)));
    assert!(!manager.is_down(&Key::Scan(9)));
    assert!(!manager.is_down(&Key::Virtual(5)));
    manager.handle_event(&key_up(9, Some(5)));
    assert!(manager.is_down(&Key::Scan(5)));
    assert!(manager.is_down(&Key::Virtual(9)));
}

#[test]
fn release_with_virtual_code_unresolved_leaves_the_virtual_key_held() {
    let mut manager = OpalAppInputManager::new();
    manager.handle_event(&key_down(SCAN_W, Some(KEY_W)));
    manager.handle_event(&key_up(SCAN_W, None));
    assert!(!manager.is_down(&Key::Scan(SCAN_W)));
    assert!(manager.is_keycode_down(&KEY_W));
}

#[test]
fn queries_give_the_same_answer_however_often_they_are_asked() {
    let mut manager = OpalAppInputManager::new();
    manager.handle_event(&key_down(SCAN_W, Some(KEY_W)));
    for _ in 0..5 {
        assert!(manager.is_keycode_just_pressed(&KEY_W));
        assert!(manager.is_keycode_down(&KEY_W));
    }
    manager.push_state();
    manager.handle_event(&key_up(SCAN_W, Some(KEY_W)));
    for _ in 0..5 {
        assert!(manager.is_keycode_just_released(&KEY_W));
    }
}

#[test]
fn several_keys_are_tracked_independently() {
    let mut manager = OpalAppInputManager::new();
    manager.handle_event(&key_down(SCAN_W, Some(KEY_W)));
    manager.push_state();
    manager.handle_event(&key_down(SCAN_S, Some(KEY_S)));
    assert!(manager.is_keycode_down(&KEY_W));
    assert!(manager.is_keycode_down(&KEY_S));
    assert!(!manager.is_keycode_just_pressed(&KEY_W));
    assert!(manager.is_keycode_just_pressed(&KEY_S));
    manager.handle_event(&key_up(SCAN_W, Some(KEY_W)));
    assert!(manager.is_keycode_just_released(&KEY_W));
    assert!(manager.is_keycode_down(&KEY_S));
}

#[test]
fn mouse_delta_is_cleared_when_the_frame_ends() {
    let mut manager = OpalAppInputManager::new();
    manager.handle_event(&motion(3.5, -2.0));
    assert_eq!(as_floats(manager.consume_mouse_delta()), (3.5, -2.0));
    manager.push_state();
    let delta = manager.consume_mouse_delta();
    assert_eq!(as_floats(delta), (0.0, 0.0));
    assert_eq!(delta, MouseDelta::new(0, 0));
    assert!(delta.is_zero());
}

#[test]
fn reading_the_mouse_delta_does_not_clear_it() {
    let mut manager = OpalAppInputManager::new();
    manager.handle_event(&motion(3.5, -2.0));
    assert_eq!(as_floats(manager.consume_mouse_delta()), (3.5, -2.0));
    assert_eq!(as_floats(manager.consume_mouse_delta()), (3.5, -2.0));
}

#[test]
fn last_motion_event_of_a_frame_replaces_the_earlier_ones() {
    let mut manager = OpalAppInputManager::new();
    manager.handle_event(&motion(1.0, 1.0));
    manager.handle_event(&motion(0.25, -8.0));
    assert_eq!(as_floats(manager.consume_mouse_delta()), (0.25, -8.0));
}

#[test]
fn mouse_delta_stays_zero_until_the_next_motion_event() {
    let mut manager = OpalAppInputManager::new();
    manager.handle_event(&motion(3.5, -2.0));
    manager.push_state();
    manager.handle_event(&key_down(SCAN_W, Some(KEY_W)));
    manager.handle_event(&Event::Other);
    manager.push_state();
    assert!(manager.consume_mouse_delta().is_zero());
    manager.handle_event(&motion(-1.5, 0.5));
    assert_eq!(as_floats(manager.consume_mouse_delta()), (-1.5, 0.5));
}

#[test]
fn motion_does_not_touch_the_keys() {
    let mut manager = OpalAppInputManager::new();
    manager.handle_event(&key_down(SCAN_W, Some(KEY_W)));
    manager.handle_event(&motion(3.5, -2.0));
    assert!(manager.is_keycode_down(&KEY_W));
    assert!(manager.is_keycode_just_pressed(&KEY_W));
}

#[test]
fn events_that_are_not_input_change_nothing() {
    let mut manager = OpalAppInputManager::new();
    manager.handle_event(&key_down(SCAN_W, Some(KEY_W)));
    manager.handle_event(&motion(3.5, -2.0));
    for event in [
        Event::CloseRequested,
        Event::Resized { width: 800, height: 600 },
        Event::MainEventsCleared { now: 12 },
        Event::RedrawRequested,
        Event::Other,
    ] {
        manager.handle_event(&event);
        assert!(manager.is_keycode_down(&KEY_W));
        assert!(manager.is_keycode_just_pressed(&KEY_W));
        assert_eq!(as_floats(manager.consume_mouse_delta()), (3.5, -2.0));
    }
}

#[test]
fn previous_generation_is_a_copy_that_later_events_do_not_reach() {
    let mut manager = OpalAppInputManager::new();
    manager.push_state();
    manager.handle_event(&key_down(SCAN_W, Some(KEY_W)));
    assert!(manager.is_keycode_just_pressed(&KEY_W));
    manager.handle_event(&key_up(SCAN_W, Some(KEY_W)));
    manager.handle_event(&key_down(SCAN_W, Some(KEY_W)));
    assert!(manager.is_keycode_just_pressed(&KEY_W));
}

#[test]
fn cloned_manager_goes_its_own_way() {
    let mut manager = OpalAppInputManager::new();
    manager.handle_event(&key_down(SCAN_W, Some(KEY_W)));
    let copy = manager.clone();
    manager.handle_event(&key_up(SCAN_W, Some(KEY_W)));
    assert!(copy.is_keycode_down(&KEY_W));
    assert!(copy.is_keycode_just_pressed(&KEY_W));
    assert!(!manager.is_keycode_down(&KEY_W));
}

#[test]
fn input_state_can_be_made_and_copied_on_its_own() {
    let state = OpalAppInputState::new();
    let _copy = state.clone();
    let _other = OpalAppInputState::default();
}
