//! The input manager: two generations of keyboard and pointer state.

use crate::event::{ElementState, Event, Key, MouseDelta, ScanCode, VirtualKeyCode};
use std::collections::HashMap;
use vstd::prelude::*;

verus! {

broadcast use vstd::std_specs::hash::group_hash_axioms;

/// The keys that a key table reports as held: those it maps to `true`. A key
/// that the table does not know and a key that it maps to `false` are both
/// not held.
pub open spec fn held_keys(table: Map<u32, bool>) -> Set<u32> {
    Set::new(|code: u32| table.contains_key(code) && table[code])
}

/// `held` after `code` went down (`down`) or came up.
pub open spec fn with_key(held: Set<u32>, code: u32, down: bool) -> Set<u32> {
    if down {
        held.insert(code)
    } else {
        held.remove(code)
    }
}

/// What one generation of input state stands for.
#[verifier::ext_equal]
pub struct InputStateView {
    /// The scan codes that are held.
    pub scancodes: Set<ScanCode>,
    /// The virtual key codes that are held.
    pub keycodes: Set<VirtualKeyCode>,
    /// The pointer motion of the last motion event of the frame.
    pub mouse_delta: MouseDelta,
}

impl InputStateView {
    /// Nothing held, no motion.
    pub open spec fn empty() -> InputStateView {
        InputStateView {
            scancodes: Set::empty(),
            keycodes: Set::empty(),
            mouse_delta: MouseDelta::zero(),
        }
    }

    /// Whether `key` is held.
    pub open spec fn holds(self, key: Key) -> bool {
        match key {
            Key::Scan(code) => self.scancodes.contains(code),
            Key::Virtual(code) => self.keycodes.contains(code),
        }
    }

    /// The state after `event`.
    ///
    /// A keyboard event sets its scan code, and its virtual key code where it
    /// has one. A motion event replaces the pointer motion: of several in one
    /// frame the last one stays. Every other event leaves the state as it is.
    pub open spec fn record(self, event: Event) -> InputStateView {
        match event {
            Event::KeyboardInput { scancode, state, virtual_keycode } => {
                let down = state == ElementState::Pressed;
                InputStateView {
                    scancodes: with_key(self.scancodes, scancode, down),
                    keycodes: match virtual_keycode {
                        Some(code) => with_key(self.keycodes, code, down),
                        None => self.keycodes,
                    },
                    mouse_delta: self.mouse_delta,
                }
            },
            Event::MouseMotion { delta } => InputStateView { mouse_delta: delta, ..self },
            _ => self,
        }
    }

    /// The state that a new frame starts from: the keys stay as they are,
    /// the pointer motion is cleared.
    pub open spec fn carried_over(self) -> InputStateView {
        InputStateView { mouse_delta: MouseDelta::zero(), ..self }
    }
}

/// One generation of input state: what is held in each keyspace, and the
/// pointer motion.
pub struct OpalAppInputState {
    keyboard_scancode_state: HashMap<ScanCode, bool>,
    keyboard_keycode_state: HashMap<VirtualKeyCode, bool>,
    mouse_delta: MouseDelta,
}

impl View for OpalAppInputState {
    type V = InputStateView;

    closed spec fn view(&self) -> InputStateView {
        InputStateView {
            scancodes: held_keys(self.keyboard_scancode_state@),
            keycodes: held_keys(self.keyboard_keycode_state@),
            mouse_delta: self.mouse_delta,
        }
    }
}

impl OpalAppInputState {
    /// A generation in which nothing is held and the pointer has not moved.
    pub fn new() -> (state: OpalAppInputState)
        ensures
            state@ == InputStateView::empty(),
    {
        let state = OpalAppInputState {
            keyboard_scancode_state: HashMap::new(),
            keyboard_keycode_state: HashMap::new(),
            mouse_delta: MouseDelta::new(0, 0),
        };
        assert(state@ =~= InputStateView::empty());
        state
    }
}

impl Default for OpalAppInputState {
    fn default() -> (state: OpalAppInputState)
        ensures
            state@ == InputStateView::empty(),
    {
        OpalAppInputState::new()
    }
}

impl Clone for OpalAppInputState {
    /// A full copy, which shares nothing with `self`.
    fn clone(&self) -> (copy: OpalAppInputState)
        ensures
            copy@ == self@,
    {
        OpalAppInputState {
            keyboard_scancode_state: self.keyboard_scancode_state.clone(),
            keyboard_keycode_state: self.keyboard_keycode_state.clone(),
            mouse_delta: self.mouse_delta,
        }
    }
}

/// What the input manager stands for: the generation that events are being
/// written to, and the frozen generation of the frame before.
#[verifier::ext_equal]
pub struct InputManagerView {
    pub current: InputStateView,
    pub previous: InputStateView,
}

impl InputManagerView {
    /// Both generations empty.
    pub open spec fn initial() -> InputManagerView {
        InputManagerView { current: InputStateView::empty(), previous: InputStateView::empty() }
    }

    /// The manager after `event`: only the current generation takes it.
    pub open spec fn record(self, event: Event) -> InputManagerView {
        InputManagerView { current: self.current.record(event), previous: self.previous }
    }

    /// The manager after a frame boundary: the previous generation becomes
    /// what the current one was, pointer motion included; the current one
    /// keeps its keys and starts again with no pointer motion.
    pub open spec fn advance(self) -> InputManagerView {
        InputManagerView { current: self.current.carried_over(), previous: self.current }
    }

    /// `key` is held now.
    pub open spec fn is_down(self, key: Key) -> bool {
        self.current.holds(key)
    }

    /// `key` is held now and was not held when the frame began.
    pub open spec fn is_just_pressed(self, key: Key) -> bool {
        self.current.holds(key) && !self.previous.holds(key)
    }

    /// `key` was held when the frame began and is not held now.
    pub open spec fn is_just_released(self, key: Key) -> bool {
        self.previous.holds(key) && !self.current.holds(key)
    }
}

/// Tracks what is held and how the pointer moved, over the running frame and
/// the one before it.
///
/// Events go to the current generation as they arrive. Once per frame, after
/// the frame's queries, [`OpalAppInputManager::push_state`] freezes a copy of
/// it as the previous generation. The edge queries compare the two each time
/// they are asked, so they give the same answer however often they are asked
/// within a frame.
pub struct OpalAppInputManager {
    input_state: OpalAppInputState,
    prev_input_state: OpalAppInputState,
}

impl View for OpalAppInputManager {
    type V = InputManagerView;

    closed spec fn view(&self) -> InputManagerView {
        InputManagerView { current: self.input_state@, previous: self.prev_input_state@ }
    }
}

impl OpalAppInputManager {
    /// A manager that has seen no event.
    pub fn new() -> (manager: OpalAppInputManager)
        ensures
            manager@ == InputManagerView::initial(),
    {
        OpalAppInputManager {
            input_state: OpalAppInputState::new(),
            prev_input_state: OpalAppInputState::new(),
        }
    }

    /// Ends the frame: the previous generation becomes a copy of the current
    /// one, and the current one goes on with its keys as they are and with
    /// the pointer motion cleared.
    pub fn push_state(&mut self)
        ensures
            final(self)@ == old(self)@.advance(),
    {
        self.prev_input_state = self.input_state.clone();
        self.input_state.mouse_delta = MouseDelta::new(0, 0);
    }

    /// Takes one event into the current generation.
    ///
    /// A keyboard event sets its scan code to held or not held, and its
    /// virtual key code too where it has one. A motion event replaces the
    /// pointer motion of the frame. Any other event changes nothing.
    pub fn handle_event(&mut self, event: &Event)
        ensures
            final(self)@ == old(self)@.record(*event),
    {
        match event {
            Event::KeyboardInput { scancode, state, virtual_keycode } => {
                let down = match state {
                    ElementState::Pressed => true,
                    ElementState::Released => false,
                };
                self.input_state.keyboard_scancode_state.insert(*scancode, down);
                match virtual_keycode {
                    Some(code) => {
                        self.input_state.keyboard_keycode_state.insert(*code, down);
                    },
                    None => {},
                }
                assert(final(self)@ =~= old(self)@.record(*event));
            },
            Event::MouseMotion { delta } => {
                self.input_state.mouse_delta = *delta;
            },
            _ => {},
        }
    }

    /// Whether `table` marks `code` as held.
    fn is_pressed(table: &HashMap<u32, bool>, code: &u32) -> (pressed: bool)
        ensures
            pressed == held_keys(table@).contains(*code),
    {
        match table.get(code) {
            Some(held) => *held,
            None => false,
        }
    }

    /// Whether `key` is held now.
    pub fn is_down(&self, key: &Key) -> (down: bool)
        ensures
            down == self@.is_down(*key),
    {
        match key {
            Key::Scan(code) => Self::is_pressed(&self.input_state.keyboard_scancode_state, code),
            Key::Virtual(code) => Self::is_pressed(&self.input_state.keyboard_keycode_state, code),
        }
    }

    /// Whether `key` was held when the running frame began.
    fn was_down(&self, key: &Key) -> (down: bool)
        ensures
            down == self@.previous.holds(*key),
    {
        match key {
            Key::Scan(code) => Self::is_pressed(
                &self.prev_input_state.keyboard_scancode_state,
                code,
            ),
            Key::Virtual(code) => Self::is_pressed(
                &self.prev_input_state.keyboard_keycode_state,
                code,
            ),
        }
    }

    /// Whether `key` went down during the running frame: held now, not held
    /// when the frame began.
    pub fn is_just_pressed(&self, key: &Key) -> (pressed: bool)
        ensures
            pressed == self@.is_just_pressed(*key),
    {
        self.is_down(key) && !self.was_down(key)
    }

    /// Whether `key` came up during the running frame: held when the frame
    /// began, not held now.
    pub fn is_just_released(&self, key: &Key) -> (released: bool)
        ensures
            released == self@.is_just_released(*key),
    {
        self.was_down(key) && !self.is_down(key)
    }

    /// Whether the virtual key `code` is held now.
    pub fn is_keycode_down(&self, code: &VirtualKeyCode) -> (down: bool)
        ensures
            down == self@.is_down(Key::Virtual(*code)),
    {
        Self::is_pressed(&self.input_state.keyboard_keycode_state, code)
    }

    /// Whether the virtual key `code` went down during the running frame.
    pub fn is_keycode_just_pressed(&self, code: &VirtualKeyCode) -> (pressed: bool)
        ensures
            pressed == self@.is_just_pressed(Key::Virtual(*code)),
    {
        self.is_just_pressed(&Key::Virtual(*code))
    }

    /// Whether the virtual key `code` came up during the running frame.
    pub fn is_keycode_just_released(&self, code: &VirtualKeyCode) -> (released: bool)
        ensures
            released == self@.is_just_released(Key::Virtual(*code)),
    {
        self.is_just_released(&Key::Virtual(*code))
    }

    /// The pointer motion of the running frame. Reading it does not clear
    /// it: only the end of the frame does.
    pub fn consume_mouse_delta(&self) -> (delta: MouseDelta)
        ensures
            delta == self@.current.mouse_delta,
    {
        self.input_state.mouse_delta
    }
}

impl Default for OpalAppInputManager {
    fn default() -> (manager: OpalAppInputManager)
        ensures
            manager@ == InputManagerView::initial(),
    {
        OpalAppInputManager::new()
    }
}

impl Clone for OpalAppInputManager {
    fn clone(&self) -> (copy: OpalAppInputManager)
        ensures
            copy@ == self@,
    {
        OpalAppInputManager {
            input_state: self.input_state.clone(),
            prev_input_state: self.prev_input_state.clone(),
        }
    }
}

} // verus!
