//! The events that the input manager and the frame driver consume.

use vstd::prelude::*;

verus! {

/// A layout-dependent identifier of a physical key.
pub type ScanCode = u32;

/// A layout-independent identifier of a logical key.
pub type VirtualKeyCode = u32;

/// A key in one of the two keyspaces. A keyboard may report a scan code
/// without a virtual key code, and neither maps onto the other, so the two
/// are tracked side by side.
#[derive(Clone, Copy, Debug, PartialEq, Eq, Structural)]
pub enum Key {
    Scan(ScanCode),
    Virtual(VirtualKeyCode),
}

/// Whether a key went down or came up.
#[derive(Clone, Copy, Debug, PartialEq, Eq, Structural)]
pub enum ElementState {
    Pressed,
    Released,
}

/// Relative pointer motion along the two screen axes.
///
/// Each component is carried as the bit pattern of a binary64 number, so
/// that a reported motion passes through unchanged. No arithmetic is done on
/// it here; the only value singled out is zero, whose pattern is all zeros.
#[derive(Clone, Copy, Debug, PartialEq, Eq, Structural)]
pub struct MouseDelta {
    pub x_bits: u64,
    pub y_bits: u64,
}

impl MouseDelta {
    /// No motion at all.
    pub open spec fn zero() -> MouseDelta {
        MouseDelta { x_bits: 0, y_bits: 0 }
    }

    pub fn new(x_bits: u64, y_bits: u64) -> (delta: MouseDelta)
        ensures
            delta == (MouseDelta { x_bits, y_bits }),
    {
        MouseDelta { x_bits, y_bits }
    }

    pub fn is_zero(&self) -> (zero: bool)
        ensures
            zero == (*self == MouseDelta::zero()),
    {
        self.x_bits == 0 && self.y_bits == 0
    }
}

impl Default for MouseDelta {
    fn default() -> (delta: MouseDelta)
        ensures
            delta == MouseDelta::zero(),
    {
        MouseDelta { x_bits: 0, y_bits: 0 }
    }
}

/// One event of the windowing layer, reduced to what is decided on here.
#[derive(Clone, Copy, Debug, PartialEq, Eq, Structural)]
pub enum Event {
    /// A key went down or came up. The scan code is always known, the
    /// virtual key code only where the keyboard layout resolves it.
    KeyboardInput { scancode: ScanCode, state: ElementState, virtual_keycode: Option<VirtualKeyCode> },
    /// The pointer moved by `delta` since the last such event.
    MouseMotion { delta: MouseDelta },
    /// The user asked for the window to be closed.
    CloseRequested,
    /// The window now measures `width` by `height` physical pixels.
    Resized { width: u32, height: u32 },
    /// Every pending event has been delivered: one logical frame begins.
    /// `now` is the time in nanoseconds on a clock that never runs backwards.
    MainEventsCleared { now: u64 },
    /// The window has to be redrawn.
    RedrawRequested,
    /// Anything else.
    Other,
}

impl Event {
    /// This is a keyboard event about `key`.
    pub open spec fn names(self, key: Key) -> bool {
        match self {
            Event::KeyboardInput { scancode, virtual_keycode, .. } => match key {
                Key::Scan(code) => scancode == code,
                Key::Virtual(code) => virtual_keycode == Some(code),
            },
            _ => false,
        }
    }

    /// This event reports `key` going down.
    pub open spec fn presses(self, key: Key) -> bool {
        match self {
            Event::KeyboardInput { state, .. } => state == ElementState::Pressed && self.names(key),
            _ => false,
        }
    }

    /// This event reports `key` coming up.
    pub open spec fn releases(self, key: Key) -> bool {
        match self {
            Event::KeyboardInput { state, .. } => state == ElementState::Released && self.names(key),
            _ => false,
        }
    }

    /// This event reports pointer motion.
    pub open spec fn is_motion(self) -> bool {
        self is MouseMotion
    }
}

} // verus!
