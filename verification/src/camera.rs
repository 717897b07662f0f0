//! Camera motion derived from the keys that are held.
//!
//! The camera flies freely: it moves along its own forward, right and up
//! axes while the keys bound to those motions are held. This module decides
//! how far it travels along each axis in one frame. Turning that into a new
//! position needs the axes themselves, which follow from the camera's
//! orientation and are the caller's to compute.

use crate::event::{Key, VirtualKeyCode};
use crate::input::{InputManagerView, OpalAppInputManager};
use vstd::prelude::*;

verus! {

/// What the user can ask of the camera.
#[derive(Clone, Copy, Debug, PartialEq, Eq, Structural)]
pub enum Action {
    MoveForward,
    MoveBack,
    StrafeLeft,
    StrafeRight,
    Rise,
    Fall,
    Exit,
}

impl Action {
    /// A motion lasts as long as its key is held. `Exit` is the one action
    /// that is not a motion: it fires once, when its key goes down.
    pub open spec fn is_motion(self) -> bool {
        self != Action::Exit
    }
}

/// The virtual key that each action is bound to.
#[derive(Clone, Copy, Debug, PartialEq, Eq, Structural)]
pub struct KeyBindings {
    pub move_forward: VirtualKeyCode,
    pub move_back: VirtualKeyCode,
    pub strafe_left: VirtualKeyCode,
    pub strafe_right: VirtualKeyCode,
    pub rise: VirtualKeyCode,
    pub fall: VirtualKeyCode,
    pub exit: VirtualKeyCode,
}

impl KeyBindings {
    /// The key that `action` is bound to.
    pub open spec fn key_for(self, action: Action) -> VirtualKeyCode {
        match action {
            Action::MoveForward => self.move_forward,
            Action::MoveBack => self.move_back,
            Action::StrafeLeft => self.strafe_left,
            Action::StrafeRight => self.strafe_right,
            Action::Rise => self.rise,
            Action::Fall => self.fall,
            Action::Exit => self.exit,
        }
    }

    /// The key that `action` is bound to.
    pub fn key(&self, action: Action) -> (code: VirtualKeyCode)
        ensures
            code == self.key_for(action),
    {
        match action {
            Action::MoveForward => self.move_forward,
            Action::MoveBack => self.move_back,
            Action::StrafeLeft => self.strafe_left,
            Action::StrafeRight => self.strafe_right,
            Action::Rise => self.rise,
            Action::Fall => self.fall,
            Action::Exit => self.exit,
        }
    }
}

/// The speed of the camera where none is chosen, in world units per second.
pub const DEFAULT_SPEED: u32 = 10;

/// How far the camera travels in one frame along each of its own axes.
///
/// The unit is a billionth of a world unit: a speed in world units per
/// second times a time in nanoseconds. A negative component is travel
/// against the axis.
#[derive(Clone, Copy, Debug, PartialEq, Eq, Structural)]
pub struct Travel {
    pub forward: i128,
    pub right: i128,
    pub up: i128,
}

impl Travel {
    /// No travel.
    pub open spec fn zero() -> Travel {
        Travel { forward: 0, right: 0, up: 0 }
    }

    pub fn is_zero(&self) -> (zero: bool)
        ensures
            zero == (*self == Travel::zero()),
    {
        self.forward == 0 && self.right == 0 && self.up == 0
    }
}

/// Turns the state of the keys into camera travel.
#[derive(Clone, Copy, Debug, PartialEq, Eq, Structural)]
pub struct CameraController {
    /// Which key asks for which action.
    pub bindings: KeyBindings,
    /// World units per second.
    pub speed: u32,
}

impl CameraController {
    /// Whether `action` is being asked for: a motion while its key is held,
    /// `Exit` in the frame in which its key went down.
    pub open spec fn is_active(self, input: InputManagerView, action: Action) -> bool {
        let key = Key::Virtual(self.bindings.key_for(action));
        if action.is_motion() {
            input.is_down(key)
        } else {
            input.is_just_pressed(key)
        }
    }

    /// What `action` adds to the travel along its axis in a frame of
    /// `elapsed` nanoseconds: speed times time while it is active, nothing
    /// otherwise.
    pub open spec fn stride(self, input: InputManagerView, action: Action, elapsed: u64) -> int {
        if self.is_active(input, action) {
            self.speed * elapsed
        } else {
            0
        }
    }

    /// The travel along one axis: what the action along it adds, less what
    /// the action against it adds. Each counts on its own, so two opposite
    /// actions that are both active cancel.
    pub open spec fn travel_along(
        self,
        input: InputManagerView,
        along: Action,
        against: Action,
        elapsed: u64,
    ) -> int {
        self.stride(input, along, elapsed) - self.stride(input, against, elapsed)
    }

    /// The travel of a frame of `elapsed` nanoseconds.
    pub open spec fn travel(self, input: InputManagerView, elapsed: u64) -> Travel {
        Travel {
            forward: self.travel_along(input, Action::MoveForward, Action::MoveBack, elapsed) as i128,
            right: self.travel_along(input, Action::StrafeRight, Action::StrafeLeft, elapsed) as i128,
            up: self.travel_along(input, Action::Rise, Action::Fall, elapsed) as i128,
        }
    }

    /// A controller with the given bindings and speed.
    pub fn new(bindings: KeyBindings, speed: u32) -> (controller: CameraController)
        ensures
            controller == (CameraController { bindings, speed }),
    {
        CameraController { bindings, speed }
    }

    /// Whether `action` is being asked for.
    pub fn action_active(&self, input: &OpalAppInputManager, action: Action) -> (active: bool)
        ensures
            active == self.is_active(input@, action),
    {
        let code: VirtualKeyCode = self.bindings.key(action);
        match action {
            Action::Exit => input.is_keycode_just_pressed(&code),
            _ => input.is_keycode_down(&code),
        }
    }

    /// What `action` adds to the travel along its axis.
    fn stride_of(&self, input: &OpalAppInputManager, action: Action, elapsed: u64) -> (stride: i128)
        ensures
            stride == self.stride(input@, action, elapsed),
            0 <= stride <= 0xffff_ffff * 0xffff_ffff_ffff_ffff,
    {
        assert(0 <= self.speed * elapsed <= 0xffff_ffff * 0xffff_ffff_ffff_ffff) by (nonlinear_arith)
            requires
                0 <= self.speed <= 0xffff_ffff,
                0 <= elapsed <= 0xffff_ffff_ffff_ffff,
        ;
        if self.action_active(input, action) {
            (self.speed as i128) * (elapsed as i128)
        } else {
            0
        }
    }

    /// The travel of one frame.
    ///
    /// `elapsed` is the length of the frame in nanoseconds. Along each axis
    /// the result is what the action along it adds, less what the action
    /// against it adds, where an active action adds speed times `elapsed`.
    /// No key held gives no travel; two opposite keys held give none along
    /// their axis.
    pub fn update(&self, input: &OpalAppInputManager, elapsed: u64) -> (travel: Travel)
        ensures
            travel == self.travel(input@, elapsed),
            travel.forward == self.travel_along(
                input@,
                Action::MoveForward,
                Action::MoveBack,
                elapsed,
            ),
            travel.right == self.travel_along(
                input@,
                Action::StrafeRight,
                Action::StrafeLeft,
                elapsed,
            ),
            travel.up == self.travel_along(input@, Action::Rise, Action::Fall, elapsed),
    {
        let forward: i128 = self.stride_of(input, Action::MoveForward, elapsed) - self.stride_of(
            input,
            Action::MoveBack,
            elapsed,
        );
        let right: i128 = self.stride_of(input, Action::StrafeRight, elapsed) - self.stride_of(
            input,
            Action::StrafeLeft,
            elapsed,
        );
        let up: i128 = self.stride_of(input, Action::Rise, elapsed) - self.stride_of(
            input,
            Action::Fall,
            elapsed,
        );
        Travel { forward, right, up }
    }
}

} // verus!
