//! The decisions of the frame loop.
//!
//! An event loop hands every event to [`OpalApp::handle_event`] and carries
//! out the [`Command`] that comes back. The loop owns the window, the clock
//! and whatever draws; what is decided here is when the loop ends, when a
//! frame begins, how far the camera travels in it, and when the input
//! manager moves on to its next generation.

use crate::camera::{Action, CameraController, KeyBindings, Travel, DEFAULT_SPEED};
use crate::event::{Event, Key, VirtualKeyCode};
use crate::input::{InputManagerView, OpalAppInputManager};
use vstd::prelude::*;

verus! {

/// What the event loop has to do after an event.
#[derive(Clone, Copy, Debug, PartialEq, Eq, Structural)]
pub enum Command {
    /// Nothing.
    Idle,
    /// Leave the event loop.
    Exit,
    /// Fit whatever is drawn to a window of `width` by `height` pixels.
    Resize { width: u32, height: u32 },
    /// A frame of `elapsed` nanoseconds has passed: move the camera by
    /// `travel` and ask for a redraw.
    Advance { elapsed: u64, travel: Travel },
    /// Draw the scene, and go on polling for events.
    Redraw,
}

/// The time from `earlier` to `now`, and none if `now` lies before it.
pub open spec fn time_between(earlier: u64, now: u64) -> u64 {
    if now >= earlier {
        (now - earlier) as u64
    } else {
        0
    }
}

/// What a set-up application stands for.
#[verifier::ext_equal]
pub struct RenderStateView {
    pub input: InputManagerView,
    pub camera: CameraController,
    /// When the last frame began.
    pub last_frame_time: u64,
}

impl RenderStateView {
    /// The state a freshly set-up application is in.
    pub open spec fn initial(bindings: KeyBindings, now: u64) -> RenderStateView {
        RenderStateView {
            input: InputManagerView::initial(),
            camera: CameraController { bindings, speed: DEFAULT_SPEED },
            last_frame_time: now,
        }
    }

    /// The state after `event`.
    ///
    /// The input manager takes every event first. When a frame begins, the
    /// frame's length is measured and the frame's time noted. Unless the
    /// frame ends the loop, the input manager then moves on to its next
    /// generation.
    pub open spec fn after(self, event: Event) -> RenderStateView {
        let input = self.input.record(event);
        match event {
            Event::MainEventsCleared { now } => RenderStateView {
                input: if self.camera.is_active(input, Action::Exit) {
                    input
                } else {
                    input.advance()
                },
                camera: self.camera,
                last_frame_time: now,
            },
            _ => RenderStateView { input, ..self },
        }
    }

    /// What the event loop is told to do after `event`.
    ///
    /// A close request ends the loop, and so does a frame in which the exit
    /// key went down. Any other frame moves the camera by what the held keys
    /// ask for over the frame's length.
    pub open spec fn command(self, event: Event) -> Command {
        let input = self.input.record(event);
        match event {
            Event::CloseRequested => Command::Exit,
            Event::Resized { width, height } => Command::Resize { width, height },
            Event::MainEventsCleared { now } => {
                let elapsed = time_between(self.last_frame_time, now);
                if self.camera.is_active(input, Action::Exit) {
                    Command::Exit
                } else {
                    Command::Advance { elapsed, travel: self.camera.travel(input, elapsed) }
                }
            },
            Event::RedrawRequested => Command::Redraw,
            _ => Command::Idle,
        }
    }
}

/// What the application keeps once it is set up.
pub struct OpalAppRenderState {
    input: OpalAppInputManager,
    camera: CameraController,
    last_frame_time: u64,
}

impl View for OpalAppRenderState {
    type V = RenderStateView;

    closed spec fn view(&self) -> RenderStateView {
        RenderStateView {
            input: self.input@,
            camera: self.camera,
            last_frame_time: self.last_frame_time,
        }
    }
}

/// The application: nothing until it is set up, then its render state.
pub struct OpalApp {
    render_state: Option<OpalAppRenderState>,
}

impl View for OpalApp {
    type V = Option<RenderStateView>;

    closed spec fn view(&self) -> Option<RenderStateView> {
        match self.render_state {
            Some(state) => Some(state@),
            None => None,
        }
    }
}

impl OpalApp {
    /// An application that is not set up yet.
    pub fn new() -> (app: OpalApp)
        ensures
            app@ is None,
    {
        OpalApp { render_state: None }
    }

    /// Whether `setup` has run.
    pub fn is_set_up(&self) -> (set_up: bool)
        ensures
            set_up == (self@ is Some),
    {
        self.render_state.is_some()
    }

    /// Sets the application up, or sets it up anew: no key held, the camera
    /// at its default speed with the given bindings, and `now` as the time
    /// of the last frame.
    pub fn setup(&mut self, bindings: KeyBindings, now: u64)
        ensures
            final(self)@ == Some(RenderStateView::initial(bindings, now)),
    {
        self.render_state = Some(
            OpalAppRenderState {
                input: OpalAppInputManager::new(),
                camera: CameraController::new(bindings, DEFAULT_SPEED),
                last_frame_time: now,
            },
        );
    }

    /// Whether the virtual key `code` is held now. Before the application is
    /// set up no key is.
    pub fn is_keycode_down(&self, code: VirtualKeyCode) -> (down: bool)
        ensures
            down == match self@ {
                Some(state) => state.input.is_down(Key::Virtual(code)),
                None => false,
            },
    {
        match &self.render_state {
            Some(state) => state.input.is_keycode_down(&code),
            None => false,
        }
    }

    /// Takes one event and says what the event loop has to do next.
    ///
    /// The application must be set up.
    pub fn handle_event(&mut self, event: &Event) -> (command: Command)
        requires
            old(self)@ is Some,
        ensures
            final(self)@ == Some(old(self)@->0.after(*event)),
            command == old(self)@->0.command(*event),
    {
        let mut state = self.render_state.take().unwrap();
        state.input.handle_event(event);
        let command = match event {
            Event::CloseRequested => Command::Exit,
            Event::Resized { width, height } => Command::Resize { width: *width, height: *height },
            Event::MainEventsCleared { now } => {
                let elapsed: u64 = if *now >= state.last_frame_time {
                    *now - state.last_frame_time
                } else {
                    0
                };
                state.last_frame_time = *now;
                if state.camera.action_active(&state.input, Action::Exit) {
                    Command::Exit
                } else {
                    let travel = state.camera.update(&state.input, elapsed);
                    state.input.push_state();
                    Command::Advance { elapsed, travel }
                }
            },
            Event::RedrawRequested => Command::Redraw,
            _ => Command::Idle,
        };
        self.render_state = Some(state);
        command
    }
}

} // verus!
