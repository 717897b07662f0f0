//! What holds of every sequence of events and frames.
//!
//! The functions of the other modules say what one call does. The proofs
//! here say what follows for calls in a row: that a key nobody touched is
//! up, that a press shows as an edge for exactly one frame, that a held key
//! stays held until it is released, that opposite motions cancel.

use crate::camera::{Action, CameraController, Travel};
use crate::driver::{Command, RenderStateView};
use crate::event::{Event, Key, MouseDelta};
use crate::input::InputManagerView;
use vstd::prelude::*;

verus! {

/// One thing that happens to an input manager: it takes an event, or its
/// frame ends.
pub enum Step {
    Record(Event),
    Advance,
}

impl Step {
    /// This step is a keyboard event about `key`.
    pub open spec fn names(self, key: Key) -> bool {
        match self {
            Step::Record(event) => event.names(key),
            Step::Advance => false,
        }
    }

    /// This step is an event that reports `key` coming up.
    pub open spec fn releases(self, key: Key) -> bool {
        match self {
            Step::Record(event) => event.releases(key),
            Step::Advance => false,
        }
    }

    /// This step is an event that reports pointer motion.
    pub open spec fn is_motion(self) -> bool {
        match self {
            Step::Record(event) => event.is_motion(),
            Step::Advance => false,
        }
    }

    /// This step ends a frame.
    pub open spec fn is_frame_end(self) -> bool {
        self is Advance
    }
}

/// The manager after one step.
pub open spec fn after_step(state: InputManagerView, step: Step) -> InputManagerView {
    match step {
        Step::Record(event) => state.record(event),
        Step::Advance => state.advance(),
    }
}

/// The manager after `steps`, taken in order.
pub open spec fn after_steps(state: InputManagerView, steps: Seq<Step>) -> InputManagerView
    decreases steps.len(),
{
    if steps.len() == 0 {
        state
    } else {
        after_step(after_steps(state, steps.drop_last()), steps.last())
    }
}

/// A key that no keyboard event has named since the manager was made is not
/// held, in either generation: it is not down, and it shows no edge.
pub proof fn law_untouched_key_is_up(steps: Seq<Step>, key: Key)
    requires
        forall|i: int| 0 <= i < steps.len() ==> !(#[trigger] steps[i]).names(key),
    ensures
        !after_steps(InputManagerView::initial(), steps).current.holds(key),
        !after_steps(InputManagerView::initial(), steps).previous.holds(key),
        !after_steps(InputManagerView::initial(), steps).is_down(key),
        !after_steps(InputManagerView::initial(), steps).is_just_pressed(key),
        !after_steps(InputManagerView::initial(), steps).is_just_released(key),
    decreases steps.len(),
{
    if steps.len() > 0 {
        let earlier = steps.drop_last();
        assert forall|i: int| 0 <= i < earlier.len() implies !(#[trigger] earlier[i]).names(
            key,
        ) by {
            assert(earlier[i] == steps[i]);
        }
        law_untouched_key_is_up(earlier, key);
        assert(!steps.last().names(key));
    }
}

/// A press shows at once, and as an edge until the frame ends.
///
/// If `key` was not held when the frame began, then right after the event
/// that presses it the key is down and just pressed. Once the frame has
/// ended it is still down and no longer just pressed.
pub proof fn law_press_is_an_edge_for_one_frame(state: InputManagerView, press: Event, key: Key)
    requires
        press.presses(key),
        !state.previous.holds(key),
    ensures
        state.record(press).is_down(key),
        state.record(press).is_just_pressed(key),
        state.record(press).advance().is_down(key),
        !state.record(press).advance().is_just_pressed(key),
{
}

/// A press stays an edge for the rest of its frame: whatever events follow
/// before the frame ends, the key is still just pressed unless one of them
/// releases it.
pub proof fn law_press_edge_lasts_until_frame_end(
    state: InputManagerView,
    steps: Seq<Step>,
    key: Key,
)
    requires
        state.is_just_pressed(key),
        forall|i: int| 0 <= i < steps.len() ==> !(#[trigger] steps[i]).is_frame_end(),
        forall|i: int| 0 <= i < steps.len() ==> !(#[trigger] steps[i]).releases(key),
    ensures
        after_steps(state, steps).is_just_pressed(key),
    decreases steps.len(),
{
    if steps.len() > 0 {
        let earlier = steps.drop_last();
        assert forall|i: int| 0 <= i < earlier.len() implies !(#[trigger] earlier[i]).is_frame_end()
            && !earlier[i].releases(key) by {
            assert(earlier[i] == steps[i]);
        }
        law_press_edge_lasts_until_frame_end(state, earlier, key);
        assert(!steps.last().is_frame_end());
        assert(!steps.last().releases(key));
    }
}

/// The answer to the edge queries is made from the two generations when it
/// is asked for, so a press of a key that was already held when the frame
/// began is no edge.
pub proof fn law_repeated_press_is_no_edge(state: InputManagerView, press: Event, key: Key)
    requires
        press.presses(key),
        state.previous.holds(key),
    ensures
        state.record(press).is_down(key),
        !state.record(press).is_just_pressed(key),
{
}

/// A key that is down stays down, over events and frame ends alike, until an
/// event releases it. Nothing lets go of a key by itself.
pub proof fn law_held_until_released(state: InputManagerView, steps: Seq<Step>, key: Key)
    requires
        state.is_down(key),
        forall|i: int| 0 <= i < steps.len() ==> !(#[trigger] steps[i]).releases(key),
    ensures
        after_steps(state, steps).is_down(key),
    decreases steps.len(),
{
    if steps.len() > 0 {
        let earlier = steps.drop_last();
        assert forall|i: int| 0 <= i < earlier.len() implies !(#[trigger] earlier[i]).releases(
            key,
        ) by {
            assert(earlier[i] == steps[i]);
        }
        law_held_until_released(state, earlier, key);
        assert(!steps.last().releases(key));
    }
}

/// Press, end of frame, release: in the frame of the release the key is
/// just released and not down.
pub proof fn law_release_is_an_edge(
    state: InputManagerView,
    press: Event,
    release: Event,
    key: Key,
)
    requires
        press.presses(key),
        release.releases(key),
    ensures
        state.record(press).advance().record(release).is_just_released(key),
        !state.record(press).advance().record(release).is_down(key),
        !state.record(press).advance().record(release).is_just_pressed(key),
{
}

/// A key held over frame ends with no event in between stays down and shows
/// no edge: it is just pressed in the frame of its press at most, never in
/// a later one.
pub proof fn law_held_key_shows_no_edge(state: InputManagerView, key: Key)
    requires
        state.is_down(key),
    ensures
        state.advance().is_down(key),
        !state.advance().is_just_pressed(key),
        !state.advance().is_just_released(key),
        state.advance().advance().is_down(key),
        !state.advance().advance().is_just_pressed(key),
        !state.advance().advance().is_just_released(key),
{
}

/// Once a key has been held over a frame end it shows no edge, over events
/// and frame ends alike, until an event releases it.
pub proof fn law_no_edge_while_held(state: InputManagerView, steps: Seq<Step>, key: Key)
    requires
        state.current.holds(key),
        state.previous.holds(key),
        forall|i: int| 0 <= i < steps.len() ==> !(#[trigger] steps[i]).releases(key),
    ensures
        after_steps(state, steps).current.holds(key),
        after_steps(state, steps).previous.holds(key),
        after_steps(state, steps).is_down(key),
        !after_steps(state, steps).is_just_pressed(key),
        !after_steps(state, steps).is_just_released(key),
    decreases steps.len(),
{
    if steps.len() > 0 {
        let earlier = steps.drop_last();
        assert forall|i: int| 0 <= i < earlier.len() implies !(#[trigger] earlier[i]).releases(
            key,
        ) by {
            assert(earlier[i] == steps[i]);
        }
        law_no_edge_while_held(state, earlier, key);
        assert(!steps.last().releases(key));
    }
}

/// A frame end uses up every edge: right after it no key is just pressed
/// and none is just released, and what is down is what was down before it.
pub proof fn law_frame_end_clears_edges(state: InputManagerView, key: Key)
    ensures
        !state.advance().is_just_pressed(key),
        !state.advance().is_just_released(key),
        state.advance().is_down(key) == state.is_down(key),
{
}

/// Pointer motion does not carry over: after a frame end the motion reads
/// zero, and it stays zero until the next motion event arrives.
pub proof fn law_motion_is_cleared_at_frame_end(state: InputManagerView, steps: Seq<Step>)
    requires
        forall|i: int| 0 <= i < steps.len() ==> !(#[trigger] steps[i]).is_motion(),
    ensures
        after_steps(state.advance(), steps).current.mouse_delta == MouseDelta::zero(),
    decreases steps.len(),
{
    if steps.len() > 0 {
        let earlier = steps.drop_last();
        assert forall|i: int| 0 <= i < earlier.len() implies !(#[trigger] earlier[i]).is_motion() by {
            assert(earlier[i] == steps[i]);
        }
        law_motion_is_cleared_at_frame_end(state, earlier);
        assert(!steps.last().is_motion());
    }
}

/// Two opposite motions that are both asked for cancel: along their axis
/// the camera does not travel, whatever the length of the frame.
pub proof fn law_opposite_motions_cancel(
    camera: CameraController,
    input: InputManagerView,
    along: Action,
    against: Action,
    elapsed: u64,
)
    requires
        along.is_motion(),
        against.is_motion(),
        camera.is_active(input, along),
        camera.is_active(input, against),
    ensures
        camera.travel_along(input, along, against, elapsed) == 0,
{
}

/// With no motion asked for the camera does not travel.
pub proof fn law_idle_camera_stays(camera: CameraController, input: InputManagerView, elapsed: u64)
    requires
        forall|action: Action| action.is_motion() ==> !camera.is_active(input, action),
    ensures
        camera.travel(input, elapsed) == Travel::zero(),
{
    assert(!camera.is_active(input, Action::MoveForward));
    assert(!camera.is_active(input, Action::MoveBack));
    assert(!camera.is_active(input, Action::StrafeLeft));
    assert(!camera.is_active(input, Action::StrafeRight));
    assert(!camera.is_active(input, Action::Rise));
    assert(!camera.is_active(input, Action::Fall));
}

/// With one motion asked for and none against it, the camera travels along
/// that motion's axis by speed times time.
pub proof fn law_lone_motion_travels_speed_times_time(
    camera: CameraController,
    input: InputManagerView,
    along: Action,
    against: Action,
    elapsed: u64,
)
    requires
        camera.is_active(input, along),
        !camera.is_active(input, against),
    ensures
        camera.travel_along(input, along, against, elapsed) == camera.speed * elapsed,
        camera.travel_along(input, against, along, elapsed) == -(camera.speed * elapsed),
{
}

/// Through the frame driver every edge is seen by one frame only: a frame
/// that does not end the loop is answered from the events recorded before
/// it, and leaves no key just pressed or just released behind.
pub proof fn law_frame_sees_each_edge_once(state: RenderStateView, now: u64, key: Key)
    requires
        state.command(Event::MainEventsCleared { now }) != Command::Exit,
    ensures
        state.command(Event::MainEventsCleared { now }) is Advance,
        state.after(Event::MainEventsCleared { now }).input == state.input.advance(),
        !state.after(Event::MainEventsCleared { now }).input.is_just_pressed(key),
        !state.after(Event::MainEventsCleared { now }).input.is_just_released(key),
        state.after(Event::MainEventsCleared { now }).input.is_down(key) == state.input.is_down(
            key,
        ),
{
}

} // verus!
