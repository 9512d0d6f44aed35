//! Keeps track of which movement keys are held down.

use crate::event::{ElementState, KeyboardInput, VirtualKeyCode, WindowEvent};
use vstd::prelude::*;

verus! {

/// A way in which the keys move the camera's eye.
#[derive(Copy, Clone, Debug, PartialEq, Eq, Structural)]
pub enum Direction {
    Forward,
    Backward,
    Left,
    Right,
}

/// The direction that a key stands for, if it is a movement key.
pub open spec fn key_direction(key: VirtualKeyCode) -> Option<Direction> {
    match key {
        VirtualKeyCode::W | VirtualKeyCode::Up => Some(Direction::Forward),
        VirtualKeyCode::A | VirtualKeyCode::Left => Some(Direction::Left),
        VirtualKeyCode::S | VirtualKeyCode::Down => Some(Direction::Backward),
        VirtualKeyCode::D | VirtualKeyCode::Right => Some(Direction::Right),
        _ => None,
    }
}

/// The direction whose key `event` reports, if it reports a movement key.
pub open spec fn event_direction(event: WindowEvent) -> Option<Direction> {
    match event {
        WindowEvent::KeyboardInput {
            input: KeyboardInput { virtual_keycode: Some(key), .. },
        } => key_direction(key),
        _ => None,
    }
}

/// Whether `event` reports a key going down. Meaningful for keyboard events.
pub open spec fn event_is_press(event: WindowEvent) -> bool {
    event matches WindowEvent::KeyboardInput { input } && input.state == ElementState::Pressed
}

/// One flag for each direction, set while a key of that direction is held.
#[derive(Copy, Clone, Debug, PartialEq, Eq, Structural)]
pub struct CameraController {
    pub is_forward_pressed: bool,
    pub is_backward_pressed: bool,
    pub is_left_pressed: bool,
    pub is_right_pressed: bool,
}

/// The moves that one frame makes with the camera's eye. The eye first goes
/// towards the target or away from it, and then sideways around the target;
/// sideways is measured from where the eye then stands.
#[derive(Copy, Clone, Debug, PartialEq, Eq, Structural)]
pub struct Motion {
    /// One step towards the target.
    pub advance: bool,
    /// One step away from the target.
    pub retreat: bool,
    /// One step to the right, at the same distance from the target.
    pub strafe_right: bool,
    /// One step to the left, at the same distance from the target.
    pub strafe_left: bool,
}

impl CameraController {
    /// The flag of `direction`.
    pub open spec fn pressed(self, direction: Direction) -> bool {
        match direction {
            Direction::Forward => self.is_forward_pressed,
            Direction::Backward => self.is_backward_pressed,
            Direction::Left => self.is_left_pressed,
            Direction::Right => self.is_right_pressed,
        }
    }

    /// This controller with the flag of `direction` set to `pressed`.
    pub open spec fn with_flag(self, direction: Direction, pressed: bool) -> CameraController {
        match direction {
            Direction::Forward => CameraController { is_forward_pressed: pressed, ..self },
            Direction::Backward => CameraController { is_backward_pressed: pressed, ..self },
            Direction::Left => CameraController { is_left_pressed: pressed, ..self },
            Direction::Right => CameraController { is_right_pressed: pressed, ..self },
        }
    }

    /// The controller after `event`.
    pub open spec fn after(self, event: WindowEvent) -> CameraController {
        match event_direction(event) {
            Some(direction) => self.with_flag(direction, event_is_press(event)),
            None => self,
        }
    }

    /// The controller while no key is held.
    pub open spec fn released() -> CameraController {
        CameraController {
            is_forward_pressed: false,
            is_backward_pressed: false,
            is_left_pressed: false,
            is_right_pressed: false,
        }
    }

    /// A controller with no key held.
    pub fn new() -> (controller: CameraController)
        ensures
            controller == CameraController::released(),
    {
        CameraController {
            is_forward_pressed: false,
            is_backward_pressed: false,
            is_left_pressed: false,
            is_right_pressed: false,
        }
    }

    /// Whether the key of `direction` is held.
    pub fn is_pressed(&self, direction: Direction) -> (held: bool)
        ensures
            held == self.pressed(direction),
    {
        match direction {
            Direction::Forward => self.is_forward_pressed,
            Direction::Backward => self.is_backward_pressed,
            Direction::Left => self.is_left_pressed,
            Direction::Right => self.is_right_pressed,
        }
    }

    /// The moves of a frame in which the eye is farther from the target
    /// than one step (`beyond_reach`) or not. The eye goes forward only from
    /// beyond reach, so that it never passes through the target; every other
    /// move follows its key alone.
    pub open spec fn motion(self, beyond_reach: bool) -> Motion {
        Motion {
            advance: self.is_forward_pressed && beyond_reach,
            retreat: self.is_backward_pressed,
            strafe_right: self.is_right_pressed,
            strafe_left: self.is_left_pressed,
        }
    }

    /// Decides the moves of one frame from the keys that are held.
    /// `beyond_reach` tells whether the eye is farther from the target than
    /// one step.
    pub fn update_camera(&self, beyond_reach: bool) -> (motion: Motion)
        ensures
            motion == self.motion(beyond_reach),
    {
        Motion {
            advance: self.is_forward_pressed && beyond_reach,
            retreat: self.is_backward_pressed,
            strafe_right: self.is_right_pressed,
            strafe_left: self.is_left_pressed,
        }
    }

    /// Takes note of `event`. A press or release of W, A, S, D or of an
    /// arrow key sets or clears the flag of its direction and is consumed;
    /// any other event changes nothing and is not.
    pub fn process_events(&mut self, event: &WindowEvent) -> (consumed: bool)
        ensures
            consumed == event_direction(*event).is_some(),
            *final(self) == old(self).after(*event),
    {
        match event {
            WindowEvent::KeyboardInput {
                input: KeyboardInput { state, virtual_keycode: Some(keycode) },
            } => {
                let is_pressed = match state {
                    ElementState::Pressed => true,
                    ElementState::Released => false,
                };
                match keycode {
                    VirtualKeyCode::W | VirtualKeyCode::Up => {
                        self.is_forward_pressed = is_pressed;
                        true
                    },
                    VirtualKeyCode::A | VirtualKeyCode::Left => {
                        self.is_left_pressed = is_pressed;
                        true
                    },
                    VirtualKeyCode::S | VirtualKeyCode::Down => {
                        self.is_backward_pressed = is_pressed;
                        true
                    },
                    VirtualKeyCode::D | VirtualKeyCode::Right => {
                        self.is_right_pressed = is_pressed;
                        true
                    },
                    _ => false,
                }
            },
            _ => false,
        }
    }
}

/// An event that is not consumed leaves the controller as it was.
pub proof fn lemma_unrecognized_event_has_no_effect(
    controller: CameraController,
    event: WindowEvent,
)
    requires
        event_direction(event).is_none(),
    ensures
        controller.after(event) == controller,
{
}

/// An event sets the flag of its own direction to whether it was a press,
/// and leaves the other three flags alone.
pub proof fn lemma_event_touches_one_flag(
    controller: CameraController,
    event: WindowEvent,
    direction: Direction,
)
    requires
        event_direction(event).is_some(),
    ensures
        controller.after(event).pressed(direction) == if event_direction(event) == Some(
            direction,
        ) {
            event_is_press(event)
        } else {
            controller.pressed(direction)
        },
{
}

/// The same event twice does what it did once: a held key that repeats
/// changes nothing.
pub proof fn lemma_event_is_idempotent(controller: CameraController, event: WindowEvent)
    ensures
        controller.after(event).after(event) == controller.after(event),
{
}

/// Events of keys of different directions can arrive in either order.
pub proof fn lemma_events_of_different_directions_commute(
    controller: CameraController,
    first: WindowEvent,
    second: WindowEvent,
)
    requires
        event_direction(first) != event_direction(second),
    ensures
        controller.after(first).after(second) == controller.after(second).after(first),
{
}

/// Once the eye is within one step of the target it goes forward no more,
/// whatever keys are held; all other moves go on as before.
pub proof fn lemma_forward_stops_within_reach(controller: CameraController)
    ensures
        !controller.motion(false).advance,
        controller.motion(false) == (Motion { advance: false, ..controller.motion(true) }),
        controller.motion(true).advance == controller.is_forward_pressed,
{
}

/// With no key held the eye stays where it is.
pub proof fn lemma_no_key_no_motion(beyond_reach: bool)
    ensures
        CameraController::released().motion(beyond_reach) == (Motion {
            advance: false,
            retreat: false,
            strafe_right: false,
            strafe_left: false,
        }),
{
}

/// Each move follows the last event of its own direction: after an event of
/// `direction`, the move of that direction is made exactly if the event was
/// a press (and, going forward, the eye is beyond reach).
pub proof fn lemma_motion_follows_last_event(
    controller: CameraController,
    event: WindowEvent,
    beyond_reach: bool,
)
    requires
        event_direction(event).is_some(),
    ensures
        ({
            let motion = controller.after(event).motion(beyond_reach);
            let press = event_is_press(event);
            match event_direction(event).unwrap() {
                Direction::Forward => motion.advance == (press && beyond_reach),
                Direction::Backward => motion.retreat == press,
                Direction::Right => motion.strafe_right == press,
                Direction::Left => motion.strafe_left == press,
            }
        }),
{
}

} // verus!
