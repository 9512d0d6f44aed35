//! What the renderer does about each event of the event loop and about the
//! outcome of each frame. The caller owns the loop, the window and the
//! graphics device; it hands each event in and carries out the directive
//! that comes back.

use crate::event::{ElementState, Event, KeyboardInput, PhysicalSize, VirtualKeyCode, WindowEvent};
use crate::render::{Severity, SurfaceError};
use crate::state::State;
use vstd::prelude::*;

verus! {

/// What the caller has to do next.
#[derive(Copy, Clone, Debug, PartialEq, Eq)]
pub enum Directive {
    /// Nothing; wait for the next event.
    Wait,
    /// Leave the event loop.
    Exit,
    /// Configure the surface with the state's configuration.
    Reconfigure,
    /// Update the camera, then render one frame and report how it went.
    DrawFrame,
    /// Ask the window for another redraw.
    RequestRedraw,
    /// Note the error and go on; the frame is skipped.
    Skip(SurfaceError),
}

/// The event asks to end the program: the window is being closed, or
/// Escape went down.
pub open spec fn is_exit_request(event: WindowEvent) -> bool {
    match event {
        WindowEvent::CloseRequested => true,
        WindowEvent::KeyboardInput { input } => input.state == ElementState::Pressed
            && input.virtual_keycode == Some(VirtualKeyCode::Escape),
        _ => false,
    }
}

/// The size that the event announces, if it announces one.
pub open spec fn announced_size(event: WindowEvent) -> Option<PhysicalSize> {
    match event {
        WindowEvent::Resized(size) => Some(size),
        WindowEvent::ScaleFactorChanged { new_inner_size } => Some(new_inner_size),
        _ => None,
    }
}

/// The state after an event of the renderer's own window.
pub open spec fn state_after_window_event(state: State, event: WindowEvent) -> State {
    if is_exit_request(event) {
        state
    } else if let Some(size) = announced_size(event) {
        state.resized(size)
    } else {
        State { camera_controller: state.camera_controller.after(event), ..state }
    }
}

/// The directive for an event of the renderer's own window.
pub open spec fn directive_for_window_event(event: WindowEvent) -> Directive {
    if is_exit_request(event) {
        Directive::Exit
    } else if let Some(size) = announced_size(event) {
        if size.has_area() {
            Directive::Reconfigure
        } else {
            Directive::Wait
        }
    } else {
        Directive::Wait
    }
}

/// The state after `event`, for a renderer whose window is `window`.
pub open spec fn state_after(state: State, window: u64, event: Event) -> State {
    match event {
        Event::WindowEvent { window_id, event } => if window_id == window {
            state_after_window_event(state, event)
        } else {
            state
        },
        _ => state,
    }
}

/// The directive for `event`, for a renderer whose window is `window`.
pub open spec fn directive_for(window: u64, event: Event) -> Directive {
    match event {
        Event::WindowEvent { window_id, event } => if window_id == window {
            directive_for_window_event(event)
        } else {
            Directive::Wait
        },
        Event::RedrawRequested { window_id } => if window_id == window {
            Directive::DrawFrame
        } else {
            Directive::Wait
        },
        Event::MainEventsCleared => Directive::RequestRedraw,
        Event::Other => Directive::Wait,
    }
}

/// Handles an event of the renderer's own window.
fn handle_window_event(state: &mut State, event: &WindowEvent) -> (directive: Directive)
    ensures
        *final(state) == state_after_window_event(*old(state), *event),
        directive == directive_for_window_event(*event),
{
    match event {
        WindowEvent::CloseRequested => Directive::Exit,
        WindowEvent::KeyboardInput {
            input: KeyboardInput {
                state: ElementState::Pressed,
                virtual_keycode: Some(VirtualKeyCode::Escape),
            },
        } => Directive::Exit,
        WindowEvent::Resized(size) => {
            if state.resize(*size) {
                Directive::Reconfigure
            } else {
                Directive::Wait
            }
        },
        WindowEvent::ScaleFactorChanged { new_inner_size } => {
            if state.resize(*new_inner_size) {
                Directive::Reconfigure
            } else {
                Directive::Wait
            }
        },
        _ => {
            state.input(event);
            Directive::Wait
        },
    }
}

/// Handles one event of the event loop for the renderer whose window is
/// `window`. A close request or Escape ends the program. A new size is taken
/// up, and the surface is to be reconfigured unless a side of it is zero.
/// Key events reach the camera controller. A redraw request asks for one
/// frame; once all events are handled, another redraw is requested. Events
/// of other windows, and all other events, change nothing.
pub fn handle_event(state: &mut State, window: u64, event: &Event) -> (directive: Directive)
    ensures
        *final(state) == state_after(*old(state), window, *event),
        directive == directive_for(window, *event),
{
    match event {
        Event::WindowEvent { window_id, event } => {
            if *window_id == window {
                handle_window_event(state, event)
            } else {
                Directive::Wait
            }
        },
        Event::RedrawRequested { window_id } => {
            if *window_id == window {
                Directive::DrawFrame
            } else {
                Directive::Wait
            }
        },
        Event::MainEventsCleared => Directive::RequestRedraw,
        Event::Other => Directive::Wait,
    }
}

/// The directive after a frame that ended with `outcome`, for a renderer in
/// `state`.
pub open spec fn directive_after_frame(
    state: State,
    outcome: Result<(), SurfaceError>,
) -> Directive {
    match outcome {
        Ok(_) => Directive::Wait,
        Err(e) => match e.spec_severity() {
            Severity::Recoverable => if state.size.has_area() {
                Directive::Reconfigure
            } else {
                Directive::Wait
            },
            Severity::Fatal => Directive::Exit,
            Severity::Transient => Directive::Skip(e),
        },
    }
}

/// The state after a frame that ended with `outcome`: a lost surface has the
/// current size taken up again, and nothing else changes anything.
pub open spec fn state_after_frame(state: State, outcome: Result<(), SurfaceError>) -> State {
    match outcome {
        Err(SurfaceError::Lost) => state.resized(state.size),
        _ => state,
    }
}

/// Decides how to go on after a frame. A frame that was presented needs
/// nothing more. A lost surface is recovered by taking up the current size
/// again, which has the surface reconfigured. Without memory the program
/// ends. Any other failure costs this one frame and nothing else.
pub fn frame_finished(state: &mut State, outcome: Result<(), SurfaceError>) -> (directive:
    Directive)
    ensures
        *final(state) == state_after_frame(*old(state), outcome),
        directive == directive_after_frame(*old(state), outcome),
{
    match outcome {
        Ok(_) => Directive::Wait,
        Err(e) => match e.severity() {
            Severity::Recoverable => {
                let size = state.size;
                if state.resize(size) {
                    Directive::Reconfigure
                } else {
                    Directive::Wait
                }
            },
            Severity::Fatal => Directive::Exit,
            Severity::Transient => Directive::Skip(e),
        },
    }
}

/// No event and no frame leads a well-formed state to one that is not.
pub proof fn lemma_events_preserve_wf(state: State, window: u64, event: Event)
    requires
        state.wf(),
    ensures
        state_after(state, window, event).wf(),
        forall|outcome: Result<(), SurfaceError>|
            #[trigger] state_after_frame(state, outcome) == state,
{
}

/// The program ends on a close request, on Escape going down, and when a
/// frame finds no memory, and on nothing else.
pub proof fn lemma_exit_only_when_asked(
    state: State,
    window: u64,
    event: Event,
    outcome: Result<(), SurfaceError>,
)
    ensures
        directive_for(window, event) == Directive::Exit <==> (event matches Event::WindowEvent {
            window_id,
            event: inner,
        } && window_id == window && is_exit_request(inner)),
        directive_after_frame(state, outcome) == Directive::Exit <==> outcome == Err::<
            (),
            SurfaceError,
        >(SurfaceError::OutOfMemory),
{
}

/// A lost surface is always recovered in a well-formed state: the surface
/// is reconfigured with the configuration that it had.
pub proof fn lemma_lost_surface_is_reconfigured(state: State)
    requires
        state.wf(),
    ensures
        directive_after_frame(state, Err(SurfaceError::Lost)) == Directive::Reconfigure,
        state.resized(state.size) == state,
{
}

/// An event that the camera controller consumes has no other effect: it
/// asks for nothing and leaves the size, the surface and the camera's aspect
/// alone.
pub proof fn lemma_consumed_event_only_moves_flags(state: State, window: u64, event: WindowEvent)
    requires
        crate::controller::event_direction(event).is_some(),
    ensures
        directive_for(window, Event::WindowEvent { window_id: window, event }) == Directive::Wait,
        state_after(state, window, Event::WindowEvent { window_id: window, event }) == (State {
            camera_controller: state.camera_controller.after(event),
            ..state
        }),
{
}

} // verus!
