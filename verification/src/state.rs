//! The renderer's own state: the size it draws at, the shape of the camera's
//! view, and the movement keys that are held.

use crate::camera::AspectRatio;
use crate::controller::{CameraController, Motion};
use crate::event::{PhysicalSize, WindowEvent};
use crate::render::{frame_commands, record_frame, RenderCommand, SurfaceError};
use crate::vertex::INDEX_COUNT;
use vstd::prelude::*;

verus! {

/// How presenting a frame is timed against the display.
#[derive(Copy, Clone, Debug, PartialEq, Eq, Structural)]
pub enum PresentMode {
    /// Frames wait for the display's refresh, which caps the frame rate.
    Fifo,
    /// Frames are shown as soon as they are ready.
    Immediate,
    /// The newest frame replaces one that still waits.
    Mailbox,
}

/// What the surface is configured with, as far as the renderer decides it.
#[derive(Copy, Clone, Debug, PartialEq, Eq, Structural)]
pub struct SurfaceConfiguration {
    pub width: u32,
    pub height: u32,
    pub present_mode: PresentMode,
}

/// The state of the renderer.
#[derive(Copy, Clone, Debug, PartialEq, Eq)]
pub struct State {
    /// What the surface is configured with.
    pub config: SurfaceConfiguration,
    /// The size of the window in physical pixels.
    pub size: PhysicalSize,
    /// The number of indices that one frame draws.
    pub num_indices: u32,
    /// The aspect ratio of the camera.
    pub aspect: AspectRatio,
    pub camera_controller: CameraController,
}

impl State {
    /// The surface and the camera agree with the window's size, which has an
    /// area, and a frame draws the whole index table.
    pub open spec fn wf(self) -> bool {
        &&& self.size.has_area()
        &&& self.config.width == self.size.width
        &&& self.config.height == self.size.height
        &&& self.config.present_mode == PresentMode::Fifo
        &&& self.aspect.width == self.size.width
        &&& self.aspect.height == self.size.height
        &&& self.num_indices == INDEX_COUNT
    }

    /// The state after a request to draw at `new_size`: unchanged if a side
    /// of `new_size` is zero; else drawing at the new size, the camera's
    /// aspect being the new width over the new height.
    pub open spec fn resized(self, new_size: PhysicalSize) -> State {
        if new_size.has_area() {
            State {
                size: new_size,
                config: SurfaceConfiguration {
                    width: new_size.width,
                    height: new_size.height,
                    ..self.config
                },
                aspect: AspectRatio { width: new_size.width, height: new_size.height },
                ..self
            }
        } else {
            self
        }
    }

    /// The state of a renderer that starts in a window of `size`, no key
    /// held, presenting in step with the display.
    pub fn new(size: PhysicalSize) -> (state: State)
        requires
            size.has_area(),
        ensures
            state.wf(),
            state.size == size,
            state.camera_controller == CameraController::released(),
    {
        State {
            config: SurfaceConfiguration {
                width: size.width,
                height: size.height,
                present_mode: PresentMode::Fifo,
            },
            size,
            num_indices: INDEX_COUNT as u32,
            aspect: AspectRatio { width: size.width, height: size.height },
            camera_controller: CameraController::new(),
        }
    }

    /// Takes up a new window size. Tells whether the surface has to be
    /// configured again, which is the case unless a side of `new_size` is
    /// zero; then nothing changes at all.
    pub fn resize(&mut self, new_size: PhysicalSize) -> (reconfigure: bool)
        ensures
            reconfigure == new_size.has_area(),
            *final(self) == old(self).resized(new_size),
    {
        if new_size.width > 0 && new_size.height > 0 {
            self.size = new_size;
            self.config.width = new_size.width;
            self.config.height = new_size.height;
            self.aspect = AspectRatio { width: self.config.width, height: self.config.height };
            true
        } else {
            false
        }
    }

    /// Hands a window event to the camera controller and tells whether the
    /// controller consumed it.
    pub fn input(&mut self, event: &WindowEvent) -> (consumed: bool)
        ensures
            consumed == crate::controller::event_direction(*event).is_some(),
            *final(self) == (State {
                camera_controller: old(self).camera_controller.after(*event),
                ..*old(self)
            }),
    {
        self.camera_controller.process_events(event)
    }

    /// Decides how the camera's eye moves in this frame, given whether the
    /// eye is farther from the target than one step. The keys stay as they
    /// are: a key that is held moves the eye again in the next frame.
    pub fn update(&self, beyond_reach: bool) -> (motion: Motion)
        ensures
            motion == self.camera_controller.motion(beyond_reach),
    {
        self.camera_controller.update_camera(beyond_reach)
    }

    /// Decides what this frame does, given how acquiring the surface's next
    /// image went. If it was acquired, the frame records its pass and the
    /// pass is returned; if not, the reason is passed on and nothing is
    /// drawn.
    pub fn render(&self, acquired: Result<(), SurfaceError>) -> (pass: Result<
        Vec<RenderCommand>,
        SurfaceError,
    >)
        ensures
            match acquired {
                Ok(_) => pass matches Ok(commands) && commands@ == frame_commands(
                    self.num_indices,
                ),
                Err(e) => pass == Err::<Vec<RenderCommand>, SurfaceError>(e),
            },
    {
        match acquired {
            Ok(_) => Ok(record_frame(self.num_indices)),
            Err(e) => Err(e),
        }
    }
}

/// Every state that the renderer can reach is well-formed: a resize keeps
/// the surface and the camera in step with the window.
pub proof fn lemma_resize_preserves_wf(state: State, new_size: PhysicalSize)
    requires
        state.wf(),
    ensures
        state.resized(new_size).wf(),
{
}

/// A resize to a size without area changes nothing, whatever the state.
pub proof fn lemma_resize_to_nothing_is_no_op(state: State, width: u32, height: u32)
    requires
        width == 0 || height == 0,
    ensures
        state.resized(PhysicalSize { width, height }) == state,
{
}

/// A resize to a size with an area sets the camera's aspect to exactly the
/// new width over the new height, whatever the state.
pub proof fn lemma_resize_sets_aspect(state: State, width: u32, height: u32)
    requires
        width > 0,
        height > 0,
    ensures
        state.resized(PhysicalSize { width, height }).aspect == (AspectRatio { width, height }),
        state.resized(PhysicalSize { width, height }).config.width == width,
        state.resized(PhysicalSize { width, height }).config.height == height,
{
}

/// Only the last of a run of effective resizes counts.
pub proof fn lemma_last_resize_wins(state: State, first: PhysicalSize, second: PhysicalSize)
    requires
        second.has_area(),
    ensures
        state.resized(first).resized(second) == state.resized(second),
{
}

/// A frame of a well-formed state ends with one draw of the whole index
/// table, 36 indices, in one instance, whatever size it draws at and
/// whatever keys are held.
pub proof fn lemma_frame_draws_whole_table(state: State)
    requires
        state.wf(),
    ensures
        frame_commands(state.num_indices).len() == 6,
        frame_commands(state.num_indices).last() == (RenderCommand::DrawIndexed {
            first_index: 0,
            end_index: 36,
            base_vertex: 0,
            first_instance: 0,
            end_instance: 1,
        }),
        forall|i: int|
            0 <= i < 5 ==> !(#[trigger] frame_commands(state.num_indices)[i] is DrawIndexed),
{
}

} // verus!
