//! The window events that the renderer reacts to, as plain values.

use vstd::prelude::*;

verus! {

/// Whether a key went down or came up.
#[derive(Copy, Clone, Debug, PartialEq, Eq, Structural)]
pub enum ElementState {
    Pressed,
    Released,
}

/// The keys that the renderer tells apart. Every other key is `Other`.
#[derive(Copy, Clone, Debug, PartialEq, Eq, Structural)]
pub enum VirtualKeyCode {
    W,
    A,
    S,
    D,
    Up,
    Down,
    Left,
    Right,
    Escape,
    Other,
}

/// One change of one key. `virtual_keycode` is `None` where the platform
/// could not name the key.
#[derive(Copy, Clone, Debug, PartialEq, Eq)]
pub struct KeyboardInput {
    pub state: ElementState,
    pub virtual_keycode: Option<VirtualKeyCode>,
}

/// A size in physical pixels.
#[derive(Copy, Clone, Debug, PartialEq, Eq, Structural)]
pub struct PhysicalSize {
    pub width: u32,
    pub height: u32,
}

impl PhysicalSize {
    /// Both sides are non-zero. A window reports a zero side for a moment
    /// while it is minimized.
    pub open spec fn has_area(self) -> bool {
        self.width > 0 && self.height > 0
    }
}

/// An event of one window.
#[derive(Copy, Clone, Debug, PartialEq, Eq)]
pub enum WindowEvent {
    CloseRequested,
    KeyboardInput { input: KeyboardInput },
    Resized(PhysicalSize),
    ScaleFactorChanged { new_inner_size: PhysicalSize },
    /// Any event that the renderer has no use for.
    Other,
}

/// An event of the event loop.
#[derive(Copy, Clone, Debug, PartialEq, Eq)]
pub enum Event {
    WindowEvent { window_id: u64, event: WindowEvent },
    RedrawRequested { window_id: u64 },
    MainEventsCleared,
    /// Any event that the renderer has no use for.
    Other,
}

} // verus!
