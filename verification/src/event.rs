//! Window events, reduced to what the frame loop reads of them.

use vstd::prelude::*;
use crate::math::UVec2;

verus! {

/// Whether a key went down or came up.
#[derive(Clone, Copy, Debug, PartialEq, Eq, Structural)]
pub enum ElementState {
    Pressed,
    Released,
}

/// The keys that the viewer tells apart.
#[derive(Clone, Copy, Debug, PartialEq, Eq, Structural)]
pub enum VirtualKeyCode {
    Left,
    Right,
    Up,
    Down,
    NumpadAdd,
    NumpadSubtract,
    Escape,
    /// Any other key.
    Other,
}

/// An event of the viewer's own window.
#[derive(Clone, Copy, Debug, PartialEq, Eq, Structural)]
pub enum WindowEvent {
    /// A key changed state. The key code is absent where the platform
    /// reported a key that it could not name.
    KeyboardInput { state: ElementState, virtual_keycode: Option<VirtualKeyCode> },
    /// The window's inner area now has this many pixels.
    Resized(UVec2),
    /// The scale factor changed, and with it the inner area's pixel count.
    ScaleFactorChanged { new_inner_size: UVec2 },
    /// The user asked to close the window.
    CloseRequested,
    /// Any other window event.
    Other,
}

/// An event of the event loop.
#[derive(Clone, Copy, Debug, PartialEq, Eq, Structural)]
pub enum Event {
    /// An event of the viewer's own window.
    WindowEvent(WindowEvent),
    /// The window's contents are due to be drawn again.
    RedrawRequested,
    /// Every pending event has been handed out.
    MainEventsCleared,
    /// Any other event, those of other windows among them.
    Other,
}

} // verus!
