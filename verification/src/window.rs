use vstd::prelude::*;

verus! {

/// The window events the status window reacts to; every other event is `Other`.
#[derive(Debug, Clone, Copy, PartialEq, Eq, Structural)]
pub enum WindowInput {
    /// The user asked to close the window.
    CloseRequested,
    /// The window must be drawn again.
    RedrawRequested,
    /// The window now has this size, in physical pixels.
    Resized { width: u32, height: u32 },
    /// A key event whose logical key is Escape.
    EscapeKey,
    /// Any other event.
    Other,
}

/// What the status window does about an event.
#[derive(Debug, Clone, Copy, PartialEq, Eq, Structural)]
pub enum WindowResponse {
    /// Announce the closing and leave the event loop.
    Close,
    /// Clear the window with the current colour, then ask to be drawn again.
    Redraw,
    /// Reconfigure the drawing surface to the new size (a redraw request follows by itself).
    Resize { width: u32, height: u32 },
    /// Nothing to do.
    Ignore,
}

/// The status window's response to a window event: closing on a close request or on the
/// Escape key, redrawing continuously, following resizes, and ignoring everything else.
pub fn respond_to_window_event(input: WindowInput) -> (r: WindowResponse)
    ensures
        r == (match input {
            WindowInput::CloseRequested => WindowResponse::Close,
            WindowInput::EscapeKey => WindowResponse::Close,
            WindowInput::RedrawRequested => WindowResponse::Redraw,
            WindowInput::Resized { width, height } => WindowResponse::Resize { width, height },
            WindowInput::Other => WindowResponse::Ignore,
        }),
{
    match input {
        WindowInput::CloseRequested => WindowResponse::Close,
        WindowInput::RedrawRequested => WindowResponse::Redraw,
        WindowInput::Resized { width, height } => WindowResponse::Resize { width, height },
        WindowInput::EscapeKey => WindowResponse::Close,
        WindowInput::Other => WindowResponse::Ignore,
    }
}

} // verus!
