use vstd::prelude::*;

verus! {

/// The physical keys that window handling tells apart.
#[derive(Debug, Clone, Copy, PartialEq, Eq, Structural)]
pub enum Key {
    Escape,
    Other,
}

/// An event reported for one window, reduced to what decides the
/// application's reaction to it.
#[derive(Debug, Clone, Copy, PartialEq, Eq, Structural)]
pub enum WindowInput {
    /// The user asked to close the window (title bar button, window manager).
    CloseRequested,
    /// A key changed state while the window had focus.
    Keyboard { pressed: bool, key: Key },
    /// Anything else: resizes, redraws, pointer motion and so on.
    Other,
}

/// A window is closed when its close is requested or when Escape is pressed
/// in it; releasing a key, or any other event, leaves it open.
pub open spec fn requests_close(input: WindowInput) -> bool {
    match input {
        WindowInput::CloseRequested => true,
        WindowInput::Keyboard { pressed, key } => pressed && key == Key::Escape,
        WindowInput::Other => false,
    }
}

/// Whether `input` closes the window it was reported for.
pub fn is_close_request(input: &WindowInput) -> (r: bool)
    ensures
        r == requests_close(*input),
{
    match input {
        WindowInput::CloseRequested => true,
        WindowInput::Keyboard { pressed, key } => *pressed && matches!(key, Key::Escape),
        WindowInput::Other => false,
    }
}

} // verus!
