//! The overlay window: how large it is, where it goes on the monitor, and
//! what it does about the events it is sent.

use vstd::prelude::*;

verus! {

/// Width of the overlay window in screen coordinates.
pub const WINDOW_WIDTH: u32 = 40;

/// Height of the overlay window in screen coordinates.
pub const WINDOW_HEIGHT: u32 = 40;

/// How far beyond the window's width the cursor is put when it is moved out
/// of the way.
pub const CURSOR_MARGIN: u32 = 40;

/// A key of the keyboard, as far as the overlay tells keys apart.
#[derive(Clone, Copy, Debug, PartialEq, Eq, Structural)]
pub enum Key {
    Escape,
    /// Any other key.
    Other,
}

/// What was done to a key.
#[derive(Clone, Copy, Debug, PartialEq, Eq, Structural)]
pub enum Action {
    Release,
    Press,
    Repeat,
}

/// What happened to the window, as far as the overlay cares.
#[derive(Clone, Copy, Debug, PartialEq, Eq, Structural)]
pub enum WindowEvent {
    /// Something was done to a key.
    Key(Key, Action),
    /// The cursor entered the window, or left it.
    CursorEnter(bool),
    /// The window gained the input focus, or lost it.
    Focus(bool),
    /// Anything else.
    Other,
}

/// What the overlay does about an event.
#[derive(Clone, Copy, Debug, PartialEq, Eq, Structural)]
pub enum Reaction {
    /// Ask the window to close.
    Close,
    /// Put the cursor at this position, relative to the window's corner.
    MoveCursor { x: u32, y: u32 },
    /// Leave things as they are.
    Nothing,
}

/// What the overlay does about `event`: pressing Escape closes the window,
/// and nothing else done to a key does anything; the cursor coming or
/// going, and the focus coming or going, send the cursor to a place beside
/// the window, so that the overlay never holds it.
pub fn handle_window_event(event: WindowEvent) -> (reaction: Reaction)
    ensures
        reaction == match event {
            WindowEvent::Key(Key::Escape, Action::Press) => Reaction::Close,
            WindowEvent::Key(_, _) => Reaction::Nothing,
            WindowEvent::CursorEnter(_) | WindowEvent::Focus(_) => Reaction::MoveCursor {
                x: 80,
                y: 40,
            },
            WindowEvent::Other => Reaction::Nothing,
        },
{
    match event {
        WindowEvent::Key(Key::Escape, Action::Press) => Reaction::Close,
        WindowEvent::Key(_, _) => Reaction::Nothing,
        WindowEvent::CursorEnter(_) | WindowEvent::Focus(_) => Reaction::MoveCursor {
            x: WINDOW_WIDTH + CURSOR_MARGIN,
            y: WINDOW_HEIGHT,
        },
        WindowEvent::Other => Reaction::Nothing,
    }
}

/// Whether a monitor of this size has room for the window around its
/// centre.
pub fn fits_monitor(monitor_width: u32, monitor_height: u32) -> (fits: bool)
    ensures
        fits == (monitor_width / 2 >= 20 && monitor_height / 2 >= 20),
{
    monitor_width / 2 >= WINDOW_WIDTH / 2 && monitor_height / 2 >= WINDOW_HEIGHT / 2
}

/// Where the window's corner goes so that the window sits at the centre of
/// a monitor of the given size: half the monitor less half the window, on
/// each axis.
pub fn window_origin(monitor_width: u32, monitor_height: u32) -> (origin: (i32, i32))
    requires
        monitor_width / 2 >= 20,
        monitor_height / 2 >= 20,
    ensures
        origin.0 == monitor_width / 2 - 20,
        origin.1 == monitor_height / 2 - 20,
{
    let x: u32 = monitor_width / 2 - WINDOW_WIDTH / 2;
    let y: u32 = monitor_height / 2 - WINDOW_HEIGHT / 2;
    (x as i32, y as i32)
}

} // verus!
