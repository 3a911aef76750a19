//! What is on screen: the connect and disconnect controls always, the
//! drawing surface only while the client is connected.

use vstd::prelude::*;
use crate::machine::ConnectionMachine;

verus! {

/// The width of the drawing surface.
pub const SURFACE_WIDTH: u32 = 1600;

/// The height of the drawing surface.
pub const SURFACE_HEIGHT: u32 = 900;

/// The size that the drawing surface is mounted with.
#[derive(Clone, Copy, Debug, PartialEq, Eq, Structural, Hash)]
pub struct DrawSurface {
    pub width: u32,
    pub height: u32,
}

/// What the view has to show.
#[derive(Clone, Copy, Debug, PartialEq, Eq, Hash)]
pub struct Screen {
    /// What the controls are told: whether to offer connect or disconnect.
    pub connected: bool,
    /// The drawing surface to mount, if any.
    pub surface: Option<DrawSurface>,
}

impl Screen {
    /// The screen for a client that is connected or not.
    pub open spec fn showing(connected: bool) -> Screen {
        Screen {
            connected,
            surface: if connected {
                Some(DrawSurface { width: SURFACE_WIDTH, height: SURFACE_HEIGHT })
            } else {
                None
            },
        }
    }

    /// The screen for a client that is connected or not: the drawing surface
    /// is mounted, at its fixed size, exactly when the client is connected.
    pub fn compose(connected: bool) -> (screen: Screen)
        ensures
            screen == Screen::showing(connected),
    {
        let surface = if connected {
            Some(DrawSurface { width: SURFACE_WIDTH, height: SURFACE_HEIGHT })
        } else {
            None
        };
        Screen { connected, surface }
    }

    /// The screen for the machine as it stands.
    pub fn of(machine: &ConnectionMachine) -> (screen: Screen)
        ensures
            screen == Screen::showing(machine@.connected()),
    {
        Screen::compose(machine.is_connected())
    }
}

} // verus!
