//! What the program does on each event of its window.
//!
//! The program is suspended until the windowing system resumes it; it then
//! sets up its window and graphics state and runs until it is asked to
//! close. The caller performs each action and comes back with the next event.

use vstd::prelude::*;

verus! {

/// Whether the window and the graphics state exist.
#[derive(Clone, Copy, Debug, PartialEq, Eq, Structural)]
pub enum Phase {
    /// Nothing is set up yet.
    Suspended,
    /// Window, context, shaders and vertex data are in place.
    Running,
}

/// An event of the windowing system, as far as the program tells events
/// apart.
#[derive(Clone, Copy, Debug, PartialEq, Eq, Structural)]
pub enum Event {
    /// The program may create its window.
    Resumed,
    /// The user asked to close the window.
    CloseRequested,
    /// The window wants to be drawn.
    RedrawRequested,
    /// Any other event.
    Other,
}

/// What the caller is to do in answer to an event.
#[derive(Clone, Copy, Debug, PartialEq, Eq, Structural)]
pub enum Action {
    /// Create the window and the graphics state.
    Setup,
    /// Leave the event loop.
    Exit,
    /// Draw a frame, then ask for the next redraw.
    Redraw,
    /// Nothing.
    Ignore,
}

/// The phase after an event: resuming sets the program running, and nothing
/// takes it back.
pub open spec fn phase_after(phase: Phase, event: Event) -> Phase {
    match event {
        Event::Resumed => Phase::Running,
        _ => phase,
    }
}

/// The action that answers an event.
pub open spec fn action_for(event: Event) -> Action {
    match event {
        Event::Resumed => Action::Setup,
        Event::CloseRequested => Action::Exit,
        Event::RedrawRequested => Action::Redraw,
        Event::Other => Action::Ignore,
    }
}

/// Answers one event: the phase that follows, and the action to perform.
///
/// A redraw draws with the graphics state, so it can only be asked for while
/// the program is running.
pub fn step(phase: Phase, event: Event) -> (r: (Phase, Action))
    requires
        event == Event::RedrawRequested ==> phase == Phase::Running,
    ensures
        r.0 == phase_after(phase, event),
        r.1 == action_for(event),
        r.1 == Action::Redraw ==> r.0 == Phase::Running,
        phase == Phase::Running ==> r.0 == Phase::Running,
{
    match event {
        Event::Resumed => (Phase::Running, Action::Setup),
        Event::CloseRequested => (phase, Action::Exit),
        Event::RedrawRequested => (phase, Action::Redraw),
        Event::Other => (phase, Action::Ignore),
    }
}

} // verus!
