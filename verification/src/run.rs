//! The decisions of a frame loop: what to do on each event of the window,
//! and what to do when a frame could not be shown.

use vstd::prelude::*;

verus! {

/// Why the surface gave no texture to draw the frame into.
#[derive(Clone, Copy, Debug, PartialEq, Eq, Structural)]
pub enum SurfaceError {
    /// The frame took too long to present.
    Timeout,
    /// The surface has changed and has to be configured again.
    Outdated,
    /// The surface was lost and has to be made or configured again.
    Lost,
    /// There is no memory left.
    OutOfMemory,
}

/// What to do after a frame.
#[derive(Clone, Copy, Debug, PartialEq, Eq, Structural)]
pub enum Recovery {
    /// Go on with the next frame.
    Continue,
    /// Configure the surface again at its present size, then go on.
    Reconfigure,
    /// Make a note of it and go on; nothing has changed.
    Skip,
    /// Leave the loop.
    Halt,
}

/// An event of the window, as far as the loop tells events apart.
#[derive(Clone, Copy, Debug, PartialEq, Eq, Structural)]
pub enum Event {
    /// The application was resumed.
    Resumed,
    /// The window is asked to close.
    CloseRequested,
    /// The escape key went down.
    EscapePressed,
    /// The window has a new size, in pixels.
    Resized { width: u32, height: u32 },
    /// The window wants to be drawn.
    RedrawRequested,
    /// Anything else, or an event that was dealt with before.
    Other,
}

/// What the loop does on an event.
#[derive(Clone, Copy, Debug, PartialEq, Eq, Structural)]
pub enum Action {
    /// Nothing.
    Ignore,
    /// Leave the loop.
    Exit,
    /// Configure the surface for the given size.
    Resize { width: u32, height: u32 },
    /// Ask for the next redraw, and nothing more: the surface is not
    /// configured yet.
    Wait,
    /// Ask for the next redraw, then update and render a frame.
    Draw,
}

/// The state of a frame loop.
#[derive(Clone, Copy, Debug, PartialEq, Eq, Structural)]
pub struct FrameLoop {
    /// Whether the surface has been configured for the size of the window.
    pub surface_configured: bool,
}

/// What to do after a frame that ended as given: a lost or outdated surface
/// is configured again, a timeout is passed over, and without memory the
/// loop ends.
pub open spec fn recovery(rendered: Result<(), SurfaceError>) -> Recovery {
    match rendered {
        Ok(_) => Recovery::Continue,
        Err(SurfaceError::Lost) => Recovery::Reconfigure,
        Err(SurfaceError::Outdated) => Recovery::Reconfigure,
        Err(SurfaceError::OutOfMemory) => Recovery::Halt,
        Err(SurfaceError::Timeout) => Recovery::Skip,
    }
}

/// What to do after a frame that ended as given.
pub fn after_render(rendered: Result<(), SurfaceError>) -> (next: Recovery)
    ensures
        next == recovery(rendered),
{
    match rendered {
        Ok(_) => Recovery::Continue,
        Err(SurfaceError::Lost) => Recovery::Reconfigure,
        Err(SurfaceError::Outdated) => Recovery::Reconfigure,
        Err(SurfaceError::OutOfMemory) => Recovery::Halt,
        Err(SurfaceError::Timeout) => Recovery::Skip,
    }
}

impl FrameLoop {
    /// The action on an event.
    pub open spec fn action(self, event: Event) -> Action {
        match event {
            Event::Resumed => Action::Ignore,
            Event::Other => Action::Ignore,
            Event::CloseRequested => Action::Exit,
            Event::EscapePressed => Action::Exit,
            Event::Resized { width, height } => Action::Resize { width, height },
            Event::RedrawRequested => if self.surface_configured {
                Action::Draw
            } else {
                Action::Wait
            },
        }
    }

    /// The state after an event: the surface counts as configured from the
    /// first new size on.
    pub open spec fn next(self, event: Event) -> FrameLoop {
        FrameLoop { surface_configured: self.surface_configured || event is Resized }
    }

    /// The state after a run of events.
    pub open spec fn after(self, events: Seq<Event>) -> FrameLoop
        decreases events.len(),
    {
        if events.len() == 0 {
            self
        } else {
            self.after(events.drop_last()).next(events.last())
        }
    }

    /// A loop whose surface is not configured yet.
    pub fn new() -> (state: FrameLoop)
        ensures
            !state.surface_configured,
    {
        FrameLoop { surface_configured: false }
    }

    /// Takes note of an event and says what to do.
    pub fn handle(&mut self, event: Event) -> (action: Action)
        ensures
            action == old(self).action(event),
            *final(self) == old(self).next(event),
    {
        match event {
            Event::Resumed => Action::Ignore,
            Event::Other => Action::Ignore,
            Event::CloseRequested => Action::Exit,
            Event::EscapePressed => Action::Exit,
            Event::Resized { width, height } => {
                self.surface_configured = true;
                Action::Resize { width, height }
            },
            Event::RedrawRequested => {
                if self.surface_configured {
                    Action::Draw
                } else {
                    Action::Wait
                }
            },
        }
    }
}

/// A frame is drawn on a redraw request that follows a new size, and on no
/// other event: never before the surface was configured.
pub proof fn lemma_draws_only_once_configured(events: Seq<Event>, event: Event)
    ensures
        ({
            let state = (FrameLoop { surface_configured: false }).after(events);
            state.action(event) == Action::Draw <==> event is RedrawRequested && exists|i: int|
                0 <= i < events.len() && events[i] is Resized
        }),
{
    lemma_configured_after_resize(events);
}

/// The surface counts as configured after exactly those runs of events that
/// hold a new size.
proof fn lemma_configured_after_resize(events: Seq<Event>)
    ensures
        (FrameLoop { surface_configured: false }).after(events).surface_configured <==> exists|
            i: int,
        | 0 <= i < events.len() && events[i] is Resized,
    decreases events.len(),
{
    if events.len() > 0 {
        let head = events.drop_last();
        lemma_configured_after_resize(head);
        if exists|i: int| 0 <= i < events.len() && events[i] is Resized {
            let i = choose|i: int| 0 <= i < events.len() && events[i] is Resized;
            if i < head.len() {
                assert(head[i] is Resized);
            }
        }
    }
}

} // verus!
