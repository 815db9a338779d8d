//! The events of the host loop, as far as the orchestration reads them.

use crate::tracked_window::at_least_one;
use vstd::prelude::*;

verus! {

/// What happened to one native window.
#[derive(Clone, Copy, Debug, PartialEq, Eq, Structural)]
pub enum WindowEvent {
    /// The window has a new size in pixels.
    Resized { width: u32, height: u32 },
    /// The user asked for the window to be closed.
    CloseRequested,
    /// The window has to be drawn again.
    RedrawRequested,
    /// Any other input of the window (pointer, keyboard, focus and the like).
    Other,
}

/// One event of the host loop. Native windows are named by their identifier.
#[derive(Clone, Copy, Debug, PartialEq, Eq, Structural)]
pub enum Event {
    /// An event of the window with this identifier.
    WindowEvent { window_id: u64, event: WindowEvent },
    /// An event that the program sent itself, to one window or to none.
    UserEvent { target: Option<u64> },
    /// The loop is about to end.
    LoopExiting,
    /// Any other notification of the loop.
    Other,
}

impl Event {
    /// The event goes to the windows rather than to the application itself:
    /// every event does, but a user event that names no window.
    pub open spec fn for_windows(&self) -> bool {
        !(self matches Event::UserEvent { target } && target is None)
    }

    /// Tells whether the event is dispatched to the windows. The one kind
    /// that is not, a user event that names no window, is for the handler of
    /// the application.
    pub fn is_for_windows(&self) -> (yes: bool)
        ensures
            yes == self.for_windows(),
    {
        match self {
            Event::UserEvent { target } => target.is_some(),
            _ => true,
        }
    }
}

/// The event is meant for the window whose native identifier is `window`,
/// where `None` stands for a window that cannot tell its identifier.
///
/// Events of a window and user events sent to a window reach that window
/// only; everything else reaches every window. A window that cannot tell its
/// identifier takes every event, so that it does not lose its first ones.
pub open spec fn addressed_to(event: Event, window: Option<u64>) -> bool {
    match window {
        None => true,
        Some(id) => match event {
            Event::WindowEvent { window_id, .. } => window_id == id,
            Event::UserEvent { target: Some(target) } => target == id,
            _ => true,
        },
    }
}

/// Where the frame of a redraw comes from.
#[derive(Clone, Copy, Debug, PartialEq, Eq, Structural)]
pub enum RedrawSource {
    /// The deferred callback of a viewport draws it.
    Deferred,
    /// The state of the window draws it.
    Window,
    /// Nothing draws: the frame is left empty.
    Empty,
}

/// The work that an event asks of the window it is dispatched to.
#[derive(Clone, Copy, Debug, PartialEq, Eq, Structural)]
pub enum Handler {
    /// Give the rendering surface this size.
    Resize { width: u32, height: u32 },
    /// Nothing to run: the window is asked to close.
    Close,
    /// Run one frame of the UI and present it.
    Redraw { source: RedrawSource },
    /// Hand the user event to the state of the window.
    CustomEvent,
    /// Let the UI library translate the input; redraw if it says so.
    Input,
    /// Release what the UI context holds on the graphics device.
    Teardown,
    /// Nothing to do.
    Nothing,
}

/// The work that `event` asks of a window, given whether the window has a
/// state of its own and whether it has a deferred callback.
pub open spec fn handler_for(event: Event, has_state: bool, has_callback: bool) -> Handler {
    match event {
        Event::UserEvent { .. } => if has_state {
            Handler::CustomEvent
        } else {
            Handler::Nothing
        },
        Event::WindowEvent { event: WindowEvent::Resized { width, height }, .. } => Handler::Resize {
            width: at_least_one(width),
            height: at_least_one(height),
        },
        Event::WindowEvent { event: WindowEvent::CloseRequested, .. } => Handler::Close,
        Event::WindowEvent { event: WindowEvent::RedrawRequested, .. } => Handler::Redraw {
            source: if has_callback {
                RedrawSource::Deferred
            } else if has_state {
                RedrawSource::Window
            } else {
                RedrawSource::Empty
            },
        },
        Event::WindowEvent { event: WindowEvent::Other, .. } => Handler::Input,
        Event::LoopExiting => Handler::Teardown,
        Event::Other => Handler::Nothing,
    }
}

/// Chooses the work that an event asks of the window it is dispatched to.
pub fn route(event: &Event, has_state: bool, has_callback: bool) -> (handler: Handler)
    ensures
        handler == handler_for(*event, has_state, has_callback),
{
    match event {
        Event::UserEvent { .. } => {
            if has_state {
                Handler::CustomEvent
            } else {
                Handler::Nothing
            }
        },
        Event::WindowEvent { event: window_event, .. } => match window_event {
            WindowEvent::Resized { width, height } => Handler::Resize {
                width: if *width < 1 { 1 } else { *width },
                height: if *height < 1 { 1 } else { *height },
            },
            WindowEvent::CloseRequested => Handler::Close,
            WindowEvent::RedrawRequested => {
                let source = if has_callback {
                    RedrawSource::Deferred
                } else if has_state {
                    RedrawSource::Window
                } else {
                    RedrawSource::Empty
                };
                Handler::Redraw { source }
            },
            WindowEvent::Other => Handler::Input,
        },
        Event::LoopExiting => Handler::Teardown,
        Event::Other => Handler::Nothing,
    }
}

} // verus!
