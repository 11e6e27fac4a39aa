//! What the frame loop does with an event of the platform.
//!
//! The windowing layer reports its events as [`PlatformEvent`] values. The
//! loop keeps a [`SceneParams`] and asks [`process_event`] how the event
//! changes it and how the loop goes on.

use vstd::prelude::*;
use crate::input::KeyCode;

verus! {

/// An event of the window, reduced to what the loop decides on.
#[derive(Debug, Clone, Copy, PartialEq, Eq, Structural)]
pub enum PlatformEvent {
    /// The window asks to be drawn again.
    RedrawRequested,
    /// Every pending redraw request was delivered.
    RedrawEventsCleared,
    /// The window is gone.
    Destroyed,
    /// The user asked to close the window.
    CloseRequested,
    /// The window has a new size in physical pixels.
    Resized { width: u32, height: u32 },
    /// A key went down.
    KeyPressed(KeyCode),
    /// Anything else.
    Other,
}

/// What the loop remembers between events.
#[derive(Debug, Clone, Copy, PartialEq, Eq, Structural)]
pub struct SceneParams {
    pub width: u32,
    pub height: u32,
    /// The size changed since the surface was last configured.
    pub size_changed: bool,
    /// A frame is due.
    pub render: bool,
}

impl SceneParams {
    /// Nothing pending, for a window of the given size.
    pub fn new(width: u32, height: u32) -> (params: Self)
        ensures
            params == (SceneParams { width, height, size_changed: false, render: false }),
    {
        SceneParams { width, height, size_changed: false, render: false }
    }

    /// Hands out a pending change of size, once: the new size where the
    /// size changed since the last call, and `None` otherwise.
    pub fn take_resize(&mut self) -> (size: Option<(u32, u32)>)
        ensures
            *final(self) == (SceneParams { size_changed: false, ..*old(self) }),
            size == if old(self).size_changed {
                Some((old(self).width, old(self).height))
            } else {
                None::<(u32, u32)>
            },
    {
        if self.size_changed {
            self.size_changed = false;
            Some((self.width, self.height))
        } else {
            None
        }
    }

    /// Hands out a pending frame, once: whether a frame was due.
    pub fn take_render(&mut self) -> (due: bool)
        ensures
            *final(self) == (SceneParams { render: false, ..*old(self) }),
            due == old(self).render,
    {
        let due = self.render;
        self.render = false;
        due
    }
}

/// Whether a surface of this size can be configured: it has to have a
/// width and a height.
pub fn has_area(width: u32, height: u32) -> (drawable: bool)
    ensures
        drawable == (width > 0 && height > 0),
{
    width > 0 && height > 0
}

/// How the event loop goes on.
#[derive(Debug, Clone, Copy, PartialEq, Eq, Structural)]
pub enum LoopControl {
    /// Keep polling for events.
    Poll,
    /// Leave the loop.
    Exit,
}

/// The answer to one event.
#[derive(Debug, Clone, Copy, PartialEq, Eq, Structural)]
pub struct EventResponse {
    /// Whether the rest of the frame work runs for this event.
    pub proceed: bool,
    pub control: LoopControl,
    /// Whether to ask the window for another redraw.
    pub request_redraw: bool,
}

impl PlatformEvent {
    /// Whether the event ends the program: the window was closed or
    /// destroyed, or Escape was pressed.
    pub open spec fn quits(self) -> bool {
        self is Destroyed || self is CloseRequested || self == PlatformEvent::KeyPressed(
            KeyCode::Escape,
        )
    }

    /// The remembered state after the event.
    pub open spec fn applied(self, params: SceneParams) -> SceneParams {
        match self {
            PlatformEvent::RedrawRequested => SceneParams { render: true, ..params },
            PlatformEvent::Resized { width, height } => SceneParams {
                width,
                height,
                size_changed: true,
                ..params
            },
            _ => params,
        }
    }

    /// The answer to the event.
    pub open spec fn response(self) -> EventResponse {
        EventResponse {
            proceed: !self.quits(),
            control: if self.quits() {
                LoopControl::Exit
            } else {
                LoopControl::Poll
            },
            request_redraw: self is RedrawEventsCleared,
        }
    }
}

/// Takes in one event: records a redraw request or a new size in `scene`
/// and says how the loop goes on.
pub fn process_event(event: PlatformEvent, scene: &mut SceneParams) -> (response: EventResponse)
    ensures
        *final(scene) == event.applied(*old(scene)),
        response == event.response(),
{
    let mut request_redraw = false;
    match event {
        PlatformEvent::RedrawRequested => {
            scene.render = true;
        },
        PlatformEvent::RedrawEventsCleared => {
            request_redraw = true;
        },
        PlatformEvent::Destroyed | PlatformEvent::CloseRequested => {
            return EventResponse { proceed: false, control: LoopControl::Exit, request_redraw };
        },
        PlatformEvent::Resized { width, height } => {
            scene.width = width;
            scene.height = height;
            scene.size_changed = true;
        },
        PlatformEvent::KeyPressed(key) => {
            match key {
                KeyCode::Escape => {
                    return EventResponse {
                        proceed: false,
                        control: LoopControl::Exit,
                        request_redraw,
                    };
                },
                _ => {},
            }
        },
        PlatformEvent::Other => {},
    }
    EventResponse { proceed: true, control: LoopControl::Poll, request_redraw }
}

/// An event ends the loop exactly when the rest of the frame is skipped for
/// it, and such an event leaves the remembered state alone.
pub proof fn lemma_quit_is_final(event: PlatformEvent, params: SceneParams)
    ensures
        event.response().control is Exit <==> !event.response().proceed,
        event.quits() ==> event.applied(params) == params,
        event.response().request_redraw ==> event.response().proceed,
{
}

} // verus!
