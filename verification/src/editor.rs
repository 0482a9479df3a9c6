//! Decisions of the editor window's event loop: what each window or device
//! event leads to, and how long to wait at the end of a frame.

use vstd::prelude::*;

verus! {

/// Shortest frame, in milliseconds: frames are drawn at most 60 times a second.
pub const HZ_MAX: i64 = 16;

/// How long to sleep after a frame that took `elapsed_ms` milliseconds: the
/// rest of the shortest frame, if anything is left of it.
pub fn frame_sleep_millis(elapsed_ms: u128) -> (sleep: Option<u64>)
    requires
        elapsed_ms <= i64::MAX,
    ensures
        match sleep {
            Some(ms) => elapsed_ms < HZ_MAX && ms == HZ_MAX - elapsed_ms,
            None => elapsed_ms >= HZ_MAX,
        },
{
    let hz_diff: i64 = HZ_MAX - elapsed_ms as i64;
    if hz_diff > 0 {
        Some(hz_diff as u64)
    } else {
        None
    }
}

/// The window events that the editor tells apart.
#[derive(Clone, Copy, Debug, PartialEq, Eq, Structural)]
pub enum WindowEventKind {
    CloseRequested,
    Resized,
    RedrawRequested,
    Other,
}

/// The events of the editor's event loop that it tells apart.
#[derive(Clone, Copy, Debug, PartialEq, Eq, Structural)]
pub enum EditorEvent {
    Window(WindowEventKind),
    MouseMotion,
    /// A key event; `identified` is false when the physical key is unknown.
    Key { identified: bool },
    OtherDevice,
    AboutToWait,
    NewEvents,
    LoopExiting,
    Other,
}

/// What the event loop does for an event, besides feeding it to the UI.
#[derive(Clone, Copy, Debug, PartialEq, Eq, Structural)]
pub enum EditorAction {
    /// Leave the event loop.
    Exit,
    /// Draw a frame.
    Draw,
    MouseMotion,
    KeyPress,
    /// Release the graphics resources.
    Destroy,
    Nothing,
}

/// The editor window's own state.
#[derive(Clone, Copy, Debug, PartialEq, Eq, Structural)]
pub struct EditorState {
    /// The swapchain has to be rebuilt before the next frame.
    pub resize: bool,
    /// The window was closed for good.
    pub exit: bool,
}

/// The action for `event`.
pub open spec fn action_of(event: EditorEvent) -> EditorAction {
    match event {
        EditorEvent::Window(WindowEventKind::CloseRequested) => EditorAction::Exit,
        EditorEvent::Window(WindowEventKind::RedrawRequested) => EditorAction::Draw,
        EditorEvent::MouseMotion => EditorAction::MouseMotion,
        EditorEvent::Key { .. } => EditorAction::KeyPress,
        EditorEvent::LoopExiting => EditorAction::Destroy,
        _ => EditorAction::Nothing,
    }
}

impl EditorState {
    /// A fresh window: nothing to rebuild, not closed.
    pub fn new() -> (res: Self)
        ensures
            !res.resize,
            !res.exit,
    {
        EditorState { resize: false, exit: false }
    }

    /// The window changed size: rebuild the swapchain before the next frame.
    pub fn resize_event(&mut self)
        ensures
            final(self).resize,
            final(self).exit == old(self).exit,
    {
        self.resize = true;
    }

    /// Handles one event: a resize is recorded in the state, every other
    /// event is answered by the action the event loop performs. Key events
    /// for unknown physical keys are not handled.
    pub fn run_event(&mut self, event: EditorEvent) -> (action: EditorAction)
        requires
            event != (EditorEvent::Key { identified: false }),
        ensures
            action == action_of(event),
            final(self).exit == old(self).exit,
            final(self).resize == (old(self).resize || event == EditorEvent::Window(
                WindowEventKind::Resized,
            )),
    {
        match event {
            EditorEvent::Window(kind) => match kind {
                WindowEventKind::CloseRequested => EditorAction::Exit,
                WindowEventKind::Resized => {
                    self.resize_event();
                    EditorAction::Nothing
                },
                WindowEventKind::RedrawRequested => EditorAction::Draw,
                WindowEventKind::Other => EditorAction::Nothing,
            },
            EditorEvent::MouseMotion => EditorAction::MouseMotion,
            EditorEvent::Key { .. } => EditorAction::KeyPress,
            EditorEvent::LoopExiting => EditorAction::Destroy,
            _ => EditorAction::Nothing,
        }
    }
}

/// Only a close request makes the editor leave its event loop, only a
/// redraw request draws, only the end of the loop releases the graphics
/// resources; every other window event, and the events the editor does not
/// tell apart, lead to nothing.
pub proof fn lemma_event_actions(event: EditorEvent)
    ensures
        action_of(event) == EditorAction::Exit <==> event == EditorEvent::Window(
            WindowEventKind::CloseRequested,
        ),
        action_of(event) == EditorAction::Draw <==> event == EditorEvent::Window(
            WindowEventKind::RedrawRequested,
        ),
        action_of(event) == EditorAction::Destroy <==> event == EditorEvent::LoopExiting,
        action_of(event) == EditorAction::KeyPress <==> event is Key,
        action_of(event) == EditorAction::MouseMotion <==> event == EditorEvent::MouseMotion,
        event == EditorEvent::Window(WindowEventKind::Other) || event == EditorEvent::Window(
            WindowEventKind::Resized,
        ) ==> action_of(event) == EditorAction::Nothing,
{
}

} // verus!
