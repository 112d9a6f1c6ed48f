//! What the window system reports, and what the renderer does about it.

use vstd::prelude::*;
use crate::command::{Command, CommandView, Viewport};
use crate::context::{Context, ContextView};

verus! {

/// A key of the keyboard, as far as the renderer tells keys apart.
#[derive(Debug, Clone, Copy, PartialEq, Eq)]
pub enum Key {
    Escape,
    /// Any key but Escape.
    Other,
}

/// What happened to a key.
#[derive(Debug, Clone, Copy, PartialEq, Eq)]
pub enum Action {
    Release,
    Press,
    Repeat,
}

/// An event of the window, as far as the renderer tells events apart.
#[derive(Debug, Clone, Copy, PartialEq, Eq)]
pub enum WindowEvent {
    /// The framebuffer of the window has a new width and height, in
    /// pixels.
    FramebufferSize(i32, i32),
    /// A key was pressed, released or held.
    Key(Key, Action),
    /// Anything else.
    Other,
}

impl WindowEvent {
    /// Whether the event is a press of the Escape key.
    pub open spec fn is_escape_press(self) -> bool {
        self == WindowEvent::Key(Key::Escape, Action::Press)
    }
}

/// The viewport that covers a framebuffer of the given size.
pub open spec fn full_viewport(width: i32, height: i32) -> Viewport {
    Viewport { x: 0, y: 0, width, height }
}

/// The context after an event is handled. A new size of the framebuffer
/// makes the viewport cover all of it; a press of Escape asks the frame
/// loop to end; nothing else has any effect.
pub open spec fn handled(context: ContextView, event: WindowEvent) -> ContextView {
    match event {
        WindowEvent::FramebufferSize(width, height) => context.after(
            CommandView::SetViewport { viewport: full_viewport(width, height) },
        ),
        WindowEvent::Key(Key::Escape, Action::Press) => context.after(
            CommandView::SetShouldClose { value: true },
        ),
        _ => context,
    }
}

/// The context after a run of events is handled, one after the other.
pub open spec fn handled_all(context: ContextView, events: Seq<WindowEvent>) -> ContextView
    decreases events.len(),
{
    if events.len() == 0 {
        context
    } else {
        handled(handled_all(context, events.drop_last()), events.last())
    }
}

/// Handles one event of the window.
pub fn handle_window_event(ctx: &mut Context, event: WindowEvent)
    ensures
        final(ctx)@ == handled(old(ctx)@, event),
{
    match event {
        WindowEvent::FramebufferSize(width, height) => {
            // The framebuffer, not the window, gives the size: on a display
            // of high density it has more pixels than the window has points.
            ctx.record(Command::SetViewport { viewport: Viewport { x: 0, y: 0, width, height } });
        },
        WindowEvent::Key(Key::Escape, Action::Press) => {
            ctx.record(Command::SetShouldClose { value: true });
        },
        _ => {},
    }
}

/// Handles the events that the window system held, in their order.
pub fn handle_window_events(ctx: &mut Context, events: &Vec<WindowEvent>)
    ensures
        final(ctx)@ == handled_all(old(ctx)@, events@),
{
    let mut i: usize = 0;
    while i < events.len()
        invariant
            i <= events.len(),
            ctx@ == handled_all(old(ctx)@, events@.take(i as int)),
        decreases events.len() - i,
    {
        proof {
            assert(events@.take(i + 1).drop_last() == events@.take(i as int));
        }
        handle_window_event(ctx, events[i]);
        i += 1;
    }
    assert(events@.take(events@.len() as int) == events@);
}

/// Handling an event leaves the viewport covering the whole framebuffer
/// whenever the event is a new size of the framebuffer, and leaves the
/// viewport alone otherwise.
pub proof fn lemma_resize_sets_viewport(context: ContextView, event: WindowEvent)
    ensures
        match event {
            WindowEvent::FramebufferSize(width, height) => handled(context, event).state.viewport
                == Some(full_viewport(width, height)),
            _ => handled(context, event).state.viewport == context.state.viewport,
        },
{
}

/// Once a press of Escape is among the events handled, the frame loop is
/// asked to end, whatever else is handled before or after.
pub proof fn lemma_escape_requests_close(context: ContextView, events: Seq<WindowEvent>, i: int)
    requires
        0 <= i < events.len(),
        events[i].is_escape_press(),
    ensures
        handled_all(context, events).state.should_close,
    decreases events.len(),
{
    if i < events.len() - 1 {
        lemma_escape_requests_close(context, events.drop_last(), i);
    }
}

} // verus!
