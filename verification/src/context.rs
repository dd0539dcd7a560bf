//! The application's context: the window it owns, the graphics context where
//! it has one, and the run of its event loop.

use vstd::prelude::*;
use crate::event::{decide, decision, ControlFlow, Event, WindowId};
use crate::surface::GraphicsContext;

verus! {

/// The window an application runs in, with or without a graphics context.
#[derive(Debug)]
pub struct Context {
    window: WindowId,
    graphics: Option<GraphicsContext>,
}

impl Context {
    /// The identity of the owned window.
    pub closed spec fn window_id(&self) -> WindowId {
        self.window
    }

    /// The graphics context, where the application has one.
    pub closed spec fn graphics_context(&self) -> Option<GraphicsContext> {
        self.graphics
    }

    /// A context that owns the window with this identity. The graphics
    /// context is the one that the initialization produced, if it was run.
    pub fn new(window: WindowId, graphics: Option<GraphicsContext>) -> (context: Context)
        ensures
            context.window_id() == window,
            context.graphics_context() == graphics,
    {
        Context { window, graphics }
    }

    /// The identity of the owned window.
    pub fn window(&self) -> (window: WindowId)
        ensures
            window == self.window_id(),
    {
        self.window
    }

    /// The graphics context, where the application has one.
    pub fn graphics(&self) -> (graphics: &Option<GraphicsContext>)
        ensures
            *graphics == self.graphics_context(),
    {
        &self.graphics
    }

    /// Decides on one event of the loop.
    pub fn handle(&self, event: &Event) -> (flow: ControlFlow)
        ensures
            flow == decision(self.window_id(), *event),
    {
        decide(self.window, event)
    }

    /// Runs the event loop over the events in the order of their delivery.
    /// The loop stops at the first event that ends it: the result is that
    /// event's position, or `None` where the loop is still running after the
    /// last event.
    pub fn run(&self, events: &Vec<Event>) -> (exit: Option<usize>)
        ensures
            match exit {
                Some(at) => {
                    &&& at < events.len()
                    &&& decision(self.window_id(), events@[at as int]) == ControlFlow::Exit
                    &&& forall|i: int|
                        0 <= i < at ==> decision(self.window_id(), #[trigger] events@[i])
                            == ControlFlow::Continue
                },
                None => forall|i: int|
                    0 <= i < events.len() ==> decision(self.window_id(), #[trigger] events@[i])
                        == ControlFlow::Continue,
            },
    {
        let mut i: usize = 0;
        while i < events.len()
            invariant
                i <= events.len(),
                forall|k: int|
                    0 <= k < i ==> decision(self.window_id(), #[trigger] events@[k])
                        == ControlFlow::Continue,
            decreases events.len() - i,
        {
            match self.handle(&events[i]) {
                ControlFlow::Exit => {
                    return Some(i);
                },
                ControlFlow::Continue => {},
            }
            i += 1;
        }
        None
    }
}

} // verus!
