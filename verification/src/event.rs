//! Platform events, reduced to what decides whether the event loop goes on.

use vstd::prelude::*;

verus! {

/// The identity of a window, as the number the platform gives it.
#[derive(Clone, Copy, Debug, PartialEq, Eq, Hash, Structural)]
pub struct WindowId {
    pub raw: u64,
}

/// Whether a key went down or up.
#[derive(Clone, Copy, Debug, PartialEq, Eq, Hash, Structural)]
pub enum ElementState {
    Pressed,
    Released,
}

/// The meaning of a key, as far as the library tells keys apart.
#[derive(Clone, Copy, Debug, PartialEq, Eq, Hash, Structural)]
pub enum Key {
    Escape,
    /// Any other key.
    Other,
}

/// A key going down or up.
#[derive(Clone, Copy, Debug, PartialEq, Eq, Hash, Structural)]
pub struct KeyboardInput {
    pub state: ElementState,
    /// The key's meaning, where the platform knows one.
    pub key: Option<Key>,
}

/// Something that happened to one window.
#[derive(Clone, Copy, Debug, PartialEq, Eq, Hash, Structural)]
pub enum WindowEvent {
    /// The user asked to close the window.
    CloseRequested,
    KeyboardInput(KeyboardInput),
    /// Any other window event.
    Other,
}

/// An event that the platform delivers to the event loop.
#[derive(Clone, Copy, Debug, PartialEq, Eq, Hash, Structural)]
pub enum Event {
    /// An event of the window with this identity.
    Window { window_id: WindowId, event: WindowEvent },
    /// Any event that belongs to no window.
    Other,
}

/// What the event loop does after an event.
#[derive(Clone, Copy, Debug, PartialEq, Eq, Hash, Structural)]
pub enum ControlFlow {
    /// Go on dispatching events.
    Continue,
    /// Stop dispatching and give control back.
    Exit,
}

impl WindowEvent {
    /// The event asks the loop to end: a close request, or Escape going down.
    pub open spec fn spec_requests_exit(&self) -> bool {
        match *self {
            WindowEvent::CloseRequested => true,
            WindowEvent::KeyboardInput(input) => input.state == ElementState::Pressed && input.key
                == Some(Key::Escape),
            WindowEvent::Other => false,
        }
    }

    /// Whether the event asks the loop to end.
    #[verifier::when_used_as_spec(spec_requests_exit)]
    pub fn requests_exit(&self) -> (exit: bool)
        ensures
            exit == self.spec_requests_exit(),
    {
        match self {
            WindowEvent::CloseRequested => true,
            WindowEvent::KeyboardInput(input) => {
                match (input.state, input.key) {
                    (ElementState::Pressed, Some(Key::Escape)) => true,
                    _ => false,
                }
            },
            WindowEvent::Other => false,
        }
    }
}

/// The decision on one event for the loop that owns the window `owned`: the
/// loop ends on an event of that window that asks for it, and goes on after
/// everything else.
pub open spec fn decision(owned: WindowId, event: Event) -> ControlFlow {
    match event {
        Event::Window { window_id, event } => {
            if window_id == owned && event.spec_requests_exit() {
                ControlFlow::Exit
            } else {
                ControlFlow::Continue
            }
        },
        Event::Other => ControlFlow::Continue,
    }
}

/// Decides on one event for the loop that owns the window `owned`.
pub fn decide(owned: WindowId, event: &Event) -> (flow: ControlFlow)
    ensures
        flow == decision(owned, *event),
{
    match event {
        Event::Window { window_id, event } => {
            if window_id.raw == owned.raw && event.requests_exit() {
                ControlFlow::Exit
            } else {
                ControlFlow::Continue
            }
        },
        Event::Other => ControlFlow::Continue,
    }
}

/// A close request ends the loop of the window it is aimed at, and of no
/// other window.
pub proof fn lemma_close_request_ends_own_loop(owned: WindowId, target: WindowId)
    ensures
        decision(owned, Event::Window { window_id: target, event: WindowEvent::CloseRequested })
            == if target == owned {
            ControlFlow::Exit
        } else {
            ControlFlow::Continue
        },
{
}

/// A key ends the loop only as Escape going down in the owned window.
pub proof fn lemma_only_escape_pressed_ends_loop(
    owned: WindowId,
    target: WindowId,
    input: KeyboardInput,
)
    ensures
        decision(owned, Event::Window { window_id: target, event: WindowEvent::KeyboardInput(input) })
            == ControlFlow::Exit <==> (target == owned && input.state == ElementState::Pressed
            && input.key == Some(Key::Escape)),
{
}

} // verus!
