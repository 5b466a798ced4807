use vstd::prelude::*;
use crate::protocol::{Reply, Request};
use crate::xlib::consts::{EventType, Expose};

verus! {

/// What the handler of an event tells the loop to do next.
#[derive(Clone, Copy, Debug, PartialEq, Eq, Structural)]
pub enum ControlFlow {
    /// Wait for the next event.
    Continue,
    /// Leave the loop.
    Exit,
}

/// An event of a window, as the handler sees it. Events of any other kind
/// are dropped before they reach a handler. More kinds may be added: a
/// handler that matches on the event keeps an arm for the rest.
#[derive(Clone, Copy, Debug, PartialEq, Eq, Structural)]
#[non_exhaustive]
pub enum WindowEvent {
    /// A region of the window must be drawn again.
    Expose,
}

impl WindowEvent {
    /// The event that a type tag of the server stands for, if it is one
    /// that handlers see.
    pub open spec fn of(event_type: EventType) -> Option<WindowEvent> {
        if event_type == Expose {
            Some(WindowEvent::Expose)
        } else {
            None
        }
    }

    /// The event that a type tag of the server stands for, if it is one
    /// that handlers see.
    pub fn decode(event_type: EventType) -> (event: Option<WindowEvent>)
        ensures
            event == Self::of(event_type),
    {
        if event_type == Expose {
            Some(WindowEvent::Expose)
        } else {
            None
        }
    }
}

/// The one decision that an event loop keeps: whether it still waits.
#[derive(Clone, Copy, Debug, PartialEq, Eq, Structural)]
pub enum LoopState {
    /// The loop waits for the next event.
    Waiting,
    /// The loop has been left.
    Exited,
}

impl LoopState {
    /// What the loop asks of the server: the next event while it waits,
    /// nothing once it has been left.
    pub open spec fn pending(&self) -> Option<Request> {
        match self {
            LoopState::Waiting => Some(Request::NextEvent),
            LoopState::Exited => None,
        }
    }

    /// The event that goes to the handler for an answer of the server:
    /// an exposure while the loop waits, and nothing else.
    pub open spec fn dispatched(&self, reply: Reply) -> Option<WindowEvent> {
        match (*self, reply) {
            (LoopState::Waiting, Reply::Event(event_type)) => WindowEvent::of(event_type),
            _ => None,
        }
    }

    /// The state after a handler has returned.
    pub open spec fn resumed(&self, flow: ControlFlow) -> LoopState {
        match flow {
            ControlFlow::Exit => LoopState::Exited,
            ControlFlow::Continue => *self,
        }
    }
}

/// A blocking, single-threaded event loop, one step at a time.
///
/// While [`EventLoop::request`] hands back a request: wait for the event,
/// hand it to [`EventLoop::dispatch`], and where that gives an event, call
/// the handler with it and with a control-flow token that starts as
/// [`ControlFlow::Continue`], then hand the token to [`EventLoop::resume`].
#[derive(Debug)]
pub struct EventLoop {
    state: LoopState,
}

impl View for EventLoop {
    type V = LoopState;

    closed spec fn view(&self) -> LoopState {
        self.state
    }
}

impl EventLoop {
    /// A loop that waits for its first event.
    pub fn new() -> (event_loop: EventLoop)
        ensures
            event_loop@ == LoopState::Waiting,
    {
        EventLoop { state: LoopState::Waiting }
    }

    /// What to ask of the server now: the next event, or nothing where the
    /// loop has been left.
    pub fn request(&self) -> (r: Option<Request>)
        ensures
            r == self@.pending(),
    {
        match self.state {
            LoopState::Waiting => Some(Request::NextEvent),
            LoopState::Exited => None,
        }
    }

    /// The event to call the handler with, for what the server sent. An
    /// event of a kind that handlers do not see gives `None`: the loop goes
    /// on to wait, and no handler is called.
    pub fn dispatch(&self, reply: Reply) -> (event: Option<WindowEvent>)
        ensures
            event == self@.dispatched(reply),
    {
        match self.state {
            LoopState::Waiting => match reply {
                Reply::Event(event_type) => WindowEvent::decode(event_type),
                _ => None,
            },
            LoopState::Exited => None,
        }
    }

    /// Takes the token that the handler left. Where it says
    /// [`ControlFlow::Exit`] the loop is left: it asks for no further event.
    pub fn resume(&mut self, flow: ControlFlow)
        ensures
            final(self)@ == old(self)@.resumed(flow),
            flow == ControlFlow::Exit ==> final(self)@.pending().is_none(),
    {
        match flow {
            ControlFlow::Exit => {
                self.state = LoopState::Exited;
            },
            ControlFlow::Continue => {},
        }
    }

    /// Whether the loop has been left.
    pub fn has_exited(&self) -> (exited: bool)
        ensures
            exited == (self@ == LoopState::Exited),
    {
        match self.state {
            LoopState::Exited => true,
            LoopState::Waiting => false,
        }
    }
}

/// A handler that asks to leave is obeyed at once and for good: the loop
/// asks for no further event, whatever a later token says.
pub proof fn lemma_exit_is_final(state: LoopState, later: ControlFlow)
    ensures
        state.resumed(ControlFlow::Exit).pending().is_none(),
        state.resumed(ControlFlow::Exit).resumed(later).pending().is_none(),
        forall|reply: Reply| state.resumed(ControlFlow::Exit).dispatched(reply).is_none(),
{
}

/// A handler that asks to go on leaves a waiting loop waiting.
pub proof fn lemma_continue_waits(state: LoopState)
    requires
        state == LoopState::Waiting,
    ensures
        state.resumed(ControlFlow::Continue).pending() == Some(Request::NextEvent),
{
}

/// Only an exposure reaches a handler.
pub proof fn lemma_only_expose_dispatched(state: LoopState, event_type: EventType)
    ensures
        state.dispatched(Reply::Event(event_type)).is_some() <==> (state == LoopState::Waiting
            && event_type == Expose),
{
}

} // verus!
