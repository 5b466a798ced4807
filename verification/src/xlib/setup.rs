use vstd::prelude::*;
use crate::error::Error;
use crate::protocol::{Reply, Request};
use crate::xlib::attributes::WindowAttributes;
use crate::xlib::consts::{EventMask, ExposureMask, WindowClass};
use crate::xlib::screen::GC;
use crate::xlib::shapes::Geometry;
use crate::xlib::window::Window;

verus! {

/// Where a window comes from.
#[derive(Clone, Copy, Debug, PartialEq, Eq, Structural)]
pub enum Origin {
    /// It is the root window of a screen, which the server made.
    Root,
    /// It is made here, with every attribute given.
    Create {
        parent: u64,
        x: i32,
        y: i32,
        width: u32,
        height: u32,
        border_width: u32,
        depth: i32,
        class: WindowClass,
        visual: usize,
        attributes: WindowAttributes,
    },
    /// It is made here, with visual, class and depth taken from its parent.
    CreateSimple {
        parent: u64,
        x: i32,
        y: i32,
        width: u32,
        height: u32,
        border_width: u32,
        border: u64,
        background: u64,
    },
    /// It was made elsewhere and is handed in by its id; `owned` says
    /// whether it is the binding that destroys it.
    Adopt { owned: bool },
}

impl Origin {
    /// Whether the window is made by the setup itself.
    pub open spec fn makes_window(&self) -> bool {
        self is Create || self is CreateSimple
    }

    /// Whether the binding destroys the window when it lets go of it.
    pub open spec fn owns_window(&self) -> bool {
        match self {
            Origin::Root => false,
            Origin::Create { .. } => true,
            Origin::CreateSimple { .. } => true,
            Origin::Adopt { owned } => *owned,
        }
    }
}

/// How far the making of a window has come: what the setup waits for.
#[derive(Clone, Copy, Debug, PartialEq, Eq, Structural)]
pub enum Stage {
    /// The id of the window that was asked for.
    Window,
    /// The geometry of the window.
    Geometry,
    /// The id of the off-screen buffer that was asked for.
    Buffer,
    /// Nothing but the turn to ask for exposure events.
    Input,
    /// Nothing but the turn to destroy the window again, because something
    /// that it needs could not be had.
    Undo,
    /// Nothing: the window is ready.
    Ready,
    /// Nothing: there will be no window.
    Failed,
}

impl Stage {
    /// How many exchanges with the server can still follow, at most.
    pub open spec fn rank(&self) -> nat {
        match self {
            Stage::Window => 5,
            Stage::Geometry => 4,
            Stage::Buffer => 3,
            Stage::Input => 2,
            Stage::Undo => 1,
            Stage::Ready => 0,
            Stage::Failed => 0,
        }
    }

    /// Whether nothing follows.
    pub open spec fn is_final(&self) -> bool {
        self is Ready || self is Failed
    }
}

/// All that a setup knows, as plain values.
#[derive(Clone, Copy, Debug, PartialEq, Eq, Structural)]
pub struct SetupState {
    pub origin: Origin,
    pub stage: Stage,
    /// Whether an off-screen buffer was asked for.
    pub wants_buffer: bool,
    /// The address of the connection.
    pub display: usize,
    /// The graphics context that the window will draw through.
    pub gc: GC,
    /// The id of the window, once it is known.
    pub window: u64,
    /// The id of the surface that drawing goes to: the window itself until
    /// a buffer is made.
    pub buffer: u64,
    /// The width of the buffer to ask for.
    pub width: u32,
    /// The height of the buffer to ask for.
    pub height: u32,
    /// The depth of the buffer to ask for.
    pub depth: u32,
    /// The events that the window is asked to report.
    pub events: EventMask,
}

impl SetupState {
    /// The stages fit the origin, and the buffer is a surface of its own
    /// exactly where one was asked for and has been made.
    pub open spec fn wf(&self) -> bool {
        &&& self.stage is Window ==> self.origin.makes_window()
        &&& self.stage is Geometry ==> self.origin is CreateSimple || self.origin is Adopt
        &&& self.stage is Buffer ==> self.wants_buffer && !(self.origin is Root)
        &&& self.stage is Input ==> !(self.origin is Adopt)
        &&& self.stage is Undo ==> self.origin.makes_window()
        &&& self.origin is Root ==> !self.wants_buffer
        &&& (self.stage is Input || self.stage is Ready) ==> if self.wants_buffer {
            self.buffer != self.window && self.buffer != 0
        } else {
            self.buffer == self.window
        }
        &&& (self.stage is Geometry || self.stage is Buffer) ==> self.buffer == self.window
    }

    /// The state that a setup starts in.
    pub open spec fn start(
        origin: Origin,
        wants_buffer: bool,
        display: usize,
        gc: GC,
        window: u64,
    ) -> SetupState {
        SetupState {
            origin,
            stage: match origin {
                Origin::Root => Stage::Input,
                Origin::Adopt { .. } => Stage::Geometry,
                _ => Stage::Window,
            },
            wants_buffer: wants_buffer && !(origin is Root),
            display,
            gc,
            window,
            buffer: window,
            width: 0,
            height: 0,
            depth: 0,
            events: ExposureMask,
        }
    }

    /// The state with other events to report.
    pub open spec fn listening(&self, events: EventMask) -> SetupState {
        SetupState { events, ..*self }
    }

    /// The request that goes to the server next; `None` where the setup has
    /// come to its end.
    pub open spec fn pending(&self) -> Option<Request> {
        match self.stage {
            Stage::Window => match self.origin {
                Origin::Create {
                    parent,
                    x,
                    y,
                    width,
                    height,
                    border_width,
                    depth,
                    class,
                    visual,
                    attributes,
                } => Some(
                    Request::CreateWindow {
                        parent,
                        x,
                        y,
                        width,
                        height,
                        border_width,
                        depth,
                        class,
                        visual,
                        attributes,
                    },
                ),
                Origin::CreateSimple {
                    parent,
                    x,
                    y,
                    width,
                    height,
                    border_width,
                    border,
                    background,
                } => Some(
                    Request::CreateSimpleWindow {
                        parent,
                        x,
                        y,
                        width,
                        height,
                        border_width,
                        border,
                        background,
                    },
                ),
                _ => None,
            },
            Stage::Geometry => Some(Request::GetGeometry { drawable: self.window }),
            Stage::Buffer => Some(
                Request::CreatePixmap {
                    drawable: self.window,
                    width: self.width,
                    height: self.height,
                    depth: self.depth,
                },
            ),
            Stage::Input => Some(
                Request::SelectInput { window: self.window, event_mask: self.events },
            ),
            Stage::Undo => Some(Request::DestroyWindow { window: self.window }),
            Stage::Ready => None,
            Stage::Failed => None,
        }
    }

    /// Where the setup goes when something could not be had: a window that
    /// the setup made is destroyed again first.
    pub open spec fn give_up(&self) -> SetupState {
        SetupState {
            stage: if self.origin.makes_window() {
                Stage::Undo
            } else {
                Stage::Failed
            },
            ..*self
        }
    }

    /// The state with a buffer of the given size to ask for next, or, where
    /// no buffer was asked for, with the stage that follows the buffer.
    pub open spec fn toward_buffer(&self, width: u32, height: u32, depth: u32) -> SetupState {
        if self.wants_buffer {
            SetupState { stage: Stage::Buffer, width, height, depth, ..*self }
        } else {
            self.past_buffer()
        }
    }

    /// The state with the stage that follows the buffer: an adopted window
    /// is ready, any other asks for exposure events first.
    pub open spec fn past_buffer(&self) -> SetupState {
        SetupState {
            stage: if self.origin is Adopt {
                Stage::Ready
            } else {
                Stage::Input
            },
            ..*self
        }
    }

    /// The state after the answer to the pending request.
    ///
    /// The id of a window must not be 0. A window made with every attribute
    /// given gets a buffer of the size and depth it was made with; any
    /// other gets a buffer of the size and depth that the server reports
    /// for the window. The id of a buffer must be neither 0 nor the id of
    /// the window. Any other answer ends the setup without a window.
    pub open spec fn after(&self, reply: Reply) -> SetupState {
        match self.stage {
            Stage::Window => match reply {
                Reply::Id(id) if id != 0 => {
                    let made = SetupState { window: id, buffer: id, ..*self };
                    match self.origin {
                        Origin::Create { width, height, depth, .. } => made.toward_buffer(
                            width,
                            height,
                            depth as u32,
                        ),
                        _ => SetupState { stage: Stage::Geometry, ..made },
                    }
                },
                _ => SetupState { stage: Stage::Failed, ..*self },
            },
            Stage::Geometry => match reply {
                Reply::Geometry(Some(geometry)) => self.toward_buffer(
                    geometry.width,
                    geometry.height,
                    geometry.depth,
                ),
                _ => self.give_up(),
            },
            Stage::Buffer => match reply {
                Reply::Id(id) if id != 0 && id != self.window => (SetupState {
                    buffer: id,
                    ..*self
                }).past_buffer(),
                _ => self.give_up(),
            },
            Stage::Input => SetupState { stage: Stage::Ready, ..*self },
            Stage::Undo => SetupState { stage: Stage::Failed, ..*self },
            Stage::Ready => *self,
            Stage::Failed => *self,
        }
    }
}

/// The making of a window, one exchange with the server at a time.
///
/// Ask [`WindowSetup::request`] what goes to the server, perform it, hand
/// the answer to [`WindowSetup::reply`], and go on until no request is
/// left. [`WindowSetup::finish`] then gives the window, or says that there
/// is none.
#[derive(Debug)]
pub struct WindowSetup {
    state: SetupState,
}

impl View for WindowSetup {
    type V = SetupState;

    closed spec fn view(&self) -> SetupState {
        self.state
    }
}

impl WindowSetup {
    #[verifier::type_invariant]
    spec fn inv(self) -> bool {
        self@.wf()
    }

    /// A setup in its first state.
    pub(crate) fn new(
        origin: Origin,
        wants_buffer: bool,
        display: usize,
        gc: GC,
        window: u64,
    ) -> (setup: WindowSetup)
        ensures
            setup@ == SetupState::start(origin, wants_buffer, display, gc, window),
            setup@.wf(),
    {
        let stage = match origin {
            Origin::Root => Stage::Input,
            Origin::Adopt { .. } => Stage::Geometry,
            _ => Stage::Window,
        };
        let is_root = match origin {
            Origin::Root => true,
            _ => false,
        };
        WindowSetup {
            state: SetupState {
                origin,
                stage,
                wants_buffer: wants_buffer && !is_root,
                display,
                gc,
                window,
                buffer: window,
                width: 0,
                height: 0,
                depth: 0,
                events: ExposureMask,
            },
        }
    }

    /// Has the window report other events than exposure alone. It matters
    /// only before the setup has asked for them.
    pub fn listen(self, events: EventMask) -> (setup: WindowSetup)
        ensures
            setup@ == self@.listening(events),
            setup@.wf(),
    {
        proof {
            use_type_invariant(&self);
        }
        WindowSetup { state: SetupState { events, ..self.state } }
    }

    /// The request that goes to the server next; `None` where the setup has
    /// come to its end. A setup that has not come to its end always has one.
    pub fn request(&self) -> (r: Option<Request>)
        ensures
            r == self@.pending(),
            r.is_none() <==> self@.stage.is_final(),
    {
        proof {
            use_type_invariant(self);
        }
        let state = &self.state;
        match state.stage {
            Stage::Window => match state.origin {
                Origin::Create {
                    parent,
                    x,
                    y,
                    width,
                    height,
                    border_width,
                    depth,
                    class,
                    visual,
                    attributes,
                } => Some(
                    Request::CreateWindow {
                        parent,
                        x,
                        y,
                        width,
                        height,
                        border_width,
                        depth,
                        class,
                        visual,
                        attributes,
                    },
                ),
                Origin::CreateSimple {
                    parent,
                    x,
                    y,
                    width,
                    height,
                    border_width,
                    border,
                    background,
                } => Some(
                    Request::CreateSimpleWindow {
                        parent,
                        x,
                        y,
                        width,
                        height,
                        border_width,
                        border,
                        background,
                    },
                ),
                _ => None,
            },
            Stage::Geometry => Some(Request::GetGeometry { drawable: state.window }),
            Stage::Buffer => Some(
                Request::CreatePixmap {
                    drawable: state.window,
                    width: state.width,
                    height: state.height,
                    depth: state.depth,
                },
            ),
            Stage::Input => Some(
                Request::SelectInput { window: state.window, event_mask: state.events },
            ),
            Stage::Undo => Some(Request::DestroyWindow { window: state.window }),
            Stage::Ready => None,
            Stage::Failed => None,
        }
    }

    /// Takes the answer to the pending request and moves on.
    pub fn reply(&mut self, reply: Reply)
        ensures
            final(self)@ == old(self)@.after(reply),
            final(self)@.wf(),
            !old(self)@.stage.is_final() ==> final(self)@.stage.rank() < old(self)@.stage.rank(),
    {
        proof {
            use_type_invariant(&*self);
            lemma_after_keeps_wf(self@, reply);
        }
        let state = self.state;
        let next = match state.stage {
            Stage::Window => match reply {
                Reply::Id(id) if id != 0 => {
                    let made = SetupState { window: id, buffer: id, ..state };
                    match state.origin {
                        Origin::Create { width, height, depth, .. } => Self::toward_buffer(
                            made,
                            width,
                            height,
                            #[verifier::truncate]
                            (depth as u32),
                        ),
                        _ => SetupState { stage: Stage::Geometry, ..made },
                    }
                },
                _ => SetupState { stage: Stage::Failed, ..state },
            },
            Stage::Geometry => match reply {
                Reply::Geometry(Some(geometry)) => Self::toward_buffer(
                    state,
                    geometry.width,
                    geometry.height,
                    geometry.depth,
                ),
                _ => Self::give_up(state),
            },
            Stage::Buffer => match reply {
                Reply::Id(id) if id != 0 && id != state.window => Self::past_buffer(
                    SetupState { buffer: id, ..state },
                ),
                _ => Self::give_up(state),
            },
            Stage::Input => SetupState { stage: Stage::Ready, ..state },
            Stage::Undo => SetupState { stage: Stage::Failed, ..state },
            Stage::Ready => state,
            Stage::Failed => state,
        };
        self.state = next;
    }

    fn give_up(state: SetupState) -> (next: SetupState)
        ensures
            next == state.give_up(),
    {
        let stage = match state.origin {
            Origin::Create { .. } => Stage::Undo,
            Origin::CreateSimple { .. } => Stage::Undo,
            _ => Stage::Failed,
        };
        SetupState { stage, ..state }
    }

    fn past_buffer(state: SetupState) -> (next: SetupState)
        ensures
            next == state.past_buffer(),
    {
        let stage = match state.origin {
            Origin::Adopt { .. } => Stage::Ready,
            _ => Stage::Input,
        };
        SetupState { stage, ..state }
    }

    fn toward_buffer(state: SetupState, width: u32, height: u32, depth: u32) -> (next: SetupState)
        ensures
            next == state.toward_buffer(width, height, depth),
    {
        if state.wants_buffer {
            SetupState { stage: Stage::Buffer, width, height, depth, ..state }
        } else {
            Self::past_buffer(state)
        }
    }

    /// Whether the window is ready.
    pub fn is_ready(&self) -> (ready: bool)
        ensures
            ready == (self@.stage is Ready),
    {
        match self.state.stage {
            Stage::Ready => true,
            _ => false,
        }
    }

    /// The window, where the setup has come to a good end. It is the window
    /// whose id the server gave or that was handed in; it draws to the
    /// buffer where one was made and to itself where none was asked for;
    /// and it is owned as its origin says. A setup that failed, or has not
    /// come to its end, gives no window.
    pub fn finish(self) -> (r: Result<Window, Error>)
        ensures
            match r {
                Ok(window) => {
                    &&& self@.stage is Ready
                    &&& window.window_id() == self@.window
                    &&& window.buffer_id() == self@.buffer
                    &&& window.connection() == self@.display
                    &&& window.context() == self@.gc
                    &&& window.owns_window() == self@.origin.owns_window()
                    &&& window.has_buffer() == self@.wants_buffer
                },
                Err(e) => !(self@.stage is Ready) && e == Error::CreationFailure,
            },
    {
        proof {
            use_type_invariant(&self);
        }
        match self.state.stage {
            Stage::Ready => {
                let owned = match self.state.origin {
                    Origin::Root => false,
                    Origin::Create { .. } => true,
                    Origin::CreateSimple { .. } => true,
                    Origin::Adopt { owned } => owned,
                };
                Ok(
                    Window::assemble(
                        self.state.window,
                        self.state.buffer,
                        self.state.display,
                        self.state.gc,
                        owned,
                    ),
                )
            },
            _ => Err(Error::CreationFailure),
        }
    }
}

/// Every answer leaves a well-formed setup well-formed, and brings a setup
/// that has not come to its end strictly nearer to it: no setup takes more
/// than five exchanges.
pub proof fn lemma_after_keeps_wf(state: SetupState, reply: Reply)
    requires
        state.wf(),
    ensures
        state.after(reply).wf(),
        !state.stage.is_final() ==> state.after(reply).stage.rank() < state.stage.rank(),
        state.stage.is_final() ==> state.after(reply) == state,
        state.after(reply).origin == state.origin,
        state.after(reply).wants_buffer == state.wants_buffer,
        state.after(reply).display == state.display,
        state.after(reply).gc == state.gc,
        state.after(reply).events == state.events,
{
}

/// A well-formed setup has a request pending exactly as long as it has not
/// come to its end.
pub proof fn lemma_pending_until_final(state: SetupState)
    requires
        state.wf(),
    ensures
        state.pending().is_none() <==> state.stage.is_final(),
{
}

/// A setup that made its window and then could not get what the window
/// needs asks for the window to be destroyed before it ends: nothing that
/// it made is left behind.
pub proof fn lemma_failure_destroys_window(state: SetupState, reply: Reply)
    requires
        state.wf(),
        state.origin.makes_window(),
        state.stage is Geometry || state.stage is Buffer,
        state.after(reply).stage != Stage::Buffer,
        state.after(reply).stage != Stage::Input,
    ensures
        state.after(reply).pending() == Some(Request::DestroyWindow { window: state.window }),
        state.after(reply).after(Reply::Done).stage is Failed,
{
}

/// A window that is made the simple way, with a buffer, comes to be in four
/// exchanges where the server gives what is asked: the window has the id
/// that the server gave first, draws on the buffer whose id the server gave
/// then, and the buffer was asked for with the size and depth that the
/// server reported for the window.
pub proof fn lemma_simple_setup_with_buffer(
    start: SetupState,
    window: u64,
    geometry: Geometry,
    buffer: u64,
)
    requires
        start.wf(),
        start.origin is CreateSimple,
        start.stage is Window,
        start.wants_buffer,
        window != 0,
        buffer != 0,
        buffer != window,
    ensures
        ({
            let queried = start.after(Reply::Id(window));
            let sized = queried.after(Reply::Geometry(Some(geometry)));
            let buffered = sized.after(Reply::Id(buffer));
            let ready = buffered.after(Reply::Done);
            &&& queried.pending() == Some(Request::GetGeometry { drawable: window })
            &&& sized.pending() == Some(
                Request::CreatePixmap {
                    drawable: window,
                    width: geometry.width,
                    height: geometry.height,
                    depth: geometry.depth,
                },
            )
            &&& buffered.pending() == Some(
                Request::SelectInput { window, event_mask: start.events },
            )
            &&& ready.stage is Ready
            &&& ready.window == window
            &&& ready.buffer == buffer
        }),
{
}

/// A window that is set up without a buffer draws on itself, wherever it
/// comes from.
pub proof fn lemma_setup_without_buffer_draws_on_window(state: SetupState)
    requires
        state.wf(),
        !state.wants_buffer,
        state.stage is Ready,
    ensures
        state.buffer == state.window,
{
}

/// The id of a window that a setup was handed, or was given by the server,
/// stays what it is to the end: no later answer changes it.
pub proof fn lemma_window_id_is_kept(state: SetupState, reply: Reply)
    requires
        state.wf(),
        !(state.stage is Window),
    ensures
        state.after(reply).window == state.window,
{
}

} // verus!
