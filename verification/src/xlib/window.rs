use vstd::prelude::*;
use vstd::string::StringSliceAdditionalSpecFns;
use crate::error::Error;
use crate::protocol::{Reply, Request};
use crate::util::{is_c_text, str_to_c_char};
use crate::xlib::attributes::WindowAttributesBuilder;
use crate::xlib::color::Pixel;
use crate::xlib::consts::{WindowAttribute, WindowClass};
use crate::xlib::display::Display;
use crate::xlib::event::EventLoop;
use crate::xlib::raw::AsRaw;
use crate::xlib::screen::{Screen, Visual, GC};
use crate::xlib::setup::{Origin, SetupState, WindowSetup};
use crate::xlib::shapes::{Arc, Geometry, Rectangle};

verus! {

/// An off-screen surface of the server, named by its id.
#[derive(Debug, PartialEq, Eq)]
pub struct PixMap {
    pixmap: u64,
}

impl PixMap {
    /// Asks for an off-screen surface on the screen of a window.
    /// [`PixMap::from_reply`] reads the answer.
    pub fn create(display: &Display, window: &Window, width: u32, height: u32, depth: u32) -> (r:
        Request)
        requires
            display.is_open(),
        ensures
            r == (Request::CreatePixmap { drawable: window.buffer_id(), width, height, depth }),
    {
        Request::CreatePixmap { drawable: window.buffer, width, height, depth }
    }

    /// Asks for an off-screen surface on the screen of the window with the
    /// given id. [`PixMap::from_reply`] reads the answer.
    pub fn from_raw(display: &Display, window: u64, width: u32, height: u32, depth: u32) -> (r:
        Request)
        requires
            display.is_open(),
        ensures
            r == (Request::CreatePixmap { drawable: window, width, height, depth }),
    {
        Request::CreatePixmap { drawable: window, width, height, depth }
    }

    /// The surface that the server made. An id of 0 names no surface.
    pub fn from_reply(reply: Reply) -> (r: Result<PixMap, Error>)
        ensures
            match reply {
                Reply::Id(id) if id != 0 => r matches Ok(p) && p.raw() == id,
                _ => r is Err && r->Err_0 == Error::CreationFailure,
            },
    {
        match reply {
            Reply::Id(id) if id != 0 => Ok(PixMap { pixmap: id }),
            _ => Err(Error::CreationFailure),
        }
    }

    /// Lets go of the surface: the request that releases it. The surface
    /// is used up, so it cannot be released twice.
    pub fn free(self) -> (r: Request)
        ensures
            r == (Request::FreePixmap { pixmap: self.raw() }),
    {
        Request::FreePixmap { pixmap: self.pixmap }
    }
}

impl AsRaw<u64> for PixMap {
    closed spec fn raw(&self) -> u64 {
        self.pixmap
    }

    fn as_raw(&self) -> u64 {
        self.pixmap
    }
}

/// A window, with the surface that drawing goes to.
///
/// Drawing goes to the buffer, which is the window itself or an off-screen
/// surface of its own; [`Window::copy_to_buffer`] brings what was drawn
/// onto the screen. A window holds no size: whoever needs one asks the
/// server for it with [`Window::get_geometry`].
///
/// When the window is let go, [`Window::teardown`] releases what the
/// binding made: the buffer where it is a surface of its own, and the
/// window where the binding owns it.
#[derive(Debug)]
pub struct Window {
    window: u64,
    buffer: u64,
    display: usize,
    gc: GC,
    owned: bool,
}

impl Window {
    /// The id of the window on the screen.
    pub closed spec fn window_id(&self) -> u64 {
        self.window
    }

    /// The id of the surface that drawing goes to.
    pub closed spec fn buffer_id(&self) -> u64 {
        self.buffer
    }

    /// The address of the connection that the window belongs to.
    pub closed spec fn connection(&self) -> usize {
        self.display
    }

    /// The graphics context that the window draws through.
    pub closed spec fn context(&self) -> GC {
        self.gc
    }

    /// Whether the binding destroys the window when it lets go of it.
    pub closed spec fn owns_window(&self) -> bool {
        self.owned
    }

    /// Whether drawing goes to an off-screen surface of its own.
    pub open spec fn has_buffer(&self) -> bool {
        self.buffer_id() != self.window_id()
    }

    pub(crate) fn assemble(window: u64, buffer: u64, display: usize, gc: GC, owned: bool) -> (w:
        Window)
        ensures
            w.window_id() == window,
            w.buffer_id() == buffer,
            w.connection() == display,
            w.context() == gc,
            w.owns_window() == owned,
    {
        Window { window, buffer, display, gc, owned }
    }

    /// Starts a setup for the root window of a screen. The root belongs to
    /// the server: it is never destroyed here, and it has no buffer. The
    /// setup asks for its exposure events.
    pub fn root_window(display: &Display, screen: &Screen) -> (setup: WindowSetup)
        requires
            display.is_open(),
            display.has_screen(*screen),
        ensures
            setup@ == SetupState::start(
                Origin::Root,
                false,
                display@.handle,
                GC(display.screen_info(*screen).default_gc),
                display.screen_info(*screen).root,
            ),
            setup@.wf(),
    {
        let info = display.screen(screen);
        WindowSetup::new(Origin::Root, false, display.as_raw(), GC(info.default_gc), info.root)
    }

    /// The id that stands for a parent in a request: that of the parent's
    /// window, or 0 where there is none.
    pub open spec fn parent_id(parent: Option<&Window>) -> u64 {
        match parent {
            Some(p) => p.window_id(),
            None => 0,
        }
    }

    /// Starts a setup for a new window with every attribute given.
    ///
    /// Of the attributes in the builder, those go to the server whose bit
    /// `valuemask` holds too. With `buffer` given, the window gets an
    /// off-screen buffer of its own size and depth. The window draws
    /// through the default graphics context of the screen, reports
    /// exposure, and is destroyed when it is let go.
    pub fn create(
        display: &Display,
        screen: &Screen,
        buffer: Option<()>,
        parent: Option<&Window>,
        x: i32,
        y: i32,
        width: u32,
        height: u32,
        border_width: u32,
        depth: i32,
        class: WindowClass,
        visual: &Visual,
        valuemask: WindowAttribute,
        attributes: WindowAttributesBuilder,
    ) -> (setup: WindowSetup)
        requires
            display.is_open(),
            display.has_screen(*screen),
        ensures
            setup@ == SetupState::start(
                Origin::Create {
                    parent: Self::parent_id(parent),
                    x,
                    y,
                    width,
                    height,
                    border_width,
                    depth,
                    class,
                    visual: visual.raw(),
                    attributes: attributes@.only(valuemask),
                },
                buffer.is_some(),
                display@.handle,
                GC(display.screen_info(*screen).default_gc),
                0,
            ),
            setup@.wf(),
    {
        let parent = match parent {
            None => 0,
            Some(p) => p.window,
        };
        Self::create_under(
            display,
            screen,
            buffer,
            parent,
            x,
            y,
            width,
            height,
            border_width,
            depth,
            class,
            visual,
            valuemask,
            attributes,
        )
    }

    /// Starts a setup for a new window with every attribute given, under
    /// the parent with the given id.
    pub(crate) fn create_under(
        display: &Display,
        screen: &Screen,
        buffer: Option<()>,
        parent: u64,
        x: i32,
        y: i32,
        width: u32,
        height: u32,
        border_width: u32,
        depth: i32,
        class: WindowClass,
        visual: &Visual,
        valuemask: WindowAttribute,
        attributes: WindowAttributesBuilder,
    ) -> (setup: WindowSetup)
        requires
            display.is_open(),
            display.has_screen(*screen),
        ensures
            setup@ == SetupState::start(
                Origin::Create {
                    parent,
                    x,
                    y,
                    width,
                    height,
                    border_width,
                    depth,
                    class,
                    visual: visual.raw(),
                    attributes: attributes@.only(valuemask),
                },
                buffer.is_some(),
                display@.handle,
                GC(display.screen_info(*screen).default_gc),
                0,
            ),
            setup@.wf(),
    {
        let mut given = attributes.as_raw();
        given.value_mask = given.value_mask & valuemask;
        let origin = Origin::Create {
            parent,
            x,
            y,
            width,
            height,
            border_width,
            depth,
            class,
            visual: visual.as_raw(),
            attributes: given,
        };
        WindowSetup::new(
            origin,
            buffer.is_some(),
            display.as_raw(),
            GC(display.screen(screen).default_gc),
            0,
        )
    }

    /// Starts a setup for a new window that takes visual, class and depth
    /// from its parent.
    ///
    /// With `buffer` given, the window gets an off-screen buffer of the
    /// size and depth that the server reports for the new window.
    /// The window draws through the default graphics context of the
    /// screen, reports exposure, and is destroyed when it is let go.
    pub fn create_simple(
        display: &Display,
        screen: &Screen,
        buffer: Option<()>,
        parent: Option<&Window>,
        x: i32,
        y: i32,
        width: u32,
        height: u32,
        border_width: u32,
        border: u64,
        pixel: Pixel,
    ) -> (setup: WindowSetup)
        requires
            display.is_open(),
            display.has_screen(*screen),
        ensures
            setup@ == SetupState::start(
                Origin::CreateSimple {
                    parent: Self::parent_id(parent),
                    x,
                    y,
                    width,
                    height,
                    border_width,
                    border,
                    background: pixel.raw(),
                },
                buffer.is_some(),
                display@.handle,
                GC(display.screen_info(*screen).default_gc),
                0,
            ),
            setup@.wf(),
    {
        let parent = match parent {
            None => 0,
            Some(p) => p.window,
        };
        let origin = Origin::CreateSimple {
            parent,
            x,
            y,
            width,
            height,
            border_width,
            border,
            background: pixel.as_raw(),
        };
        WindowSetup::new(
            origin,
            buffer.is_some(),
            display.as_raw(),
            GC(display.screen(screen).default_gc),
            0,
        )
    }

    /// Starts a setup for a window that was made elsewhere and stays the
    /// property of whoever made it: it is never destroyed here.
    ///
    /// With `buffer` given, the window gets an off-screen buffer of the
    /// size and depth that the server reports for it; that buffer is the
    /// binding's own and is released with the window.
    pub fn from_raw(display: &Display, screen: &Screen, window: u64, buffer: Option<()>) -> (setup:
        WindowSetup)
        requires
            display.is_open(),
            display.has_screen(*screen),
        ensures
            setup@ == SetupState::start(
                Origin::Adopt { owned: false },
                buffer.is_some(),
                display@.handle,
                GC(display.screen_info(*screen).default_gc),
                window,
            ),
            setup@.wf(),
    {
        WindowSetup::new(
            Origin::Adopt { owned: false },
            buffer.is_some(),
            display.as_raw(),
            GC(display.screen(screen).default_gc),
            window,
        )
    }

    /// Starts a setup for a window that was made elsewhere and is handed
    /// over for good: it is destroyed when it is let go.
    pub fn from_raw_owned(display: &Display, screen: &Screen, window: u64, buffer: Option<()>) -> (setup:
        WindowSetup)
        requires
            display.is_open(),
            display.has_screen(*screen),
        ensures
            setup@ == SetupState::start(
                Origin::Adopt { owned: true },
                buffer.is_some(),
                display@.handle,
                GC(display.screen_info(*screen).default_gc),
                window,
            ),
            setup@.wf(),
    {
        WindowSetup::new(
            Origin::Adopt { owned: true },
            buffer.is_some(),
            display.as_raw(),
            GC(display.screen(screen).default_gc),
            window,
        )
    }

    /// Gives the window its title. A title that holds a zero byte cannot
    /// be handed over: nothing is asked then.
    pub fn set_window_title(&self, title: &str) -> (r: Option<Request>)
        ensures
            match r {
                Some(Request::StoreName { window, name }) => {
                    &&& is_c_text(title.spec_bytes())
                    &&& window == self.window_id()
                    &&& name@ == title.spec_bytes()
                },
                Some(_) => false,
                None => !is_c_text(title.spec_bytes()),
            },
    {
        match str_to_c_char(title) {
            Some(name) => Some(Request::StoreName { window: self.window, name }),
            None => None,
        }
    }

    /// Sets the colour that the window's graphics context fills behind
    /// text with.
    pub fn set_background_pixel(&self, pixel: Pixel) -> (r: Request)
        ensures
            r == (Request::SetBackground { gc: self.context().0, pixel: pixel.raw() }),
    {
        Request::SetBackground { gc: self.gc.0, pixel: pixel.as_raw() }
    }

    /// Sets the colour that the window's graphics context draws with.
    pub fn set_foreground_pixel(&self, pixel: Pixel) -> (r: Request)
        ensures
            r == (Request::SetForeground { gc: self.context().0, pixel: pixel.raw() }),
    {
        Request::SetForeground { gc: self.gc.0, pixel: pixel.as_raw() }
    }

    /// The two requests that every drawing call begins with: they make the
    /// colour of the primitive both colours of the graphics context, so
    /// that no call depends on what another left there.
    pub open spec fn paint(&self, pixel: Pixel) -> Seq<Request> {
        seq![
            Request::SetForeground { gc: self.context().0, pixel: pixel.raw() },
            Request::SetBackground { gc: self.context().0, pixel: pixel.raw() },
        ]
    }

    /// What filling a rectangle asks of the server.
    pub open spec fn fill_rectangle_plan(&self, rect: Rectangle) -> Seq<Request> {
        self.paint(rect.color).push(
            Request::FillRectangle {
                drawable: self.buffer_id(),
                gc: self.context().0,
                x: rect.x as i32,
                y: rect.y as i32,
                width: rect.width,
                height: rect.height,
            },
        )
    }

    /// What outlining a rectangle asks of the server.
    pub open spec fn draw_rectangle_plan(&self, rect: Rectangle) -> Seq<Request> {
        self.paint(rect.color).push(
            Request::DrawRectangle {
                drawable: self.buffer_id(),
                gc: self.context().0,
                x: rect.x as i32,
                y: rect.y as i32,
                width: rect.width,
                height: rect.height,
            },
        )
    }

    /// What filling an arc asks of the server.
    pub open spec fn fill_arc_plan(&self, arc: Arc) -> Seq<Request> {
        self.paint(arc.color).push(
            Request::FillArc {
                drawable: self.buffer_id(),
                gc: self.context().0,
                x: arc.x as i32,
                y: arc.y as i32,
                width: arc.width,
                height: arc.height,
                angle1: arc.angle1 as i32,
                angle2: arc.angle2 as i32,
            },
        )
    }

    /// What drawing an arc asks of the server.
    pub open spec fn draw_arc_plan(&self, arc: Arc) -> Seq<Request> {
        self.paint(arc.color).push(
            Request::DrawArc {
                drawable: self.buffer_id(),
                gc: self.context().0,
                x: arc.x as i32,
                y: arc.y as i32,
                width: arc.width,
                height: arc.height,
                angle1: arc.angle1 as i32,
                angle2: arc.angle2 as i32,
            },
        )
    }

    fn begin(&self, pixel: Pixel) -> (requests: Vec<Request>)
        ensures
            requests@ == self.paint(pixel),
    {
        let mut requests = Vec::new();
        requests.push(Request::SetForeground { gc: self.gc.0, pixel: pixel.as_raw() });
        requests.push(Request::SetBackground { gc: self.gc.0, pixel: pixel.as_raw() });
        assert(requests@ =~= self.paint(pixel));
        requests
    }

    /// Fills the whole window, as large as the server says it is now, with
    /// one colour. `geometry` is the answer to [`Window::get_geometry`],
    /// asked right before.
    pub fn set_window_background(&self, pixel: Pixel, geometry: &Geometry) -> (requests: Vec<
        Request,
    >)
        ensures
            requests@ == self.fill_rectangle_plan(
                Rectangle {
                    x: 0,
                    y: 0,
                    width: geometry.width,
                    height: geometry.height,
                    color: pixel,
                },
            ),
    {
        let rect = Rectangle {
            x: 0,
            y: 0,
            width: geometry.width,
            height: geometry.height,
            color: pixel,
        };
        self.fill_rectangle(rect)
    }

    /// Fills a rectangle on the buffer, in the rectangle's colour.
    pub fn fill_rectangle(&self, rect: Rectangle) -> (requests: Vec<Request>)
        ensures
            requests@ == self.fill_rectangle_plan(rect),
    {
        let mut requests = self.begin(rect.color);
        requests.push(
            Request::FillRectangle {
                drawable: self.buffer,
                gc: self.gc.0,
                x: #[verifier::truncate]
                (rect.x as i32),
                y: #[verifier::truncate]
                (rect.y as i32),
                width: rect.width,
                height: rect.height,
            },
        );
        requests
    }

    /// Draws the outline of a rectangle on the buffer, in the rectangle's
    /// colour.
    pub fn draw_rectangle(&self, rect: Rectangle) -> (requests: Vec<Request>)
        ensures
            requests@ == self.draw_rectangle_plan(rect),
    {
        let mut requests = self.begin(rect.color);
        requests.push(
            Request::DrawRectangle {
                drawable: self.buffer,
                gc: self.gc.0,
                x: #[verifier::truncate]
                (rect.x as i32),
                y: #[verifier::truncate]
                (rect.y as i32),
                width: rect.width,
                height: rect.height,
            },
        );
        requests
    }

    /// Fills an arc on the buffer, in the arc's colour.
    pub fn fill_arc(&self, arc: Arc) -> (requests: Vec<Request>)
        ensures
            requests@ == self.fill_arc_plan(arc),
    {
        let mut requests = self.begin(arc.color);
        requests.push(
            Request::FillArc {
                drawable: self.buffer,
                gc: self.gc.0,
                x: #[verifier::truncate]
                (arc.x as i32),
                y: #[verifier::truncate]
                (arc.y as i32),
                width: arc.width,
                height: arc.height,
                angle1: #[verifier::truncate]
                (arc.angle1 as i32),
                angle2: #[verifier::truncate]
                (arc.angle2 as i32),
            },
        );
        requests
    }

    /// Draws an arc on the buffer, in the arc's colour.
    pub fn draw_arc(&self, arc: Arc) -> (requests: Vec<Request>)
        ensures
            requests@ == self.draw_arc_plan(arc),
    {
        let mut requests = self.begin(arc.color);
        requests.push(
            Request::DrawArc {
                drawable: self.buffer,
                gc: self.gc.0,
                x: #[verifier::truncate]
                (arc.x as i32),
                y: #[verifier::truncate]
                (arc.y as i32),
                width: arc.width,
                height: arc.height,
                angle1: #[verifier::truncate]
                (arc.angle1 as i32),
                angle2: #[verifier::truncate]
                (arc.angle2 as i32),
            },
        );
        requests
    }

    /// Whether a string can be drawn: it holds no zero byte, and its length
    /// in bytes is one that the server can be told.
    pub open spec fn drawable_text(string: &str) -> bool {
        is_c_text(string.spec_bytes()) && string.spec_bytes().len() <= i32::MAX
    }

    /// Draws 8-bit text on the buffer, with its baseline starting at
    /// (`x`, `y`), in one colour. A string that cannot be drawn asks for
    /// nothing.
    pub fn draw_string(&self, string: &str, x: i32, y: i32, color: Pixel) -> (r: Option<
        Vec<Request>,
    >)
        ensures
            match r {
                Some(requests) => {
                    &&& Self::drawable_text(string)
                    &&& requests@.len() == 3
                    &&& requests@.subrange(0, 2) == self.paint(color)
                    &&& requests@[2] matches Request::DrawString {
                        drawable,
                        gc,
                        x: at_x,
                        y: at_y,
                        text,
                    }
                    &&& drawable == self.buffer_id()
                    &&& gc == self.context().0
                    &&& at_x == x
                    &&& at_y == y
                    &&& text@ == string.spec_bytes()
                },
                None => !Self::drawable_text(string),
            },
    {
        if string.as_bytes().len() > 0x7fff_ffff {
            return None;
        }
        match str_to_c_char(string) {
            Some(text) => {
                let mut requests = self.begin(color);
                requests.push(
                    Request::DrawString { drawable: self.buffer, gc: self.gc.0, x, y, text },
                );
                assert(requests@.subrange(0, 2) =~= self.paint(color));
                Some(requests)
            },
            None => None,
        }
    }

    /// Asks where the window lies and how large it is. The answer is asked
    /// of the server every time, and of the window, not of its buffer:
    /// the window may have changed its size behind the binding's back.
    pub fn get_geometry(&self) -> (r: Request)
        ensures
            r == (Request::GetGeometry { drawable: self.window_id() }),
    {
        Request::GetGeometry { drawable: self.window }
    }

    /// The graphics context that the window draws through.
    pub fn get_gc(&self) -> (gc: &GC)
        ensures
            *gc == self.context(),
    {
        &self.gc
    }

    /// What showing the buffer asks of the server, for a window as large
    /// as `geometry` says.
    pub open spec fn present_plan(&self, geometry: Geometry) -> Request {
        Request::CopyArea {
            source: self.buffer_id(),
            destination: self.window_id(),
            gc: self.context().0,
            source_x: 0,
            source_y: 0,
            width: geometry.width,
            height: geometry.height,
            destination_x: 0,
            destination_y: 0,
        }
    }

    /// Shows what was drawn: copies the buffer onto the window, from the
    /// corner, as wide and as high as `geometry` says. `geometry` is the
    /// answer to [`Window::get_geometry`], asked right before, so that a
    /// window that was resized is covered as it is now. Where the window
    /// has no buffer of its own this copies the window onto itself.
    pub fn copy_to_buffer(&self, geometry: &Geometry) -> (r: Request)
        ensures
            r == self.present_plan(*geometry),
    {
        Request::CopyArea {
            source: self.buffer,
            destination: self.window,
            gc: self.gc.0,
            source_x: 0,
            source_y: 0,
            width: geometry.width,
            height: geometry.height,
            destination_x: 0,
            destination_y: 0,
        }
    }

    /// Sends the cached state of the window's graphics context to the
    /// server.
    pub fn flush_gc(&self) -> (r: Request)
        ensures
            r == (Request::FlushGC { gc: self.context().0 }),
    {
        Request::FlushGC { gc: self.gc.0 }
    }

    /// Puts the window on the screen.
    pub fn map(&self, display: &Display) -> (r: Request)
        requires
            display.is_open(),
        ensures
            r == (Request::MapWindow { window: self.window_id() }),
    {
        Request::MapWindow { window: self.window }
    }

    /// Starts an event loop for the window.
    pub fn run(&self) -> (event_loop: EventLoop)
        ensures
            event_loop@ == crate::xlib::event::LoopState::Waiting,
    {
        EventLoop::new()
    }

    /// Whether the window belongs to this connection.
    pub fn belongs_to(&self, display: &Display) -> (r: bool)
        ensures
            r == (display.is_open() && self.connection() == display@.handle),
    {
        display.is_open() && self.display == display.as_raw()
    }

    /// The id of the surface that drawing goes to.
    pub fn buffer(&self) -> (id: u64)
        ensures
            id == self.buffer_id(),
    {
        self.buffer
    }

    /// Whether drawing goes to an off-screen surface of its own.
    pub fn is_buffered(&self) -> (r: bool)
        ensures
            r == self.has_buffer(),
    {
        self.buffer != self.window
    }

    /// Whether the binding destroys the window when it lets go of it.
    pub fn is_owned(&self) -> (r: bool)
        ensures
            r == self.owns_window(),
    {
        self.owned
    }

    /// What letting go of the window asks of the server: the buffer is
    /// released where it is a surface of its own, then the window is
    /// destroyed where the binding owns it.
    pub open spec fn teardown_plan(&self) -> Seq<Request> {
        let buffer = if self.has_buffer() {
            seq![Request::FreePixmap { pixmap: self.buffer_id() }]
        } else {
            Seq::<Request>::empty()
        };
        let window = if self.owns_window() {
            seq![Request::DestroyWindow { window: self.window_id() }]
        } else {
            Seq::<Request>::empty()
        };
        buffer + window
    }

    /// Lets go of the window: the requests that release what the binding
    /// made for it. The window is used up, so nothing is released twice.
    pub fn teardown(self) -> (requests: Vec<Request>)
        ensures
            requests@ == self.teardown_plan(),
    {
        let mut requests = Vec::new();
        if self.buffer != self.window {
            requests.push(Request::FreePixmap { pixmap: self.buffer });
        }
        if self.owned {
            requests.push(Request::DestroyWindow { window: self.window });
        }
        assert(requests@ =~= self.teardown_plan());
        requests
    }
}

impl AsRaw<u64> for Window {
    /// The id of the window on the screen.
    open spec fn raw(&self) -> u64 {
        self.window_id()
    }

    fn as_raw(&self) -> u64 {
        self.window
    }
}

/// Letting go of a window that the binding owns, with a buffer of its own,
/// asks for exactly two releases: the buffer by its id and the window by
/// its id. The two ids differ, so nothing is released twice, and neither
/// release is left out.
pub proof fn lemma_teardown_releases_both(window: Window)
    requires
        window.owns_window(),
        window.has_buffer(),
    ensures
        window.teardown_plan().len() == 2,
        window.teardown_plan()[0] == (Request::FreePixmap { pixmap: window.buffer_id() }),
        window.teardown_plan()[1] == (Request::DestroyWindow { window: window.window_id() }),
        window.buffer_id() != window.window_id(),
{
}

/// Letting go of a window never asks for the same id to be released twice,
/// never releases a window that the binding does not own, and releases
/// nothing where the binding made nothing.
pub proof fn lemma_teardown_releases_only_own(window: Window)
    ensures
        window.teardown_plan().len() <= 2,
        !window.owns_window() ==> forall|i: int|
            0 <= i < window.teardown_plan().len() ==> !(#[trigger] window.teardown_plan()[i]
                is DestroyWindow),
        !window.has_buffer() ==> forall|i: int|
            0 <= i < window.teardown_plan().len() ==> !(#[trigger] window.teardown_plan()[i]
                is FreePixmap),
        !window.owns_window() && !window.has_buffer() ==> window.teardown_plan().len() == 0,
{
}

/// Showing the buffer copies as much as the geometry handed in says, and
/// nothing that the window was made with enters into it: two windows with
/// the same surfaces and graphics context, however they were made, ask for
/// the same copy.
pub proof fn lemma_present_follows_geometry(window: Window, other: Window, geometry: Geometry)
    requires
        window.window_id() == other.window_id(),
        window.buffer_id() == other.buffer_id(),
        window.context() == other.context(),
    ensures
        window.present_plan(geometry) == other.present_plan(geometry),
        window.present_plan(geometry) matches Request::CopyArea { width, height, .. } && width
            == geometry.width && height == geometry.height,
{
}

/// Every drawing call draws on the buffer, never on the window behind it,
/// and sets both colours of the graphics context first.
pub proof fn lemma_drawing_targets_buffer(window: Window, rect: Rectangle, arc: Arc)
    ensures
        window.fill_rectangle_plan(rect).len() == 3,
        window.fill_rectangle_plan(rect).subrange(0, 2) == window.paint(rect.color),
        window.fill_rectangle_plan(rect)[2] matches Request::FillRectangle { drawable, .. }
            && drawable == window.buffer_id(),
        window.draw_rectangle_plan(rect).subrange(0, 2) == window.paint(rect.color),
        window.draw_rectangle_plan(rect)[2] matches Request::DrawRectangle { drawable, .. }
            && drawable == window.buffer_id(),
        window.fill_arc_plan(arc).subrange(0, 2) == window.paint(arc.color),
        window.fill_arc_plan(arc)[2] matches Request::FillArc { drawable, .. } && drawable
            == window.buffer_id(),
        window.draw_arc_plan(arc).subrange(0, 2) == window.paint(arc.color),
        window.draw_arc_plan(arc)[2] matches Request::DrawArc { drawable, .. } && drawable
            == window.buffer_id(),
{
    assert(window.fill_rectangle_plan(rect).subrange(0, 2) =~= window.paint(rect.color));
    assert(window.draw_rectangle_plan(rect).subrange(0, 2) =~= window.paint(rect.color));
    assert(window.fill_arc_plan(arc).subrange(0, 2) =~= window.paint(arc.color));
    assert(window.draw_arc_plan(arc).subrange(0, 2) =~= window.paint(arc.color));
}

} // verus!
