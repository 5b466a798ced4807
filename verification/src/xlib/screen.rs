use vstd::prelude::*;
use crate::error::Error;
use crate::protocol::{Reply, Request};
use crate::xlib::consts::WindowClass;
use crate::xlib::display::Display;
use crate::xlib::raw::AsRaw;

verus! {

/// A bit mask that picks one colour channel out of a pixel.
pub type Mask = u64;

/// What the server reports of one screen when a connection is made. None of
/// it is owned by the binding: the server keeps these for as long as the
/// connection lives.
#[derive(Clone, Copy, Debug, PartialEq, Eq, Structural)]
pub struct ScreenInfo {
    /// The id of the root window.
    pub root: u64,
    /// The address of the default graphics context.
    pub default_gc: usize,
    /// The address of the default visual.
    pub default_visual: usize,
    /// The id of the default colormap.
    pub default_colormap: u64,
    /// The pixel reserved for black.
    pub black_pixel: u64,
    /// The pixel reserved for white.
    pub white_pixel: u64,
}

/// A screen of a display, named by its index. It owns nothing and means
/// something only together with the connection it was taken from.
#[derive(Clone, Copy, Debug, PartialEq, Eq, Structural)]
pub struct Screen {
    screen: i32,
}

impl Screen {
    /// The screen that the server named as its default when the connection
    /// was made.
    pub fn default(display: &Display) -> (s: Screen)
        ensures
            s.raw() == display@.default_screen,
            display.has_screen(s),
    {
        Screen { screen: display.default_screen_index() }
    }

    /// The screen with the given index.
    pub fn from_raw(screen: i32) -> (s: Screen)
        ensures
            s.raw() == screen,
    {
        Screen { screen }
    }
}

impl AsRaw<i32> for Screen {
    closed spec fn raw(&self) -> i32 {
        self.screen
    }

    fn as_raw(&self) -> i32 {
        self.screen
    }
}

/// A pixel format of the server, named by the address of its descriptor.
/// The descriptor belongs to the server and is never released here.
#[derive(Clone, Copy, Debug, PartialEq, Eq, Structural)]
pub struct Visual {
    visual: usize,
}

impl Visual {
    /// The default visual of a screen.
    pub fn default(display: &Display, screen: &Screen) -> (v: Visual)
        requires
            display.has_screen(*screen),
        ensures
            v.raw() == display.screen_info(*screen).default_visual,
    {
        Visual { visual: display.screen(screen).default_visual }
    }

    /// The visual whose descriptor lies at the given address.
    pub fn from_raw(visual: usize) -> (v: Visual)
        ensures
            v.raw() == visual,
    {
        Visual { visual }
    }
}

impl AsRaw<usize> for Visual {
    closed spec fn raw(&self) -> usize {
        self.visual
    }

    fn as_raw(&self) -> usize {
        self.visual
    }
}

/// The outcome of a visual negotiation: a visual with what the server says
/// of it.
#[derive(Clone, Copy, Debug, PartialEq, Eq, Structural)]
pub struct VisualInfo {
    pub visual: Visual,
    pub visualid: u64,
    pub screen: Screen,
    pub depth: i32,
    pub class: WindowClass,
    pub red_mask: Mask,
    pub green_mask: Mask,
    pub blue_mask: Mask,
    pub colormap_size: i32,
    pub bits_per_rgb: i32,
}

/// A palette of the server, named by its id. The palette that a screen
/// comes with belongs to the server; one that was made on request belongs
/// to whoever holds it, and is released with [`ColorMap::free`].
#[derive(Debug, PartialEq, Eq)]
pub struct ColorMap {
    cmap: u64,
    owned: bool,
}

impl ColorMap {
    /// Whether the palette was made on request, and so must be released.
    pub closed spec fn is_owned(&self) -> bool {
        self.owned
    }

    /// The palette that a screen comes with. It lives as long as the screen
    /// and is never released here.
    pub fn default(display: &Display, screen: &Screen) -> (c: ColorMap)
        requires
            display.has_screen(*screen),
        ensures
            c.raw() == display.screen_info(*screen).default_colormap,
            !c.is_owned(),
    {
        ColorMap { cmap: display.screen(screen).default_colormap, owned: false }
    }

    /// Asks for a palette for a visual, on the screen of the window with
    /// the given id. [`ColorMap::from_reply`] reads the answer.
    pub fn create(display: &Display, window: u64, visual: &Visual) -> (r: Request)
        requires
            display.is_open(),
        ensures
            r == (Request::CreateColormap { window, visual: visual.raw() }),
    {
        Request::CreateColormap { window, visual: visual.visual }
    }

    /// The palette that the server made; it belongs to whoever holds it.
    /// An id of 0 names no palette.
    pub fn from_reply(reply: Reply) -> (r: Result<ColorMap, Error>)
        ensures
            match reply {
                Reply::Id(id) if id != 0 => r matches Ok(c) && c.raw() == id && c.is_owned(),
                _ => r is Err && r->Err_0 == Error::CreationFailure,
            },
    {
        match reply {
            Reply::Id(id) if id != 0 => Ok(ColorMap { cmap: id, owned: true }),
            _ => Err(Error::CreationFailure),
        }
    }

    /// Lets go of the palette: the request that releases it where it was
    /// made on request, and nothing where it is the server's own. The
    /// palette is used up, so it cannot be released twice.
    pub fn free(self) -> (r: Option<Request>)
        ensures
            r == if self.is_owned() {
                Some(Request::FreeColormap { colormap: self.raw() })
            } else {
                None
            },
    {
        if self.owned {
            Some(Request::FreeColormap { colormap: self.cmap })
        } else {
            None
        }
    }
}

impl AsRaw<u64> for ColorMap {
    closed spec fn raw(&self) -> u64 {
        self.cmap
    }

    fn as_raw(&self) -> u64 {
        self.cmap
    }
}

/// The drawing state that every primitive draws through, named by its
/// address. Windows of one screen share the screen's default one.
#[derive(Clone, Copy, Debug, PartialEq, Eq, Structural)]
pub struct GC(pub usize);

impl AsRaw<usize> for GC {
    open spec fn raw(&self) -> usize {
        self.0
    }

    fn as_raw(&self) -> usize {
        self.0
    }
}

} // verus!
