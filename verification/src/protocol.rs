//! What passes between the binding and the server.
//!
//! A [`Request`] names one call on the client library with its arguments as
//! plain values; the connection it goes to is the one that the caller holds.
//! A [`Reply`] is what came back. Ids are server-side names of resources,
//! with 0 for none; addresses are client-side, with 0 for null.

use vstd::prelude::*;
use crate::xcb::EventQueueOwner;
use crate::xlib::attributes::WindowAttributes;
use crate::xlib::consts::EventType;
use crate::xlib::screen::{ScreenInfo, VisualInfo};
use crate::xlib::shapes::Geometry;

verus! {

/// One call on the client library.
#[derive(Clone, Debug, PartialEq, Eq)]
#[allow(inconsistent_fields)]
pub enum Request {
    /// Connect to the named server, or to the one that the environment
    /// names. Answered by [`Reply::Connection`].
    OpenDisplay { name: Option<Vec<u8>> },
    /// Close the connection.
    CloseDisplay,
    /// Send what is buffered to the server.
    Flush,
    /// Allocate the nearest colour that the palette can hold. Answered by
    /// [`Reply::Color`].
    AllocColor { colormap: u64, red: u16, green: u16, blue: u16 },
    /// Create an off-screen surface on the screen of `drawable`. Answered by
    /// [`Reply::Id`].
    CreatePixmap { drawable: u64, width: u32, height: u32, depth: u32 },
    /// Release an off-screen surface.
    FreePixmap { pixmap: u64 },
    /// Create a palette for a visual, with no cell allocated, on the screen
    /// of `window`. Answered by [`Reply::Id`].
    CreateColormap { window: u64, visual: usize },
    /// Release a palette.
    FreeColormap { colormap: u64 },
    /// Create a window. Answered by [`Reply::Id`].
    CreateWindow {
        parent: u64,
        x: i32,
        y: i32,
        width: u32,
        height: u32,
        border_width: u32,
        depth: i32,
        class: u32,
        visual: usize,
        attributes: WindowAttributes,
    },
    /// Create a window that takes visual, class and depth from its parent.
    /// Answered by [`Reply::Id`].
    CreateSimpleWindow {
        parent: u64,
        x: i32,
        y: i32,
        width: u32,
        height: u32,
        border_width: u32,
        border: u64,
        background: u64,
    },
    /// Destroy a window.
    DestroyWindow { window: u64 },
    /// Say which events of a window the client wants.
    SelectInput { window: u64, event_mask: u64 },
    /// Put a window on the screen.
    MapWindow { window: u64 },
    /// Give a window its title.
    StoreName { window: u64, name: Vec<u8> },
    /// Set the colour that a graphics context draws with.
    SetForeground { gc: usize, pixel: u64 },
    /// Set the colour that a graphics context fills behind text with.
    SetBackground { gc: usize, pixel: u64 },
    /// Fill a rectangle.
    FillRectangle { drawable: u64, gc: usize, x: i32, y: i32, width: u32, height: u32 },
    /// Draw the outline of a rectangle.
    DrawRectangle { drawable: u64, gc: usize, x: i32, y: i32, width: u32, height: u32 },
    /// Fill an arc.
    FillArc {
        drawable: u64,
        gc: usize,
        x: i32,
        y: i32,
        width: u32,
        height: u32,
        angle1: i32,
        angle2: i32,
    },
    /// Draw an arc.
    DrawArc {
        drawable: u64,
        gc: usize,
        x: i32,
        y: i32,
        width: u32,
        height: u32,
        angle1: i32,
        angle2: i32,
    },
    /// Draw 8-bit text with its baseline starting at (`x`, `y`).
    DrawString { drawable: u64, gc: usize, x: i32, y: i32, text: Vec<u8> },
    /// Ask where a surface lies and how large it is. Answered by
    /// [`Reply::Geometry`].
    GetGeometry { drawable: u64 },
    /// Copy a rectangle from one surface to another.
    CopyArea {
        source: u64,
        destination: u64,
        gc: usize,
        source_x: i32,
        source_y: i32,
        width: u32,
        height: u32,
        destination_x: i32,
        destination_y: i32,
    },
    /// Send the cached state of a graphics context to the server.
    FlushGC { gc: usize },
    /// Wait for the next event. Answered by [`Reply::Event`].
    NextEvent,
    /// Ask for the best visual of a screen that meets a list of attributes,
    /// which ends in 0. Answered by [`Reply::Visual`].
    ChooseVisual { screen: i32, attributes: Vec<i32> },
    /// Create a rendering context for a visual. Answered by
    /// [`Reply::Handle`].
    CreateContext { visual: VisualInfo, share: usize, direct: i32 },
    /// Release a rendering context.
    DestroyContext { context: usize },
    /// Look up an entry point of the rendering API by name. Answered by
    /// [`Reply::Handle`].
    GetProcAddress { name: Vec<u8> },
    /// Bind a rendering context and a surface to the calling thread.
    MakeCurrent { drawable: u64, context: usize },
    /// Show the back buffer of a surface.
    SwapBuffers { drawable: u64 },
    /// Ask for the XCB connection under the display. Answered by
    /// [`Reply::Handle`].
    GetXcbConnection,
    /// Say which client library reads the events of the connection.
    SetEventQueueOwner { owner: EventQueueOwner },
}

/// What the server says of itself when a connection is made.
#[derive(Clone, Debug, PartialEq, Eq)]
pub struct ServerInfo {
    /// The address of the connection; 0 when there is none.
    pub handle: usize,
    /// The name that the connection was made under.
    pub name: String,
    /// The major version of the protocol.
    pub protocol_version: i32,
    /// The minor version of the protocol.
    pub protocol_revision: i32,
    /// Who made the server.
    pub vendor: String,
    /// The vendor's release number.
    pub vendor_release: i32,
    /// The index of the default screen.
    pub default_screen: i32,
    /// The screens, by index.
    pub screens: Vec<ScreenInfo>,
}

/// A colour cell as the server allocated it.
#[derive(Clone, Copy, Debug, PartialEq, Eq, Structural)]
pub struct ColorCell {
    pub pixel: u64,
    pub red: u16,
    pub green: u16,
    pub blue: u16,
    pub flags: u8,
    pub pad: u8,
}

/// What came back from one request.
#[derive(Clone, Debug, PartialEq, Eq)]
pub enum Reply {
    /// The request has no answer.
    Done,
    /// The connection that was made, or `None` where the server could not
    /// be reached.
    Connection(Option<ServerInfo>),
    /// The id of a resource; 0 where none was made.
    Id(u64),
    /// An address; 0 for null.
    Handle(usize),
    /// The geometry of a surface, or `None` where the server knows no such
    /// surface.
    Geometry(Option<Geometry>),
    /// The cell that was allocated, or `None` where the palette is full.
    Color(Option<ColorCell>),
    /// The visual that was chosen, or `None` where no configuration matches.
    Visual(Option<VisualInfo>),
    /// The type tag of the event that arrived.
    Event(EventType),
}

} // verus!
