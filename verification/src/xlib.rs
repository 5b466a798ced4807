//! Connections, screens, colours, windows and the event loop.

pub mod attributes;
pub mod color;
pub mod consts;
pub mod display;
pub mod event;
pub mod raw;
pub mod screen;
pub mod setup;
pub mod shapes;
pub mod window;

pub use consts::{
    EventMask, WindowClass, WindowAttribute, EventType, NoEventMask, KeyPressMask,
    KeyReleaseMask, ButtonPressMask, ButtonReleaseMask, EnterWindowMask, LeaveWindowMask,
    PointerMotionMask, PointerMotionHintMask, Button1MotionMask, Button2MotionMask,
    Button3MotionMask, Button4MotionMask, Button5MotionMask, KeymapStateMask, ExposureMask,
    VisibilityChangeMask, StructureNotifyMask, ResizeRedirectMask, SubstructureNotifyMask,
    SubstructureRedirectMask, FocusChangeMask, PropertyChangeMask, ColormapChangeMask,
    OwnerGrabButtonMask, InputOutput, InputOnly, CWBackPixmap, CWBackPixel, CWBorderPixmap,
    CWBorderPixel, CWBitGravity, CWWinGravity, CWBackingStore, CWBackingPlanes, CWBackingPixel,
    CWOverrideRedirect, CWSaveUnder, CWEventMask, CWDontPropagate, CWColormap, CWCursor,
    Expose,
};
pub use attributes::{WindowAttributes, WindowAttributesBuilder};
pub use color::{Color, Pixel};
pub use display::Display;
pub use event::{ControlFlow, EventLoop, LoopState, WindowEvent};
pub use raw::AsRaw;
pub use screen::{ColorMap, Mask, Screen, ScreenInfo, Visual, VisualInfo, GC};
pub use setup::{Origin, SetupState, Stage, WindowSetup};
pub use shapes::{Arc, Geometry, Rectangle};
pub use window::{PixMap, Window};
