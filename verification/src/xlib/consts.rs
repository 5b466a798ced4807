use vstd::prelude::*;

verus! {

/// A set of event kinds, one bit each.
pub type EventMask = u64;

/// Whether a window shows anything or only takes input.
pub type WindowClass = u32;

/// A set of window attributes, one bit each.
pub type WindowAttribute = u64;

/// The type tag that the server puts on an event.
pub type EventType = i32;

pub const NoEventMask: EventMask = 0;

pub const KeyPressMask: EventMask = 0x0000_0001;

pub const KeyReleaseMask: EventMask = 0x0000_0002;

pub const ButtonPressMask: EventMask = 0x0000_0004;

pub const ButtonReleaseMask: EventMask = 0x0000_0008;

pub const EnterWindowMask: EventMask = 0x0000_0010;

pub const LeaveWindowMask: EventMask = 0x0000_0020;

pub const PointerMotionMask: EventMask = 0x0000_0040;

pub const PointerMotionHintMask: EventMask = 0x0000_0080;

pub const Button1MotionMask: EventMask = 0x0000_0100;

pub const Button2MotionMask: EventMask = 0x0000_0200;

pub const Button3MotionMask: EventMask = 0x0000_0400;

pub const Button4MotionMask: EventMask = 0x0000_0800;

pub const Button5MotionMask: EventMask = 0x0000_1000;

pub const KeymapStateMask: EventMask = 0x0000_4000;

pub const ExposureMask: EventMask = 0x0000_8000;

pub const VisibilityChangeMask: EventMask = 0x0001_0000;

pub const StructureNotifyMask: EventMask = 0x0002_0000;

pub const ResizeRedirectMask: EventMask = 0x0004_0000;

pub const SubstructureNotifyMask: EventMask = 0x0008_0000;

pub const SubstructureRedirectMask: EventMask = 0x0010_0000;

pub const FocusChangeMask: EventMask = 0x0020_0000;

pub const PropertyChangeMask: EventMask = 0x0040_0000;

pub const ColormapChangeMask: EventMask = 0x0080_0000;

pub const OwnerGrabButtonMask: EventMask = 0x0100_0000;

pub const InputOutput: WindowClass = 1;

pub const InputOnly: WindowClass = 2;

pub const CWBackPixmap: WindowAttribute = 0x0001;

pub const CWBackPixel: WindowAttribute = 0x0002;

pub const CWBorderPixmap: WindowAttribute = 0x0004;

pub const CWBorderPixel: WindowAttribute = 0x0008;

pub const CWBitGravity: WindowAttribute = 0x0010;

pub const CWWinGravity: WindowAttribute = 0x0020;

pub const CWBackingStore: WindowAttribute = 0x0040;

pub const CWBackingPlanes: WindowAttribute = 0x0080;

pub const CWBackingPixel: WindowAttribute = 0x0100;

pub const CWOverrideRedirect: WindowAttribute = 0x0200;

pub const CWSaveUnder: WindowAttribute = 0x0400;

pub const CWEventMask: WindowAttribute = 0x0800;

pub const CWDontPropagate: WindowAttribute = 0x1000;

pub const CWColormap: WindowAttribute = 0x2000;

pub const CWCursor: WindowAttribute = 0x4000;

/// The tag of the event that asks for a region of a window to be redrawn.
pub const Expose: EventType = 12;

} // verus!
