use vstd::prelude::*;
use crate::protocol::Reply;
use crate::xlib::color::Pixel;

verus! {

/// Where a surface lies and how large it is, as the server reports it.
#[derive(Clone, Copy, Debug, PartialEq, Eq, Structural)]
pub struct Geometry {
    pub x: i32,
    pub y: i32,
    pub width: u32,
    pub height: u32,
    pub border_width: u32,
    pub depth: u32,
}

impl Geometry {
    /// The geometry that the server reported, where it reported one.
    pub fn from_reply(reply: Reply) -> (r: Option<Geometry>)
        ensures
            r == match reply {
                Reply::Geometry(geometry) => geometry,
                _ => None,
            },
    {
        match reply {
            Reply::Geometry(geometry) => geometry,
            _ => None,
        }
    }
}

/// An axis-parallel rectangle and the colour to draw it in.
#[derive(Clone, Copy, Debug, PartialEq, Eq, Structural)]
pub struct Rectangle {
    pub x: u32,
    pub y: u32,
    pub width: u32,
    pub height: u32,
    pub color: Pixel,
}

/// An arc of the ellipse inscribed in a rectangle, and the colour to draw it
/// in. Angles count in 64ths of a degree: a full circle is `360 * 64`.
#[derive(Clone, Copy, Debug, PartialEq, Eq, Structural)]
pub struct Arc {
    pub x: u32,
    pub y: u32,
    pub width: u32,
    pub height: u32,
    pub angle1: u32,
    pub angle2: u32,
    pub color: Pixel,
}

} // verus!
