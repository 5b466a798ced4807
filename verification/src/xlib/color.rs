use vstd::prelude::*;
use crate::error::Error;
use crate::protocol::{ColorCell, Reply, Request};
use crate::xlib::display::Display;
use crate::xlib::raw::AsRaw;
use crate::xlib::screen::{ColorMap, Screen};

verus! {

/// The index of a colour in a palette: what a drawing call takes as its
/// colour. It owns nothing.
#[derive(Clone, Copy, Debug, PartialEq, Eq, Structural)]
pub struct Pixel {
    pixel: u64,
}

impl Pixel {
    /// The pixel that a screen reserves for black. Nothing is allocated.
    pub fn black(display: &Display, screen: &Screen) -> (p: Pixel)
        requires
            display.has_screen(*screen),
        ensures
            p.raw() == display.screen_info(*screen).black_pixel,
    {
        Pixel { pixel: display.screen(screen).black_pixel }
    }

    /// The pixel that a screen reserves for white. Nothing is allocated.
    pub fn white(display: &Display, screen: &Screen) -> (p: Pixel)
        requires
            display.has_screen(*screen),
        ensures
            p.raw() == display.screen_info(*screen).white_pixel,
    {
        Pixel { pixel: display.screen(screen).white_pixel }
    }

    /// Asks for the nearest colour to (`r`, `g`, `b`) that the palette can
    /// hold. [`Pixel::from_reply`] reads the answer.
    pub fn from_rgb(display: &Display, cmap: &ColorMap, r: u16, g: u16, b: u16) -> (request: Request)
        requires
            display.is_open(),
        ensures
            request == (Request::AllocColor { colormap: cmap.raw(), red: r, green: g, blue: b }),
    {
        Color::from_rgb(display, cmap, r, g, b)
    }

    /// The pixel of the cell that the server allocated.
    pub fn from_reply(reply: Reply) -> (r: Result<Pixel, Error>)
        ensures
            match reply {
                Reply::Color(Some(cell)) => r matches Ok(p) && p.raw() == cell.pixel,
                _ => r == Err::<Pixel, Error>(Error::CreationFailure),
            },
    {
        match Color::from_reply(reply) {
            Ok(color) => Ok(color.get_pixel()),
            Err(e) => Err(e),
        }
    }
}

impl AsRaw<u64> for Pixel {
    closed spec fn raw(&self) -> u64 {
        self.pixel
    }

    fn as_raw(&self) -> u64 {
        self.pixel
    }
}

/// A colour as the server allocated it. The channels are those of the cell,
/// which the server may have rounded, not those that were asked for.
#[derive(Clone, Copy, Debug, PartialEq, Eq, Structural)]
pub struct Color {
    pixel: Pixel,
    red: u16,
    green: u16,
    blue: u16,
    flags: u8,
    pad: u8,
}

impl View for Color {
    type V = ColorCell;

    /// The cell that this colour was made from.
    closed spec fn view(&self) -> ColorCell {
        ColorCell {
            pixel: self.pixel.raw(),
            red: self.red,
            green: self.green,
            blue: self.blue,
            flags: self.flags,
            pad: self.pad,
        }
    }
}

impl Color {
    /// Asks for the nearest colour to (`r`, `g`, `b`) that the palette can
    /// hold. [`Color::from_reply`] reads the answer.
    pub fn from_rgb(display: &Display, cmap: &ColorMap, r: u16, g: u16, b: u16) -> (request: Request)
        requires
            display.is_open(),
        ensures
            request == (Request::AllocColor { colormap: cmap.raw(), red: r, green: g, blue: b }),
    {
        Request::AllocColor { colormap: cmap.as_raw(), red: r, green: g, blue: b }
    }

    /// The colour that the server allocated. Its channels and its pixel are
    /// those of the answer, whatever was asked for. Without a cell there is
    /// no colour.
    pub fn from_reply(reply: Reply) -> (r: Result<Color, Error>)
        ensures
            match reply {
                Reply::Color(Some(cell)) => r matches Ok(c) && c@ == cell,
                _ => r == Err::<Color, Error>(Error::CreationFailure),
            },
    {
        match reply {
            Reply::Color(Some(cell)) => Ok(
                Color {
                    pixel: Pixel { pixel: cell.pixel },
                    red: cell.red,
                    green: cell.green,
                    blue: cell.blue,
                    flags: cell.flags,
                    pad: cell.pad,
                },
            ),
            _ => Err(Error::CreationFailure),
        }
    }

    /// The pixel to draw this colour with.
    pub fn get_pixel(&self) -> (p: Pixel)
        ensures
            p.raw() == self@.pixel,
    {
        self.pixel
    }

    /// The red channel as allocated.
    pub fn red(&self) -> (v: u16)
        ensures
            v == self@.red,
    {
        self.red
    }

    /// The green channel as allocated.
    pub fn green(&self) -> (v: u16)
        ensures
            v == self@.green,
    {
        self.green
    }

    /// The blue channel as allocated.
    pub fn blue(&self) -> (v: u16)
        ensures
            v == self@.blue,
    {
        self.blue
    }
}

} // verus!
