use vstd::prelude::*;
use crate::xlib::color::Pixel;
use crate::xlib::consts::{
    CWBackPixel, CWBackingPixel, CWColormap, CWEventMask, CWOverrideRedirect, EventMask,
    WindowAttribute,
};
use crate::xlib::raw::AsRaw;
use crate::xlib::screen::ColorMap;

verus! {

/// The attributes that go with a request to create a window. Only those
/// whose bit is set in `value_mask` mean anything.
#[derive(Clone, Copy, Debug, PartialEq, Eq, Structural)]
pub struct WindowAttributes {
    pub value_mask: WindowAttribute,
    pub background_pixel: u64,
    pub backing_pixel: u64,
    pub override_redirect: bool,
    pub colormap: u64,
    pub event_mask: EventMask,
}

/// Whether a bit is that of one of the five attributes that a builder can
/// be given.
pub open spec fn is_attribute(flag: WindowAttribute) -> bool {
    flag == CWBackPixel || flag == CWBackingPixel || flag == CWOverrideRedirect || flag
        == CWColormap || flag == CWEventMask
}

impl WindowAttributes {
    /// Whether the bit of an attribute is set.
    pub open spec fn has(&self, flag: WindowAttribute) -> bool {
        self.value_mask & flag == flag
    }

    /// No attribute at all.
    pub open spec fn empty() -> WindowAttributes {
        WindowAttributes {
            value_mask: 0,
            background_pixel: 0,
            backing_pixel: 0,
            override_redirect: false,
            colormap: 0,
            event_mask: 0,
        }
    }

    /// The bits agree with the values: no bit is set but those of the five
    /// attributes that can be given, and an attribute whose bit is not set
    /// holds nothing.
    pub open spec fn consistent(&self) -> bool {
        &&& self.value_mask & !(CWBackPixel | CWBackingPixel | CWOverrideRedirect | CWColormap
            | CWEventMask) == 0
        &&& !self.has(CWBackPixel) ==> self.background_pixel == 0
        &&& !self.has(CWBackingPixel) ==> self.backing_pixel == 0
        &&& !self.has(CWOverrideRedirect) ==> !self.override_redirect
        &&& !self.has(CWColormap) ==> self.colormap == 0
        &&& !self.has(CWEventMask) ==> self.event_mask == 0
    }

    /// These attributes with one more bit set.
    pub open spec fn with(&self, flag: WindowAttribute) -> WindowAttributes {
        WindowAttributes { value_mask: self.value_mask | flag, ..*self }
    }

    /// These attributes with only the bits left that `mask` holds too.
    pub open spec fn only(&self, mask: WindowAttribute) -> WindowAttributes {
        WindowAttributes { value_mask: self.value_mask & mask, ..*self }
    }
}

/// Collects the attributes of a window to be. Giving an attribute its value
/// and setting its bit is one step, so the two cannot disagree.
#[derive(Clone, Copy, Debug)]
pub struct WindowAttributesBuilder {
    attributes: WindowAttributes,
}

impl View for WindowAttributesBuilder {
    type V = WindowAttributes;

    /// What has been collected so far.
    closed spec fn view(&self) -> WindowAttributes {
        self.attributes
    }
}

impl WindowAttributesBuilder {
    #[verifier::type_invariant]
    spec fn inv(self) -> bool {
        self@.consistent()
    }

    /// A builder that holds no attribute yet.
    pub fn new() -> (b: WindowAttributesBuilder)
        ensures
            b@ == WindowAttributes::empty(),
            b@.consistent(),
            forall|flag: WindowAttribute| is_attribute(flag) ==> !#[trigger] b@.has(flag),
    {
        assert(0u64 & !(0x2u64 | 0x100 | 0x200 | 0x2000 | 0x800) == 0) by (bit_vector);
        assert(0u64 & 0x2 != 0x2 && 0u64 & 0x100 != 0x100 && 0u64 & 0x200 != 0x200 && 0u64 & 0x2000
            != 0x2000 && 0u64 & 0x800 != 0x800) by (bit_vector);
        WindowAttributesBuilder {
            attributes: WindowAttributes {
                value_mask: 0,
                background_pixel: 0,
                backing_pixel: 0,
                override_redirect: false,
                colormap: 0,
                event_mask: 0,
            },
        }
    }

    /// Says whether the window manager leaves the window alone.
    pub fn override_redirect(self, b: bool) -> (r: WindowAttributesBuilder)
        ensures
            r@ == (WindowAttributes { override_redirect: b, ..self@ }).with(CWOverrideRedirect),
            r@.has(CWOverrideRedirect),
            r@.consistent(),
            forall|other: WindowAttribute|
                is_attribute(other) && other != CWOverrideRedirect ==> (#[trigger] r@.has(other)
                    <==> self@.has(other)),
    {
        proof {
            use_type_invariant(&self);
            lemma_with_flag(self.attributes.value_mask, CWOverrideRedirect);
        }
        let mut attributes = self.attributes;
        attributes.override_redirect = b;
        attributes.value_mask = attributes.value_mask | CWOverrideRedirect;
        WindowAttributesBuilder { attributes }
    }

    /// Gives the pixel that the window's background is filled with.
    pub fn background_pixel(self, pixel: Pixel) -> (r: WindowAttributesBuilder)
        ensures
            r@ == (WindowAttributes { background_pixel: pixel.raw(), ..self@ }).with(CWBackPixel),
            r@.has(CWBackPixel),
            r@.consistent(),
            forall|other: WindowAttribute|
                is_attribute(other) && other != CWBackPixel ==> (#[trigger] r@.has(other)
                    <==> self@.has(other)),
    {
        proof {
            use_type_invariant(&self);
            lemma_with_flag(self.attributes.value_mask, CWBackPixel);
        }
        let mut attributes = self.attributes;
        attributes.background_pixel = pixel.as_raw();
        attributes.value_mask = attributes.value_mask | CWBackPixel;
        WindowAttributesBuilder { attributes }
    }

    /// Gives the pixel that planes outside the backing store are restored
    /// with.
    pub fn backing_pixel(self, pixel: Pixel) -> (r: WindowAttributesBuilder)
        ensures
            r@ == (WindowAttributes { backing_pixel: pixel.raw(), ..self@ }).with(CWBackingPixel),
            r@.has(CWBackingPixel),
            r@.consistent(),
            forall|other: WindowAttribute|
                is_attribute(other) && other != CWBackingPixel ==> (#[trigger] r@.has(other)
                    <==> self@.has(other)),
    {
        proof {
            use_type_invariant(&self);
            lemma_with_flag(self.attributes.value_mask, CWBackingPixel);
        }
        let mut attributes = self.attributes;
        attributes.backing_pixel = pixel.as_raw();
        attributes.value_mask = attributes.value_mask | CWBackingPixel;
        WindowAttributesBuilder { attributes }
    }

    /// Gives the palette that the window's pixels are read through.
    pub fn colormap(self, cmap: &ColorMap) -> (r: WindowAttributesBuilder)
        ensures
            r@ == (WindowAttributes { colormap: cmap.raw(), ..self@ }).with(CWColormap),
            r@.has(CWColormap),
            r@.consistent(),
            forall|other: WindowAttribute|
                is_attribute(other) && other != CWColormap ==> (#[trigger] r@.has(other)
                    <==> self@.has(other)),
    {
        proof {
            use_type_invariant(&self);
            lemma_with_flag(self.attributes.value_mask, CWColormap);
        }
        let mut attributes = self.attributes;
        attributes.colormap = cmap.as_raw();
        attributes.value_mask = attributes.value_mask | CWColormap;
        WindowAttributesBuilder { attributes }
    }

    /// Gives the events that the window reports.
    pub fn event_mask(self, mask: EventMask) -> (r: WindowAttributesBuilder)
        ensures
            r@ == (WindowAttributes { event_mask: mask, ..self@ }).with(CWEventMask),
            r@.has(CWEventMask),
            r@.consistent(),
            forall|other: WindowAttribute|
                is_attribute(other) && other != CWEventMask ==> (#[trigger] r@.has(other)
                    <==> self@.has(other)),
    {
        proof {
            use_type_invariant(&self);
            lemma_with_flag(self.attributes.value_mask, CWEventMask);
        }
        let mut attributes = self.attributes;
        attributes.event_mask = mask;
        attributes.value_mask = attributes.value_mask | CWEventMask;
        WindowAttributesBuilder { attributes }
    }

    /// The bits of the attributes that have been given.
    pub fn value_mask(&self) -> (mask: WindowAttribute)
        ensures
            mask == self@.value_mask,
            self@.consistent(),
    {
        proof {
            use_type_invariant(self);
        }
        self.attributes.value_mask
    }
}

impl AsRaw<WindowAttributes> for WindowAttributesBuilder {
    open spec fn raw(&self) -> WindowAttributes {
        self@
    }

    fn as_raw(&self) -> WindowAttributes {
        self.attributes
    }
}

/// Setting one of the five bits sets it, keeps every bit that was set, sets
/// no other, and leaves the mask within the five.
proof fn lemma_with_flag(mask: u64, flag: u64)
    requires
        is_attribute(flag),
        mask & !(CWBackPixel | CWBackingPixel | CWOverrideRedirect | CWColormap | CWEventMask) == 0,
    ensures
        (mask | flag) & flag == flag,
        (mask | flag) & !(CWBackPixel | CWBackingPixel | CWOverrideRedirect | CWColormap
            | CWEventMask) == 0,
        forall|other: u64|
            is_attribute(other) && other != flag ==> ((#[trigger] ((mask | flag) & other) == other)
                <==> (mask & other == other)),
{
    assert((mask | flag) & flag == flag) by (bit_vector);
    assert((mask | flag) & !(0x2u64 | 0x100 | 0x200 | 0x2000 | 0x800) == 0) by (bit_vector)
        requires
            flag == 0x2 || flag == 0x100 || flag == 0x200 || flag == 0x2000 || flag == 0x800,
            mask & !(0x2u64 | 0x100 | 0x200 | 0x2000 | 0x800) == 0,
    ;
    assert forall|other: u64| is_attribute(other) && other != flag implies ((#[trigger] ((mask
        | flag) & other) == other) <==> (mask & other == other)) by {
        assert(((mask | flag) & other == other) <==> (mask & other == other)) by (bit_vector)
            requires
                flag == 0x2 || flag == 0x100 || flag == 0x200 || flag == 0x2000 || flag == 0x800,
                other == 0x2 || other == 0x100 || other == 0x200 || other == 0x2000 || other
                    == 0x800,
                other != flag,
        ;
    }
}

/// An attribute that was given stays given, whatever is given after it.
pub proof fn lemma_flags_only_grow(before: WindowAttributes, flag: WindowAttribute, kept: WindowAttribute)
    requires
        before.has(kept),
    ensures
        before.with(flag).has(kept),
{
    let mask = before.value_mask;
    assert((mask | flag) & kept == kept) by (bit_vector)
        requires
            mask & kept == kept,
    ;
}

} // verus!
