//! The GLX extension: choosing a visual that can be rendered to, and
//! rendering contexts.

use vstd::prelude::*;
use vstd::string::StringSliceAdditionalSpecFns;
use crate::error::Error;
use crate::protocol::{Reply, Request};
use crate::util::{is_c_text, str_to_c_char};
use crate::xlib::attributes::{WindowAttributes, WindowAttributesBuilder};
use crate::xlib::consts::{
    CWColormap, CWEventMask, EventMask, ExposureMask, InputOutput, KeyPressMask,
};
use crate::xlib::display::Display;
use crate::xlib::raw::AsRaw;
use crate::xlib::screen::{ColorMap, Screen, VisualInfo, GC};
use crate::xlib::setup::{Origin, SetupState, WindowSetup};
use crate::xlib::window::Window;

verus! {

/// A name or a value in a list of attributes.
pub type GLXAttribute = i32;

pub const GLX_SLOW_CONFIG: GLXAttribute = 0x8001;

pub const GLX_NON_CONFORMANT_CONFIG: GLXAttribute = 0x800d;

pub const GLX_WINDOW_BIT: GLXAttribute = 0x0001;

pub const GLX_PIXMAP_BIT: GLXAttribute = 0x0002;

pub const GLX_PBUFFER_BIT: GLXAttribute = 0x0004;

pub const GLX_USE_GL: GLXAttribute = 0x0001;

pub const GLX_BUFFER_SIZE: GLXAttribute = 0x0002;

pub const GLX_LEVEL: GLXAttribute = 0x0003;

pub const GLX_RGBA: GLXAttribute = 0x0004;

pub const GLX_DOUBLEBUFFER: GLXAttribute = 0x0005;

pub const GLX_STEREO: GLXAttribute = 0x0006;

pub const GLX_AUX_BUFFERS: GLXAttribute = 0x0007;

pub const GLX_RED_SIZE: GLXAttribute = 0x0008;

pub const GLX_GREEN_SIZE: GLXAttribute = 0x0009;

pub const GLX_BLUE_SIZE: GLXAttribute = 0x000a;

pub const GLX_ALPHA_SIZE: GLXAttribute = 0x000b;

pub const GLX_DEPTH_SIZE: GLXAttribute = 0x000c;

pub const GLX_STENCIL_SIZE: GLXAttribute = 0x000d;

pub const GLX_ACCUM_RED_SIZE: GLXAttribute = 0x000e;

pub const GLX_ACCUM_GREEN_SIZE: GLXAttribute = 0x000f;

pub const GLX_ACCUM_BLUE_SIZE: GLXAttribute = 0x0010;

pub const GLX_ACCUM_ALPHA_SIZE: GLXAttribute = 0x0011;

pub const GLX_CONFIG_CAVEAT: GLXAttribute = 0x0020;

pub const GLX_X_VISUAL_TYPE: GLXAttribute = 0x0022;

pub const GLX_TRANSPARENT_TYPE: GLXAttribute = 0x0023;

pub const GLX_TRANSPARENT_INDEX_VALUE: GLXAttribute = 0x0024;

pub const GLX_TRANSPARENT_RED_VALUE: GLXAttribute = 0x0025;

pub const GLX_TRANSPARENT_GREEN_VALUE: GLXAttribute = 0x0026;

pub const GLX_TRANSPARENT_BLUE_VALUE: GLXAttribute = 0x0027;

pub const GLX_TRANSPARENT_ALPHA_VALUE: GLXAttribute = 0x0028;

pub const GLX_VISUAL_ID: GLXAttribute = 0x800b;

pub const GLX_SCREEN: GLXAttribute = 0x800c;

pub const GLX_DRAWABLE_TYPE: GLXAttribute = 0x8010;

pub const GLX_RENDER_TYPE: GLXAttribute = 0x8011;

pub const GLX_X_RENDERABLE: GLXAttribute = 0x8012;

pub const GLX_FBCONFIG_ID: GLXAttribute = 0x8013;

pub const GLX_MAX_PBUFFER_WIDTH: GLXAttribute = 0x8016;

pub const GLX_MAX_PBUFFER_HEIGHT: GLXAttribute = 0x8017;

pub const GLX_MAX_PBUFFER_PIXELS: GLXAttribute = 0x8018;

pub const GLX_SAMPLE_BUFFERS: GLXAttribute = 0x1_86a0;

pub const GLX_SAMPLES: GLXAttribute = 0x1_86a1;

pub const GLX_CONTEXT_MAJOR_VERSION_ARB: GLXAttribute = 0x2091;

pub const GLX_CONTEXT_MINOR_VERSION_ARB: GLXAttribute = 0x2092;

pub const GLX_DONT_CARE: GLXAttribute = -1;

pub const GLX_NONE: GLXAttribute = 0x8000;

/// Whether an attribute stands alone in a list. Every other attribute is
/// followed by its value.
pub open spec fn is_flag(attribute: GLXAttribute) -> bool {
    attribute == GLX_USE_GL || attribute == GLX_RGBA || attribute == GLX_DOUBLEBUFFER || attribute
        == GLX_STEREO
}

/// Whether an entry says that no more attributes follow.
pub open spec fn is_end(attribute: GLXAttribute) -> bool {
    attribute == 0 || attribute == GLX_NONE
}

/// The list as it goes to the server: the attributes up to the first entry
/// that ends the list, or up to the end where none does, each with its
/// value, and then a 0. A list in which an attribute lacks its value is
/// none that can be sent.
pub open spec fn wire(attrs: Seq<GLXAttribute>) -> Option<Seq<GLXAttribute>>
    decreases attrs.len(),
{
    if attrs.len() == 0 || is_end(attrs[0]) {
        Some(seq![0i32])
    } else if is_flag(attrs[0]) {
        match wire(attrs.skip(1)) {
            Some(rest) => Some(seq![attrs[0]] + rest),
            None => None,
        }
    } else if attrs.len() < 2 {
        None
    } else {
        match wire(attrs.skip(2)) {
            Some(rest) => Some(seq![attrs[0], attrs[1]] + rest),
            None => None,
        }
    }
}

/// Whether a list asks for an attribute to have a value.
pub open spec fn requests(attrs: Seq<GLXAttribute>, name: GLXAttribute, value: GLXAttribute) -> bool
    decreases attrs.len(),
{
    if attrs.len() == 0 || is_end(attrs[0]) {
        false
    } else if is_flag(attrs[0]) {
        requests(attrs.skip(1), name, value)
    } else if attrs.len() < 2 {
        false
    } else {
        (attrs[0] == name && attrs[1] == value) || requests(attrs.skip(2), name, value)
    }
}

/// Whether a list asks for an attribute that stands alone.
pub open spec fn requests_flag(attrs: Seq<GLXAttribute>, flag: GLXAttribute) -> bool
    decreases attrs.len(),
{
    if attrs.len() == 0 || is_end(attrs[0]) {
        false
    } else if is_flag(attrs[0]) {
        attrs[0] == flag || requests_flag(attrs.skip(1), flag)
    } else if attrs.len() < 2 {
        false
    } else {
        requests_flag(attrs.skip(2), flag)
    }
}

/// Whether a depth is at least every depth size that a list asks for.
pub open spec fn deep_enough(attrs: Seq<GLXAttribute>, depth: i32) -> bool {
    forall|size: GLXAttribute| requests(attrs, GLX_DEPTH_SIZE, size) ==> depth >= size
}

fn flag(attribute: GLXAttribute) -> (r: bool)
    ensures
        r == is_flag(attribute),
{
    attribute == GLX_USE_GL || attribute == GLX_RGBA || attribute == GLX_DOUBLEBUFFER || attribute
        == GLX_STEREO
}

fn end(attribute: GLXAttribute) -> (r: bool)
    ensures
        r == is_end(attribute),
{
    attribute == 0 || attribute == GLX_NONE
}

/// Asks the server for the best visual of the default screen that meets a
/// list of attributes and can be rendered to.
///
/// The list holds attributes that stand alone and attributes that are
/// followed by their value; it ends at the first `GLX_NONE` or 0 in the
/// place of an attribute, or where the slice ends. It goes to the server
/// with a 0 at its end. A list in which the last attribute lacks its value
/// is refused at once. [`glx_visual`] reads the answer.
pub fn glx_choose_visual(display: &Display, attrs: &[GLXAttribute]) -> (r: Result<Request, Error>)
    requires
        display.is_open(),
    ensures
        match wire(attrs@) {
            Some(list) => r matches Ok(Request::ChooseVisual { screen, attributes }) && screen
                == display@.default_screen && attributes@ == list,
            None => r == Err::<Request, Error>(Error::VisualNegotiationFailure),
        },
{
    let mut attributes: Vec<GLXAttribute> = Vec::new();
    let mut i: usize = 0;
    let mut open = true;
    proof {
        assert(attrs@.skip(0) =~= attrs@);
        if wire(attrs@) is Some {
            assert(attributes@ + wire(attrs@)->0 =~= wire(attrs@)->0);
        }
    }
    while open && i < attrs.len()
        invariant
            i <= attrs.len(),
            open ==> wire(attrs@) == match wire(attrs@.skip(i as int)) {
                Some(rest) => Some(attributes@ + rest),
                None => None,
            },
            !open ==> wire(attrs@) == Some(attributes@ + seq![0i32]),
        decreases attrs.len() - i + if open { 1int } else { 0int },
    {
        let attribute = attrs[i];
        let ghost tail = attrs@.skip(i as int);
        assert(tail[0] == attribute);
        if end(attribute) {
            open = false;
        } else if flag(attribute) {
            proof {
                let rest = wire(tail.skip(1));
                assert(tail.skip(1) =~= attrs@.skip(i + 1));
                if rest is Some {
                    assert(attributes@ + (seq![attribute] + rest->0) =~= attributes@.push(attribute)
                        + rest->0);
                }
            }
            attributes.push(attribute);
            i += 1;
        } else if attrs.len() - i < 2 {
            return Err(Error::VisualNegotiationFailure);
        } else {
            let value = attrs[i + 1];
            proof {
                let rest = wire(tail.skip(2));
                assert(tail[1] == value);
                assert(tail.skip(2) =~= attrs@.skip(i + 2));
                if rest is Some {
                    assert(attributes@ + (seq![attribute, value] + rest->0) =~= attributes@.push(
                        attribute,
                    ).push(value) + rest->0);
                }
            }
            attributes.push(attribute);
            attributes.push(value);
            i += 2;
        }
    }
    proof {
        if open {
            assert(attrs@.skip(i as int).len() == 0);
        }
        assert(attributes@ + seq![0i32] =~= attributes@.push(0i32));
    }
    attributes.push(0);
    Ok(Request::ChooseVisual { screen: display.default_screen_index(), attributes })
}

/// Whether a depth is at least every depth size that a list asks for.
pub fn glx_deep_enough(attrs: &[GLXAttribute], depth: i32) -> (r: bool)
    ensures
        r == deep_enough(attrs@, depth),
{
    let mut i: usize = 0;
    proof {
        assert(attrs@.skip(0) =~= attrs@);
    }
    while i < attrs.len()
        invariant
            i <= attrs.len(),
            forall|size: GLXAttribute| #[trigger]
                requests(attrs@, GLX_DEPTH_SIZE, size) ==> depth >= size || requests(
                    attrs@.skip(i as int),
                    GLX_DEPTH_SIZE,
                    size,
                ),
            forall|size: GLXAttribute| #[trigger]
                requests(attrs@.skip(i as int), GLX_DEPTH_SIZE, size) ==> requests(
                    attrs@,
                    GLX_DEPTH_SIZE,
                    size,
                ),
        decreases attrs.len() - i,
    {
        let attribute = attrs[i];
        let ghost tail = attrs@.skip(i as int);
        assert(tail[0] == attribute);
        if end(attribute) {
            assert forall|size: GLXAttribute| #[trigger]
                requests(attrs@, GLX_DEPTH_SIZE, size) implies depth >= size by {
                assert(!requests(tail, GLX_DEPTH_SIZE, size));
            }
            return true;
        } else if flag(attribute) {
            proof {
                assert(tail.skip(1) =~= attrs@.skip(i + 1));
                assert forall|size: GLXAttribute|
                    requests(tail, GLX_DEPTH_SIZE, size) == #[trigger] requests(
                        attrs@.skip(i + 1),
                        GLX_DEPTH_SIZE,
                        size,
                    ) by {}
            }
            i += 1;
        } else if attrs.len() - i < 2 {
            assert forall|size: GLXAttribute| #[trigger]
                requests(attrs@, GLX_DEPTH_SIZE, size) implies depth >= size by {
                assert(!requests(tail, GLX_DEPTH_SIZE, size));
            }
            return true;
        } else {
            let value = attrs[i + 1];
            assert(tail[1] == value);
            assert(tail.skip(2) =~= attrs@.skip(i + 2));
            if attribute == GLX_DEPTH_SIZE && depth < value {
                assert(requests(tail, GLX_DEPTH_SIZE, value));
                return false;
            }
            proof {
                assert forall|size: GLXAttribute|
                    requests(tail, GLX_DEPTH_SIZE, size) == ((attribute == GLX_DEPTH_SIZE && value
                        == size) || #[trigger] requests(attrs@.skip(i + 2), GLX_DEPTH_SIZE, size)) by {}
            }
            i += 2;
        }
    }
    proof {
        assert(attrs@.skip(i as int).len() == 0);
        assert forall|size: GLXAttribute| #[trigger]
            requests(attrs@, GLX_DEPTH_SIZE, size) implies depth >= size by {
            assert(!requests(attrs@.skip(i as int), GLX_DEPTH_SIZE, size));
        }
    }
    true
}

/// The visual that the server chose for a list of attributes.
///
/// There is one exactly where the server named a visual and that visual is
/// at least as deep as every depth size that the list asks for. A visual
/// that falls short is not handed on: no configuration of the server
/// satisfies the request then.
pub fn glx_visual(attrs: &[GLXAttribute], reply: Reply) -> (r: Result<VisualInfo, Error>)
    ensures
        match reply {
            Reply::Visual(Some(visual)) if deep_enough(attrs@, visual.depth) => r == Ok::<
                VisualInfo,
                Error,
            >(visual),
            _ => r == Err::<VisualInfo, Error>(Error::VisualNegotiationFailure),
        },
{
    match reply {
        Reply::Visual(Some(visual)) => {
            if glx_deep_enough(attrs, visual.depth) {
                Ok(visual)
            } else {
                Err(Error::VisualNegotiationFailure)
            }
        },
        _ => Err(Error::VisualNegotiationFailure),
    }
}

/// A rendering context, named by its address. Whoever holds it releases it
/// with [`GLXContext::release`].
#[derive(Debug, PartialEq, Eq)]
pub struct GLXContext {
    glc: usize,
}

impl GLXContext {
    /// The address that stands for a context to share with in a request:
    /// that of the context, or 0 where there is none.
    pub open spec fn share_handle(share: Option<&GLXContext>) -> usize {
        match share {
            Some(context) => context.raw(),
            None => 0,
        }
    }

    /// Asks for a rendering context for a visual, which shares its display
    /// lists and objects with `share` where one is given. `flag` says
    /// whether rendering goes to the hardware directly.
    /// [`GLXContext::from_reply`] reads the answer.
    pub fn create(display: &Display, vi: &VisualInfo, share: Option<&GLXContext>, flag: i32) -> (r:
        Request)
        requires
            display.is_open(),
        ensures
            r == (Request::CreateContext {
                visual: *vi,
                share: Self::share_handle(share),
                direct: flag,
            }),
    {
        let share = match share {
            Some(context) => context.glc,
            None => 0,
        };
        Request::CreateContext { visual: *vi, share, direct: flag }
    }

    /// The context that the server made. A null address names no context.
    pub fn from_reply(reply: Reply) -> (r: Result<GLXContext, Error>)
        ensures
            match reply {
                Reply::Handle(handle) if handle != 0 => r matches Ok(context) && context.raw()
                    == handle,
                _ => r is Err && r->Err_0 == Error::CreationFailure,
            },
    {
        match reply {
            Reply::Handle(handle) if handle != 0 => Ok(GLXContext { glc: handle }),
            _ => Err(Error::CreationFailure),
        }
    }

    /// Asks for the entry point of the rendering API with the given name.
    /// A name that holds a zero byte names no entry point: nothing is asked
    /// then. [`GLXContext::proc_address`] reads the answer.
    pub fn get_proc_address(&self, string: &str) -> (r: Option<Request>)
        ensures
            match r {
                Some(Request::GetProcAddress { name }) => is_c_text(string.spec_bytes()) && name@
                    == string.spec_bytes(),
                Some(_) => false,
                None => !is_c_text(string.spec_bytes()),
            },
    {
        match str_to_c_char(string) {
            Some(name) => Some(Request::GetProcAddress { name }),
            None => None,
        }
    }

    /// The address of the entry point that was asked for, or `None` where
    /// the rendering API has none of that name.
    pub fn proc_address(reply: Reply) -> (r: Option<usize>)
        ensures
            r == match reply {
                Reply::Handle(address) if address != 0 => Some(address),
                _ => None,
            },
    {
        match reply {
            Reply::Handle(address) if address != 0 => Some(address),
            _ => None,
        }
    }

    /// Lets go of the context: the request that releases it. The context
    /// is used up, so it cannot be released twice.
    pub fn release(self) -> (r: Request)
        ensures
            r == (Request::DestroyContext { context: self.raw() }),
    {
        Request::DestroyContext { context: self.glc }
    }
}

impl AsRaw<usize> for GLXContext {
    closed spec fn raw(&self) -> usize {
        self.glc
    }

    fn as_raw(&self) -> usize {
        self.glc
    }
}

/// Binds a rendering context and a window to the calling thread. What was
/// bound to the thread before is bound no longer.
pub fn glx_make_current(display: &Display, window: &Window, glx: &GLXContext) -> (r: Request)
    requires
        display.is_open(),
    ensures
        r == (Request::MakeCurrent { drawable: window.window_id(), context: glx.raw() }),
{
    Request::MakeCurrent { drawable: window.as_raw(), context: glx.glc }
}

/// Shows the back buffer of a window that was made for a double-buffered
/// visual.
pub fn glx_swap_buffers(display: &Display, window: &Window) -> (r: Request)
    requires
        display.is_open(),
    ensures
        r == (Request::SwapBuffers { drawable: window.window_id() }),
{
    Request::SwapBuffers { drawable: window.as_raw() }
}

/// The events that a window for GLX reports: exposure and key presses.
pub const GLX_WINDOW_EVENTS: EventMask = 0x8001;

/// The attributes of a window for GLX: the palette of its visual, and its
/// events.
pub open spec fn glx_attributes(cmap: ColorMap) -> WindowAttributes {
    WindowAttributes {
        value_mask: 0x2800,
        colormap: cmap.raw(),
        event_mask: GLX_WINDOW_EVENTS,
        ..WindowAttributes::empty()
    }
}

/// Starts a setup for a window that GLX can render to: a child of the
/// root window, of the depth and visual that were negotiated, read through
/// a palette that was made for that visual, and reporting exposure and key
/// presses. It has no off-screen buffer, because GLX keeps its own, and it
/// is destroyed when it is let go.
pub fn glx_create_window(
    display: &Display,
    screen: &Screen,
    vi: &VisualInfo,
    cmap: &ColorMap,
    x: i32,
    y: i32,
    width: u32,
    height: u32,
) -> (setup: WindowSetup)
    requires
        display.is_open(),
        display.has_screen(*screen),
    ensures
        setup@ == SetupState::start(
            Origin::Create {
                parent: display.screen_info(*screen).root,
                x,
                y,
                width,
                height,
                border_width: 0,
                depth: vi.depth,
                class: InputOutput,
                visual: vi.visual.raw(),
                attributes: glx_attributes(*cmap),
            },
            false,
            display@.handle,
            GC(display.screen_info(*screen).default_gc),
            0,
        ).listening(GLX_WINDOW_EVENTS),
        setup@.wf(),
        setup@.origin->Create_attributes.has(CWColormap),
        setup@.origin->Create_attributes.has(CWEventMask),
{
    assert(ExposureMask | KeyPressMask == GLX_WINDOW_EVENTS) by (bit_vector);
    assert(((0u64 | 0x2000) | 0x800) & (0x2000u64 | 0x800) == 0x2800) by (bit_vector);
    assert(0x2800u64 & 0x2000 == 0x2000 && 0x2800u64 & 0x800 == 0x800) by (bit_vector);
    let attributes = WindowAttributesBuilder::new().colormap(cmap).event_mask(
        ExposureMask | KeyPressMask,
    );
    Window::create_under(
        display,
        screen,
        None,
        display.screen(screen).root,
        x,
        y,
        width,
        height,
        0,
        vi.depth,
        InputOutput,
        &vi.visual,
        CWColormap | CWEventMask,
        attributes,
    ).listen(ExposureMask | KeyPressMask)
}

/// A visual that comes out of a negotiation is at least as deep as the
/// depth size that the list asked for, whatever else the list asks for and
/// whatever the server answered.
pub proof fn lemma_visual_meets_depth(
    attrs: Seq<GLXAttribute>,
    size: GLXAttribute,
    visual: VisualInfo,
)
    requires
        requests_flag(attrs, GLX_RGBA),
        requests(attrs, GLX_DEPTH_SIZE, size),
        deep_enough(attrs, visual.depth),
    ensures
        visual.depth >= size,
{
}

/// The list that goes to the server ends in 0, and a 0 stands nowhere else
/// in the place of an attribute: the server reads all of it and nothing
/// past it.
pub proof fn lemma_wire_ends_in_zero(attrs: Seq<GLXAttribute>)
    requires
        wire(attrs) is Some,
    ensures
        wire(attrs)->0.len() >= 1,
        wire(attrs)->0.last() == 0,
        wire(wire(attrs)->0) == wire(attrs),
    decreases attrs.len(),
{
    let list = wire(attrs)->0;
    if attrs.len() == 0 || is_end(attrs[0]) {
        assert(list =~= seq![0i32]);
        assert(wire(list) == Some(seq![0i32]));
    } else if is_flag(attrs[0]) {
        let rest = wire(attrs.skip(1))->0;
        lemma_wire_ends_in_zero(attrs.skip(1));
        assert(list =~= seq![attrs[0]] + rest);
        assert(list.skip(1) =~= rest);
        assert(list[0] == attrs[0]);
    } else {
        let rest = wire(attrs.skip(2))->0;
        lemma_wire_ends_in_zero(attrs.skip(2));
        assert(list =~= seq![attrs[0], attrs[1]] + rest);
        assert(list.skip(2) =~= rest);
        assert(list[0] == attrs[0]);
        assert(list[1] == attrs[1]);
    }
}

} // verus!
