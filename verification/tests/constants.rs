use safex::glx;
use safex::xlib;

#[test]
fn event_masks_are_those_of_the_client_library() {
    assert_eq!(xlib::NoEventMask, x11::xlib::NoEventMask as u64);
    assert_eq!(xlib::KeyPressMask, x11::xlib::KeyPressMask as u64);
    assert_eq!(xlib::KeyReleaseMask, x11::xlib::KeyReleaseMask as u64);
    assert_eq!(xlib::ButtonPressMask, x11::xlib::ButtonPressMask as u64);
    assert_eq!(xlib::ButtonReleaseMask, x11::xlib::ButtonReleaseMask as u64);
    assert_eq!(xlib::EnterWindowMask, x11::xlib::EnterWindowMask as u64);
    assert_eq!(xlib::LeaveWindowMask, x11::xlib::LeaveWindowMask as u64);
    assert_eq!(xlib::PointerMotionMask, x11::xlib::PointerMotionMask as u64);
    assert_eq!(xlib::PointerMotionHintMask, x11::xlib::PointerMotionHintMask as u64);
    assert_eq!(xlib::Button1MotionMask, x11::xlib::Button1MotionMask as u64);
    assert_eq!(xlib::Button2MotionMask, x11::xlib::Button2MotionMask as u64);
    assert_eq!(xlib::Button3MotionMask, x11::xlib::Button3MotionMask as u64);
    assert_eq!(xlib::Button4MotionMask, x11::xlib::Button4MotionMask as u64);
    assert_eq!(xlib::Button5MotionMask, x11::xlib::Button5MotionMask as u64);
    assert_eq!(xlib::KeymapStateMask, x11::xlib::KeymapStateMask as u64);
    assert_eq!(xlib::ExposureMask, x11::xlib::ExposureMask as u64);
    assert_eq!(xlib::VisibilityChangeMask, x11::xlib::VisibilityChangeMask as u64);
    assert_eq!(xlib::StructureNotifyMask, x11::xlib::StructureNotifyMask as u64);
    assert_eq!(xlib::ResizeRedirectMask, x11::xlib::ResizeRedirectMask as u64);
    assert_eq!(xlib::SubstructureNotifyMask, x11::xlib::SubstructureNotifyMask as u64);
    assert_eq!(xlib::SubstructureRedirectMask, x11::xlib::SubstructureRedirectMask as u64);
    assert_eq!(xlib::FocusChangeMask, x11::xlib::FocusChangeMask as u64);
    assert_eq!(xlib::PropertyChangeMask, x11::xlib::PropertyChangeMask as u64);
    assert_eq!(xlib::ColormapChangeMask, x11::xlib::ColormapChangeMask as u64);
    assert_eq!(xlib::OwnerGrabButtonMask, x11::xlib::OwnerGrabButtonMask as u64);
}

#[test]
fn window_classes_are_those_of_the_client_library() {
    assert_eq!(xlib::InputOutput, x11::xlib::InputOutput as u32);
    assert_eq!(xlib::InputOnly, x11::xlib::InputOnly as u32);
}

#[test]
fn window_attribute_bits_are_those_of_the_client_library() {
    assert_eq!(xlib::CWBackPixmap, x11::xlib::CWBackPixmap as u64);
    assert_eq!(xlib::CWBackPixel, x11::xlib::CWBackPixel as u64);
    assert_eq!(xlib::CWBorderPixmap, x11::xlib::CWBorderPixmap as u64);
    assert_eq!(xlib::CWBorderPixel, x11::xlib::CWBorderPixel as u64);
    assert_eq!(xlib::CWBitGravity, x11::xlib::CWBitGravity as u64);
    assert_eq!(xlib::CWWinGravity, x11::xlib::CWWinGravity as u64);
    assert_eq!(xlib::CWBackingStore, x11::xlib::CWBackingStore as u64);
    assert_eq!(xlib::CWBackingPlanes, x11::xlib::CWBackingPlanes as u64);
    assert_eq!(xlib::CWBackingPixel, x11::xlib::CWBackingPixel as u64);
    assert_eq!(xlib::CWOverrideRedirect, x11::xlib::CWOverrideRedirect as u64);
    assert_eq!(xlib::CWSaveUnder, x11::xlib::CWSaveUnder as u64);
    assert_eq!(xlib::CWEventMask, x11::xlib::CWEventMask as u64);
    assert_eq!(xlib::CWDontPropagate, x11::xlib::CWDontPropagate as u64);
    assert_eq!(xlib::CWColormap, x11::xlib::CWColormap as u64);
    assert_eq!(xlib::CWCursor, x11::xlib::CWCursor as u64);
}

#[test]
fn expose_tag_is_that_of_the_client_library() {
    assert_eq!(xlib::Expose, x11::xlib::Expose);
    assert_eq!(xlib::Expose, 12);
}

#[test]
fn glx_attributes_are_those_of_the_client_library() {
    assert_eq!(glx::GLX_SLOW_CONFIG, x11::glx::GLX_SLOW_CONFIG);
    assert_eq!(glx::GLX_NON_CONFORMANT_CONFIG, x11::glx::GLX_NON_CONFORMANT_CONFIG);
    assert_eq!(glx::GLX_WINDOW_BIT, x11::glx::GLX_WINDOW_BIT);
    assert_eq!(glx::GLX_PIXMAP_BIT, x11::glx::GLX_PIXMAP_BIT);
    assert_eq!(glx::GLX_PBUFFER_BIT, x11::glx::GLX_PBUFFER_BIT);
    assert_eq!(glx::GLX_USE_GL, x11::glx::GLX_USE_GL);
    assert_eq!(glx::GLX_BUFFER_SIZE, x11::glx::GLX_BUFFER_SIZE);
    assert_eq!(glx::GLX_LEVEL, x11::glx::GLX_LEVEL);
    assert_eq!(glx::GLX_RGBA, x11::glx::GLX_RGBA);
    assert_eq!(glx::GLX_DOUBLEBUFFER, x11::glx::GLX_DOUBLEBUFFER);
    assert_eq!(glx::GLX_STEREO, x11::glx::GLX_STEREO);
    assert_eq!(glx::GLX_AUX_BUFFERS, x11::glx::GLX_AUX_BUFFERS);
    assert_eq!(glx::GLX_RED_SIZE, x11::glx::GLX_RED_SIZE);
    assert_eq!(glx::GLX_GREEN_SIZE, x11::glx::GLX_GREEN_SIZE);
    assert_eq!(glx::GLX_BLUE_SIZE, x11::glx::GLX_BLUE_SIZE);
    assert_eq!(glx::GLX_ALPHA_SIZE, x11::glx::GLX_ALPHA_SIZE);
    assert_eq!(glx::GLX_DEPTH_SIZE, x11::glx::GLX_DEPTH_SIZE);
    assert_eq!(glx::GLX_STENCIL_SIZE, x11::glx::GLX_STENCIL_SIZE);
    assert_eq!(glx::GLX_ACCUM_RED_SIZE, x11::glx::GLX_ACCUM_RED_SIZE);
    assert_eq!(glx::GLX_ACCUM_GREEN_SIZE, x11::glx::GLX_ACCUM_GREEN_SIZE);
    assert_eq!(glx::GLX_ACCUM_BLUE_SIZE, x11::glx::GLX_ACCUM_BLUE_SIZE);
    assert_eq!(glx::GLX_ACCUM_ALPHA_SIZE, x11::glx::GLX_ACCUM_ALPHA_SIZE);
    assert_eq!(glx::GLX_CONFIG_CAVEAT, x11::glx::GLX_CONFIG_CAVEAT);
    assert_eq!(glx::GLX_X_VISUAL_TYPE, x11::glx::GLX_X_VISUAL_TYPE);
    assert_eq!(glx::GLX_TRANSPARENT_TYPE, x11::glx::GLX_TRANSPARENT_TYPE);
    assert_eq!(glx::GLX_TRANSPARENT_INDEX_VALUE, x11::glx::GLX_TRANSPARENT_INDEX_VALUE);
    assert_eq!(glx::GLX_TRANSPARENT_RED_VALUE, x11::glx::GLX_TRANSPARENT_RED_VALUE);
    assert_eq!(glx::GLX_TRANSPARENT_GREEN_VALUE, x11::glx::GLX_TRANSPARENT_GREEN_VALUE);
    assert_eq!(glx::GLX_TRANSPARENT_BLUE_VALUE, x11::glx::GLX_TRANSPARENT_BLUE_VALUE);
    assert_eq!(glx::GLX_TRANSPARENT_ALPHA_VALUE, x11::glx::GLX_TRANSPARENT_ALPHA_VALUE);
    assert_eq!(glx::GLX_VISUAL_ID, x11::glx::GLX_VISUAL_ID);
    assert_eq!(glx::GLX_SCREEN, x11::glx::GLX_SCREEN);
    assert_eq!(glx::GLX_DRAWABLE_TYPE, x11::glx::GLX_DRAWABLE_TYPE);
    assert_eq!(glx::GLX_RENDER_TYPE, x11::glx::GLX_RENDER_TYPE);
    assert_eq!(glx::GLX_X_RENDERABLE, x11::glx::GLX_X_RENDERABLE);
    assert_eq!(glx::GLX_FBCONFIG_ID, x11::glx::GLX_FBCONFIG_ID);
    assert_eq!(glx::GLX_MAX_PBUFFER_WIDTH, x11::glx::GLX_MAX_PBUFFER_WIDTH);
    assert_eq!(glx::GLX_MAX_PBUFFER_HEIGHT, x11::glx::GLX_MAX_PBUFFER_HEIGHT);
    assert_eq!(glx::GLX_MAX_PBUFFER_PIXELS, x11::glx::GLX_MAX_PBUFFER_PIXELS);
    assert_eq!(glx::GLX_SAMPLE_BUFFERS, x11::glx::GLX_SAMPLE_BUFFERS);
    assert_eq!(glx::GLX_SAMPLES, x11::glx::GLX_SAMPLES);
    assert_eq!(glx::GLX_CONTEXT_MAJOR_VERSION_ARB, x11::glx::arb::GLX_CONTEXT_MAJOR_VERSION_ARB);
    assert_eq!(glx::GLX_CONTEXT_MINOR_VERSION_ARB, x11::glx::arb::GLX_CONTEXT_MINOR_VERSION_ARB);
    assert_eq!(glx::GLX_DONT_CARE, x11::glx::GLX_DONT_CARE);
    assert_eq!(glx::GLX_NONE, x11::glx::GLX_NONE);
}

#[test]
fn glx_window_events_are_exposure_and_key_presses() {
    assert_eq!(glx::GLX_WINDOW_EVENTS, xlib::ExposureMask | xlib::KeyPressMask);
    assert_eq!(glx::GLX_WINDOW_EVENTS, (x11::xlib::ExposureMask | x11::xlib::KeyPressMask) as u64);
}

#[test]
fn attribute_bits_are_single_and_distinct() {
    let bits = [xlib::CWBackPixmap, xlib::CWBackPixel, xlib::CWBorderPixmap, xlib::CWBorderPixel, xlib::CWBitGravity, xlib::CWWinGravity, xlib::CWBackingStore, xlib::CWBackingPlanes, xlib::CWBackingPixel, xlib::CWOverrideRedirect, xlib::CWSaveUnder, xlib::CWEventMask, xlib::CWDontPropagate, xlib::CWColormap, xlib::CWCursor];
    for (i, a) in bits.iter().enumerate() {
        assert_eq!(a.count_ones(), 1);
        for b in bits.iter().skip(i + 1) {
            assert_eq!(a & b, 0);
        }
    }
}
