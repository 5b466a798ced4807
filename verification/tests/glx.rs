use safex::error::Error;
use safex::glx::{
    glx_choose_visual, glx_create_window, glx_deep_enough, glx_make_current, glx_swap_buffers,
    glx_visual, GLXContext, GLX_DEPTH_SIZE, GLX_DOUBLEBUFFER, GLX_NONE, GLX_RED_SIZE, GLX_RGBA,
    GLX_STEREO, GLX_USE_GL,
};
use safex::protocol::{Reply, Request, ServerInfo};
use safex::xcb::{get_xcb_connection, set_event_queue_owner, EventQueueOwner, XCBConnection};
use safex::xlib::{
    AsRaw, CWColormap, CWEventMask, ColorMap, Display, InputOutput, Screen, ScreenInfo, Visual,
    VisualInfo, Window, WindowAttributes,
};

fn display() -> Display {
    Display::from_raw(ServerInfo {
        handle: 0x5000,
        name: String::from(":0"),
        protocol_version: 11,
        protocol_revision: 0,
        vendor: String::new(),
        vendor_release: 0,
        default_screen: 0,
        screens: vec![ScreenInfo {
            root: 0x100,
            default_gc: 0x7000,
            default_visual: 0x8000,
            default_colormap: 0x20,
            black_pixel: 0,
            white_pixel: 0xffff,
        }],
    })
    .unwrap()
}

fn visual(depth: i32) -> VisualInfo {
    VisualInfo {
        visual: Visual::from_raw(0x8100),
        visualid: 0x21,
        screen: Screen::from_raw(0),
        depth,
        class: 4,
        red_mask: 0xff0000,
        green_mask: 0xff00,
        blue_mask: 0xff,
        colormap_size: 256,
        bits_per_rgb: 8,
    }
}

fn window(d: &Display) -> Window {
    let mut setup = Window::root_window(d, &Screen::default(d));
    setup.reply(Reply::Done);
    setup.finish().unwrap()
}

#[test]
fn choose_visual_sends_the_list_with_a_zero_at_its_end() {
    let d = display();
    assert_eq!(
        glx_choose_visual(&d, &[GLX_RGBA, GLX_DEPTH_SIZE, 24, GLX_DOUBLEBUFFER, GLX_NONE]),
        Ok(Request::ChooseVisual { screen: 0, attributes: vec![4, 12, 24, 5, 0] })
    );
}

#[test]
fn choose_visual_stops_at_the_first_end_marker() {
    let d = display();
    assert_eq!(
        glx_choose_visual(&d, &[GLX_RGBA, 0, GLX_DEPTH_SIZE, 24]),
        Ok(Request::ChooseVisual { screen: 0, attributes: vec![4, 0] })
    );
    assert_eq!(
        glx_choose_visual(&d, &[GLX_NONE, GLX_RGBA]),
        Ok(Request::ChooseVisual { screen: 0, attributes: vec![0] })
    );
}

#[test]
fn choose_visual_ends_the_list_where_the_slice_ends() {
    let d = display();
    assert_eq!(
        glx_choose_visual(&d, &[GLX_USE_GL, GLX_STEREO, GLX_RED_SIZE, 8]),
        Ok(Request::ChooseVisual { screen: 0, attributes: vec![1, 6, 8, 8, 0] })
    );
    assert_eq!(glx_choose_visual(&d, &[]), Ok(Request::ChooseVisual { screen: 0, attributes: vec![0] }));
}

#[test]
fn choose_visual_takes_a_value_that_looks_like_an_end_marker() {
    let d = display();
    assert_eq!(
        glx_choose_visual(&d, &[GLX_DEPTH_SIZE, 0, GLX_RED_SIZE, GLX_NONE, GLX_NONE]),
        Ok(Request::ChooseVisual { screen: 0, attributes: vec![12, 0, 8, 0x8000, 0] })
    );
}

#[test]
fn choose_visual_refuses_an_attribute_without_its_value() {
    let d = display();
    assert_eq!(glx_choose_visual(&d, &[GLX_RGBA, GLX_DEPTH_SIZE]), Err(Error::VisualNegotiationFailure));
    assert_eq!(glx_choose_visual(&d, &[GLX_RED_SIZE]), Err(Error::VisualNegotiationFailure));
}

#[test]
fn visual_as_deep_as_asked_is_handed_on() {
    let attrs = [GLX_RGBA, GLX_DEPTH_SIZE, 24, GLX_DOUBLEBUFFER, GLX_NONE];
    assert_eq!(glx_visual(&attrs, Reply::Visual(Some(visual(24)))), Ok(visual(24)));
    assert_eq!(glx_visual(&attrs, Reply::Visual(Some(visual(32)))), Ok(visual(32)));
}

#[test]
fn visual_less_deep_than_asked_is_a_negotiation_failure() {
    let attrs = [GLX_RGBA, GLX_DEPTH_SIZE, 24, GLX_DOUBLEBUFFER, GLX_NONE];
    assert_eq!(glx_visual(&attrs, Reply::Visual(Some(visual(16)))), Err(Error::VisualNegotiationFailure));
    assert_eq!(glx_visual(&attrs, Reply::Visual(Some(visual(23)))), Err(Error::VisualNegotiationFailure));
}

#[test]
fn no_visual_is_a_negotiation_failure() {
    let attrs = [GLX_RGBA, GLX_DEPTH_SIZE, 64, GLX_NONE];
    assert_eq!(glx_visual(&attrs, Reply::Visual(None)), Err(Error::VisualNegotiationFailure));
    assert_eq!(glx_visual(&attrs, Reply::Done), Err(Error::VisualNegotiationFailure));
}

#[test]
fn visual_of_any_depth_meets_a_list_that_asks_for_none() {
    assert_eq!(glx_visual(&[GLX_RGBA, GLX_NONE], Reply::Visual(Some(visual(1)))), Ok(visual(1)));
    assert_eq!(glx_visual(&[], Reply::Visual(Some(visual(0)))), Ok(visual(0)));
}

#[test]
fn every_depth_size_in_the_list_counts() {
    let attrs = [GLX_DEPTH_SIZE, 16, GLX_RGBA, GLX_DEPTH_SIZE, 24];
    assert!(glx_deep_enough(&attrs, 24));
    assert!(!glx_deep_enough(&attrs, 23));
    assert!(!glx_deep_enough(&attrs, 16));
}

#[test]
fn depth_size_past_the_end_marker_does_not_count() {
    assert!(glx_deep_enough(&[GLX_RGBA, GLX_NONE, GLX_DEPTH_SIZE, 24], 8));
    assert!(glx_deep_enough(&[GLX_RED_SIZE, GLX_DEPTH_SIZE, 24, 1], 8));
    assert!(glx_deep_enough(&[GLX_DEPTH_SIZE], 0));
}

#[test]
fn context_request_carries_visual_share_and_flag() {
    let d = display();
    let vi = visual(24);
    assert_eq!(
        GLXContext::create(&d, &vi, None, 1),
        Request::CreateContext { visual: vi, share: 0, direct: 1 }
    );
    let first = GLXContext::from_reply(Reply::Handle(0x9000)).unwrap();
    assert_eq!(
        GLXContext::create(&d, &vi, Some(&first), 0),
        Request::CreateContext { visual: vi, share: 0x9000, direct: 0 }
    );
}

#[test]
fn null_context_is_a_creation_failure() {
    assert_eq!(GLXContext::from_reply(Reply::Handle(0)).err(), Some(Error::CreationFailure));
    assert_eq!(GLXContext::from_reply(Reply::Id(5)).err(), Some(Error::CreationFailure));
}

#[test]
fn context_is_released_by_its_address() {
    let context = GLXContext::from_reply(Reply::Handle(0x9000)).unwrap();
    assert_eq!(context.as_raw(), 0x9000);
    assert_eq!(context.release(), Request::DestroyContext { context: 0x9000 });
}

#[test]
fn proc_address_is_none_where_unresolved() {
    let context = GLXContext::from_reply(Reply::Handle(0x9000)).unwrap();
    assert_eq!(
        context.get_proc_address("glClear"),
        Some(Request::GetProcAddress { name: b"glClear".to_vec() })
    );
    assert_eq!(context.get_proc_address("gl\0Clear"), None);
    assert_eq!(GLXContext::proc_address(Reply::Handle(0xabc0)), Some(0xabc0));
    assert_eq!(GLXContext::proc_address(Reply::Handle(0)), None);
    assert_eq!(GLXContext::proc_address(Reply::Done), None);
}

#[test]
fn make_current_binds_window_and_context() {
    let d = display();
    let w = window(&d);
    let context = GLXContext::from_reply(Reply::Handle(0x9000)).unwrap();
    assert_eq!(
        glx_make_current(&d, &w, &context),
        Request::MakeCurrent { drawable: 0x100, context: 0x9000 }
    );
    assert_eq!(glx_swap_buffers(&d, &w), Request::SwapBuffers { drawable: 0x100 });
}

#[test]
fn glx_window_has_the_palette_of_its_visual_and_reports_keys_too() {
    let d = display();
    let s = Screen::default(&d);
    let vi = visual(24);
    assert_eq!(
        ColorMap::create(&d, d.screen(&s).root, &vi.visual),
        Request::CreateColormap { window: 0x100, visual: 0x8100 }
    );
    let cmap = ColorMap::from_reply(Reply::Id(0x55)).unwrap();
    let mut setup = glx_create_window(&d, &s, &vi, &cmap, 0, 0, 600, 600);
    assert_eq!(
        setup.request(),
        Some(Request::CreateWindow {
            parent: 0x100,
            x: 0,
            y: 0,
            width: 600,
            height: 600,
            border_width: 0,
            depth: 24,
            class: InputOutput,
            visual: 0x8100,
            attributes: WindowAttributes {
                value_mask: CWColormap | CWEventMask,
                background_pixel: 0,
                backing_pixel: 0,
                override_redirect: false,
                colormap: 0x55,
                event_mask: 0x8001,
            },
        })
    );
    setup.reply(Reply::Id(0x400));
    assert_eq!(setup.request(), Some(Request::SelectInput { window: 0x400, event_mask: 0x8001 }));
    setup.reply(Reply::Done);
    let w = setup.finish().unwrap();
    assert_eq!(w.teardown(), vec![Request::DestroyWindow { window: 0x400 }]);
    assert_eq!(cmap.free(), Some(Request::FreeColormap { colormap: 0x55 }));
}

#[test]
fn xcb_requests_and_replies() {
    let d = display();
    assert_eq!(get_xcb_connection(&d), Request::GetXcbConnection);
    assert_eq!(XCBConnection::from_reply(Reply::Handle(0x77)), Some(XCBConnection(0x77)));
    assert_eq!(XCBConnection::from_reply(Reply::Handle(0)), None);
    assert_eq!(
        set_event_queue_owner(&d, EventQueueOwner::XCBOwnsEventQueue),
        Request::SetEventQueueOwner { owner: EventQueueOwner::XCBOwnsEventQueue }
    );
}
