use safex::error::Error;
use safex::protocol::{ColorCell, Reply, Request, ServerInfo};
use safex::xlib::{AsRaw, Color, ColorMap, Display, Pixel, Screen, ScreenInfo};

fn display() -> Display {
    Display::from_raw(ServerInfo {
        handle: 0x5000,
        name: String::from(":0"),
        protocol_version: 11,
        protocol_revision: 0,
        vendor: String::new(),
        vendor_release: 0,
        default_screen: 0,
        screens: vec![ScreenInfo {
            root: 0x100,
            default_gc: 0x7000,
            default_visual: 0x8000,
            default_colormap: 0x20,
            black_pixel: 0,
            white_pixel: 0xffff,
        }],
    })
    .unwrap()
}

#[test]
fn from_rgb_asks_the_palette_for_the_colour() {
    let d = display();
    let cmap = ColorMap::default(&d, &Screen::default(&d));
    assert_eq!(
        Color::from_rgb(&d, &cmap, 65535, 0, 1),
        Request::AllocColor { colormap: 0x20, red: 65535, green: 0, blue: 1 }
    );
    assert_eq!(
        Pixel::from_rgb(&d, &cmap, 1, 2, 3),
        Request::AllocColor { colormap: 0x20, red: 1, green: 2, blue: 3 }
    );
}

#[test]
fn color_holds_what_the_server_allocated_not_what_was_asked() {
    let d = display();
    let cmap = ColorMap::default(&d, &Screen::default(&d));
    let _asked = Color::from_rgb(&d, &cmap, 65535, 32768, 1);
    let cell = ColorCell { pixel: 0xf81f, red: 63488, green: 32896, blue: 0, flags: 7, pad: 0 };
    let color = Color::from_reply(Reply::Color(Some(cell))).unwrap();
    assert_eq!(color.red(), 63488);
    assert_eq!(color.green(), 32896);
    assert_eq!(color.blue(), 0);
    assert_eq!(color.get_pixel().as_raw(), 0xf81f);
}

#[test]
fn pixel_from_reply_is_the_pixel_of_the_cell() {
    let cell = ColorCell { pixel: 0x1234, red: 1, green: 2, blue: 3, flags: 0, pad: 0 };
    assert_eq!(Pixel::from_reply(Reply::Color(Some(cell))).unwrap().as_raw(), 0x1234);
    assert_eq!(
        Pixel::from_reply(Reply::Color(Some(cell))).unwrap(),
        Color::from_reply(Reply::Color(Some(cell))).unwrap().get_pixel()
    );
}

#[test]
fn full_palette_is_a_creation_failure() {
    assert_eq!(Color::from_reply(Reply::Color(None)).err(), Some(Error::CreationFailure));
    assert_eq!(Pixel::from_reply(Reply::Color(None)).err(), Some(Error::CreationFailure));
}

#[test]
fn any_other_reply_is_no_colour() {
    assert_eq!(Color::from_reply(Reply::Done).err(), Some(Error::CreationFailure));
    assert_eq!(Color::from_reply(Reply::Id(3)).err(), Some(Error::CreationFailure));
    assert_eq!(Pixel::from_reply(Reply::Event(12)).err(), Some(Error::CreationFailure));
}
