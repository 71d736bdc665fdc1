use thorium::wingdi::{BackgroundMode, RGB, OPAQUE, TRANSPARENT};
use thorium::errhandlingapi::ErrorCode;
use thorium::win_types::{HANDLE, ZWString};
use thorium::winuser::{
    IDCursor, WinMessage, WindowClass, WindowClassAtom, WindowClassStyle, WindowStyle, WindowStyleExtended, MSG, POINT,
};

#[test]
fn rgb_packs_red_green_blue() {
    assert_eq!(RGB(0x12, 0x34, 0x56), 0x0056_3412);
    assert_eq!(RGB(255, 255, 255), 0x00FF_FFFF);
    assert_eq!(RGB(0, 0, 0), 0);
}

#[test]
fn background_modes_map_native_values() {
    assert_eq!(BackgroundMode::Transparent.to_native(), TRANSPARENT);
    assert_eq!(BackgroundMode::Opaque.to_native(), 2);
    let last = ErrorCode(1);
    assert_eq!(BackgroundMode::from_native(OPAQUE, last), Ok(BackgroundMode::Opaque));
    assert_eq!(BackgroundMode::from_native(1, last), Ok(BackgroundMode::Transparent));
    assert_eq!(BackgroundMode::from_native(0, last), Err(last));
}

#[test]
fn window_class_defaults_fill_unset_fields() {
    let wc: WindowClass<u8> = WindowClass { class_name: Some(ZWString::from("WinClassName")), ..Default::default() };
    let s = wc.settings(9u8, HANDLE(0x400000), Some(HANDLE(0x10003)));
    assert_eq!(s.style, 0);
    assert_eq!(s.wnd_proc, 9);
    assert_eq!(s.cls_extra, 0);
    assert_eq!(s.wnd_extra, 0);
    assert_eq!(s.instance, HANDLE(0x400000));
    assert_eq!(s.icon, HANDLE::null());
    assert_eq!(s.cursor, HANDLE(0x10003));
    assert_eq!(s.background, HANDLE(6));
    assert_eq!(s.small_icon, HANDLE::null());
    let no_arrow = wc.settings(9u8, HANDLE(1), None);
    assert_eq!(no_arrow.cursor, HANDLE::null());
}

#[test]
fn window_class_settings_keep_given_fields() {
    let wc: WindowClass<u8> = WindowClass {
        style: Some(WindowClassStyle(WindowClassStyle::HREDRAW) | WindowClassStyle(WindowClassStyle::VREDRAW)),
        wnd_proc: Some(3),
        cls_extra: Some(16),
        wnd_extra: Some(8),
        icon: Some(HANDLE(21)),
        cursor: Some(HANDLE(22)),
        background: Some(HANDLE(23)),
        menu_name: None,
        class_name: None,
        small_icon: Some(HANDLE(24)),
    };
    let s = wc.settings(9u8, HANDLE(1), Some(HANDLE(99)));
    assert_eq!(s.style, 3);
    assert_eq!(s.wnd_proc, 3);
    assert_eq!(s.cls_extra, 16);
    assert_eq!(s.wnd_extra, 8);
    assert_eq!(s.icon, HANDLE(21));
    assert_eq!(s.cursor, HANDLE(22));
    assert_eq!(s.background, HANDLE(23));
    assert_eq!(s.small_icon, HANDLE(24));
}

#[test]
fn class_atoms_must_be_non_zero() {
    let last = ErrorCode(1410);
    assert_eq!(WindowClassAtom::from_native(0, last), Err(last));
    assert_eq!(WindowClassAtom::from_native(0xC123, last).map(|a| a.atom()), Ok(0xC123));
}

#[test]
fn cursor_resource_ids() {
    assert_eq!(IDCursor::Arrow.resource_id(), 32512);
    assert_eq!(IDCursor::Wait.resource_id(), 32514);
    assert_eq!(IDCursor::Help.resource_id(), 32651);
}

#[test]
fn quit_messages_are_recognised() {
    let pt = POINT { x: 0, y: 0 };
    assert!(MSG::from_parts(HANDLE::null(), WinMessage::QUIT, 0, 0, 0, pt, 0).is_quit_message());
    assert!(!MSG::from_parts(HANDLE(1), WinMessage::CLOSE, 0, 0, 0, pt, 0).is_quit_message());
    assert!(!MSG::blank().is_quit_message());
}

#[test]
fn style_flags_combine_bitwise() {
    let ov = WindowStyle(WindowStyle::OVERLAPPEDWINDOW);
    assert_eq!(ov.0, 0x00CF_0000);
    assert_eq!(WindowStyle::POPUPWINDOW, 0x8088_0000);
    assert_eq!((ov & WindowStyle(WindowStyle::CAPTION)).0, WindowStyle::CAPTION);
    assert_eq!((ov ^ ov).0, 0);
    assert_eq!((!WindowStyle(0)).0, u32::MAX);
    let mut ex = WindowStyleExtended(WindowStyleExtended::WINDOWEDGE);
    ex |= WindowStyleExtended(WindowStyleExtended::CLIENTEDGE);
    assert_eq!(ex.0, WindowStyleExtended::OVERLAPPEDWINDOW);
    ex &= WindowStyleExtended(WindowStyleExtended::CLIENTEDGE);
    assert_eq!(ex.0, 0x200);
    ex ^= WindowStyleExtended(0x200);
    assert_eq!(ex.0, 0);
}
