//! Window classes, windows, messages and raw input.

use vstd::prelude::*;
use vstd::bytes::{spec_u32_from_le_bytes, spec_u64_from_le_bytes, u32_from_le_bytes, u64_from_le_bytes};

use crate::buffer::{required_capacity, trim_filled, TwoCallError};
use crate::errhandlingapi::ErrorCode;
use crate::text::utf16_decode_lossy;
use crate::win_types::{
    ATOM, DWORD, GlobalBuffer, HANDLE, word_count, HBRUSH, HCURSOR, HICON, HINSTANCE, HWND, LONG, LPARAM,
    UINT, USHORT, WORD, WPARAM, ZWString,
};

verus! {

/// Class styles of a window class.
#[derive(Clone, Copy, Default, PartialEq, Eq, Structural, Debug)]
pub struct WindowClassStyle(pub UINT);

impl WindowClassStyle {
    pub const BYTEALIGNCLIENT: UINT = 0x1000;

    pub const BYTEALIGNWINDOW: UINT = 0x2000;

    pub const CLASSDC: UINT = 0x0040;

    pub const DBLCLKS: UINT = 0x0008;

    pub const DROPSHADOW: UINT = 0x0002_0000;

    pub const GLOBALCLASS: UINT = 0x4000;

    pub const HREDRAW: UINT = 0x0002;

    pub const NOCLOSE: UINT = 0x0200;

    pub const OWNDC: UINT = 0x0020;

    pub const PARENTDC: UINT = 0x0080;

    pub const SAVEBITS: UINT = 0x0800;

    pub const VREDRAW: UINT = 0x0001;
}

impl core::ops::BitAnd for WindowClassStyle {
    type Output = Self;

    fn bitand(self, rhs: Self) -> (r: Self) {
        WindowClassStyle(self.0 & rhs.0)
    }
}

impl vstd::std_specs::ops::BitAndSpecImpl for WindowClassStyle {
    open spec fn obeys_bitand_spec() -> bool {
        true
    }

    open spec fn bitand_req(self, rhs: Self) -> bool {
        true
    }

    open spec fn bitand_spec(self, rhs: Self) -> Self {
        WindowClassStyle(self.0 & rhs.0)
    }
}

impl core::ops::BitAndAssign for WindowClassStyle {
    fn bitand_assign(&mut self, rhs: Self) {
        self.0 = self.0 & rhs.0;
    }
}

impl core::ops::BitOr for WindowClassStyle {
    type Output = Self;

    fn bitor(self, rhs: Self) -> (r: Self) {
        WindowClassStyle(self.0 | rhs.0)
    }
}

impl vstd::std_specs::ops::BitOrSpecImpl for WindowClassStyle {
    open spec fn obeys_bitor_spec() -> bool {
        true
    }

    open spec fn bitor_req(self, rhs: Self) -> bool {
        true
    }

    open spec fn bitor_spec(self, rhs: Self) -> Self {
        WindowClassStyle(self.0 | rhs.0)
    }
}

impl core::ops::BitOrAssign for WindowClassStyle {
    fn bitor_assign(&mut self, rhs: Self) {
        self.0 = self.0 | rhs.0;
    }
}

impl core::ops::BitXor for WindowClassStyle {
    type Output = Self;

    fn bitxor(self, rhs: Self) -> (r: Self) {
        WindowClassStyle(self.0 ^ rhs.0)
    }
}

impl vstd::std_specs::ops::BitXorSpecImpl for WindowClassStyle {
    open spec fn obeys_bitxor_spec() -> bool {
        true
    }

    open spec fn bitxor_req(self, rhs: Self) -> bool {
        true
    }

    open spec fn bitxor_spec(self, rhs: Self) -> Self {
        WindowClassStyle(self.0 ^ rhs.0)
    }
}

impl core::ops::BitXorAssign for WindowClassStyle {
    fn bitxor_assign(&mut self, rhs: Self) {
        self.0 = self.0 ^ rhs.0;
    }
}

impl core::ops::Not for WindowClassStyle {
    type Output = Self;

    fn not(self) -> (r: Self) {
        WindowClassStyle(!self.0)
    }
}

impl vstd::std_specs::ops::NotSpecImpl for WindowClassStyle {
    open spec fn obeys_not_spec() -> bool {
        true
    }

    open spec fn not_req(self) -> bool {
        true
    }

    open spec fn not_spec(self) -> Self {
        WindowClassStyle(!self.0)
    }
}

/// Styles of a window.
#[derive(Clone, Copy, Default, PartialEq, Eq, Structural, Debug)]
pub struct WindowStyle(pub UINT);

impl WindowStyle {
    pub const BORDER: UINT = 0x0080_0000;

    pub const CAPTION: UINT = 0x00C0_0000;

    pub const CHILD: UINT = 0x4000_0000;

    pub const CHILDWINDOW: UINT = 0x4000_0000;

    pub const CLIPCHILDREN: UINT = 0x0200_0000;

    pub const CLIPSIBLINGS: UINT = 0x0400_0000;

    pub const DISABLED: UINT = 0x0800_0000;

    pub const DLGFRAME: UINT = 0x0040_0000;

    pub const GROUP: UINT = 0x0002_0000;

    pub const HSCROLL: UINT = 0x0010_0000;

    pub const ICONIC: UINT = 0x2000_0000;

    pub const MAXIMIZE: UINT = 0x0100_0000;

    pub const MAXIMIZEBOX: UINT = 0x0001_0000;

    pub const MINIMIZE: UINT = 0x2000_0000;

    pub const MINIMIZEBOX: UINT = 0x0002_0000;

    pub const OVERLAPPED: UINT = 0x0000_0000;

    pub const OVERLAPPEDWINDOW: UINT = Self::OVERLAPPED | Self::CAPTION | Self::SYSMENU | Self::THICKFRAME | Self::MINIMIZEBOX
        | Self::MAXIMIZEBOX;

    pub const POPUP: UINT = 0x8000_0000;

    pub const POPUPWINDOW: UINT = Self::POPUP | Self::BORDER | Self::SYSMENU;

    pub const SIZEBOX: UINT = 0x0004_0000;

    pub const SYSMENU: UINT = 0x0008_0000;

    pub const TABSTOP: UINT = 0x0001_0000;

    pub const THICKFRAME: UINT = 0x0004_0000;

    pub const TILED: UINT = 0x0000_0000;

    pub const TILEDWINDOW: UINT = Self::OVERLAPPEDWINDOW;

    pub const VISIBLE: UINT = 0x1000_0000;

    pub const VSCROLL: UINT = 0x0020_0000;
}

impl core::ops::BitAnd for WindowStyle {
    type Output = Self;

    fn bitand(self, rhs: Self) -> (r: Self) {
        WindowStyle(self.0 & rhs.0)
    }
}

impl vstd::std_specs::ops::BitAndSpecImpl for WindowStyle {
    open spec fn obeys_bitand_spec() -> bool {
        true
    }

    open spec fn bitand_req(self, rhs: Self) -> bool {
        true
    }

    open spec fn bitand_spec(self, rhs: Self) -> Self {
        WindowStyle(self.0 & rhs.0)
    }
}

impl core::ops::BitAndAssign for WindowStyle {
    fn bitand_assign(&mut self, rhs: Self) {
        self.0 = self.0 & rhs.0;
    }
}

impl core::ops::BitOr for WindowStyle {
    type Output = Self;

    fn bitor(self, rhs: Self) -> (r: Self) {
        WindowStyle(self.0 | rhs.0)
    }
}

impl vstd::std_specs::ops::BitOrSpecImpl for WindowStyle {
    open spec fn obeys_bitor_spec() -> bool {
        true
    }

    open spec fn bitor_req(self, rhs: Self) -> bool {
        true
    }

    open spec fn bitor_spec(self, rhs: Self) -> Self {
        WindowStyle(self.0 | rhs.0)
    }
}

impl core::ops::BitOrAssign for WindowStyle {
    fn bitor_assign(&mut self, rhs: Self) {
        self.0 = self.0 | rhs.0;
    }
}

impl core::ops::BitXor for WindowStyle {
    type Output = Self;

    fn bitxor(self, rhs: Self) -> (r: Self) {
        WindowStyle(self.0 ^ rhs.0)
    }
}

impl vstd::std_specs::ops::BitXorSpecImpl for WindowStyle {
    open spec fn obeys_bitxor_spec() -> bool {
        true
    }

    open spec fn bitxor_req(self, rhs: Self) -> bool {
        true
    }

    open spec fn bitxor_spec(self, rhs: Self) -> Self {
        WindowStyle(self.0 ^ rhs.0)
    }
}

impl core::ops::BitXorAssign for WindowStyle {
    fn bitxor_assign(&mut self, rhs: Self) {
        self.0 = self.0 ^ rhs.0;
    }
}

impl core::ops::Not for WindowStyle {
    type Output = Self;

    fn not(self) -> (r: Self) {
        WindowStyle(!self.0)
    }
}

impl vstd::std_specs::ops::NotSpecImpl for WindowStyle {
    open spec fn obeys_not_spec() -> bool {
        true
    }

    open spec fn not_req(self) -> bool {
        true
    }

    open spec fn not_spec(self) -> Self {
        WindowStyle(!self.0)
    }
}

/// Extended styles of a window.
#[derive(Clone, Copy, Default, PartialEq, Eq, Structural, Debug)]
pub struct WindowStyleExtended(pub UINT);

impl WindowStyleExtended {
    pub const ACCEPTFILES: UINT = 0x0000_0010;

    pub const APPWINDOW: UINT = 0x0004_0000;

    pub const CLIENTEDGE: UINT = 0x0000_0200;

    pub const COMPOSITED: UINT = 0x0200_0000;

    pub const CONTEXTHELP: UINT = 0x0000_0400;

    pub const CONTROLPARENT: UINT = 0x0001_0000;

    pub const DLGMODALFRAME: UINT = 0x0000_0001;

    pub const LAYERED: UINT = 0x0008_0000;

    pub const LAYOUTRTL: UINT = 0x0040_0000;

    pub const LEFT: UINT = 0x0000_0000;

    pub const LEFTSCROLLBAR: UINT = 0x0000_4000;

    pub const LTRREADING: UINT = 0x0000_0000;

    pub const MDICHILD: UINT = 0x0000_0040;

    pub const NOACTIVATE: UINT = 0x0800_0000;

    pub const NOINHERITLAYOUT: UINT = 0x0010_0000;

    pub const NOPARENTNOTIFY: UINT = 0x0000_0004;

    pub const NOREDIRECTIONBITMAP: UINT = 0x0020_0000;

    pub const OVERLAPPEDWINDOW: UINT = Self::WINDOWEDGE | Self::CLIENTEDGE;

    pub const PALETTEWINDOW: UINT = Self::WINDOWEDGE | Self::TOOLWINDOW | Self::TOPMOST;

    pub const WS_EX_RIGHT: UINT = 0x0000_1000;

    pub const RIGHTSCROLLBAR: UINT = 0x0000_0000;

    pub const RTLREADING: UINT = 0x0000_2000;

    pub const STATICEDGE: UINT = 0x0002_0000;

    pub const TOOLWINDOW: UINT = 0x0000_0080;

    pub const TOPMOST: UINT = 0x0000_0008;

    pub const TRANSPARENT: UINT = 0x0000_0020;

    pub const WINDOWEDGE: UINT = 0x0000_0100;
}

impl core::ops::BitAnd for WindowStyleExtended {
    type Output = Self;

    fn bitand(self, rhs: Self) -> (r: Self) {
        WindowStyleExtended(self.0 & rhs.0)
    }
}

impl vstd::std_specs::ops::BitAndSpecImpl for WindowStyleExtended {
    open spec fn obeys_bitand_spec() -> bool {
        true
    }

    open spec fn bitand_req(self, rhs: Self) -> bool {
        true
    }

    open spec fn bitand_spec(self, rhs: Self) -> Self {
        WindowStyleExtended(self.0 & rhs.0)
    }
}

impl core::ops::BitAndAssign for WindowStyleExtended {
    fn bitand_assign(&mut self, rhs: Self) {
        self.0 = self.0 & rhs.0;
    }
}

impl core::ops::BitOr for WindowStyleExtended {
    type Output = Self;

    fn bitor(self, rhs: Self) -> (r: Self) {
        WindowStyleExtended(self.0 | rhs.0)
    }
}

impl vstd::std_specs::ops::BitOrSpecImpl for WindowStyleExtended {
    open spec fn obeys_bitor_spec() -> bool {
        true
    }

    open spec fn bitor_req(self, rhs: Self) -> bool {
        true
    }

    open spec fn bitor_spec(self, rhs: Self) -> Self {
        WindowStyleExtended(self.0 | rhs.0)
    }
}

impl core::ops::BitOrAssign for WindowStyleExtended {
    fn bitor_assign(&mut self, rhs: Self) {
        self.0 = self.0 | rhs.0;
    }
}

impl core::ops::BitXor for WindowStyleExtended {
    type Output = Self;

    fn bitxor(self, rhs: Self) -> (r: Self) {
        WindowStyleExtended(self.0 ^ rhs.0)
    }
}

impl vstd::std_specs::ops::BitXorSpecImpl for WindowStyleExtended {
    open spec fn obeys_bitxor_spec() -> bool {
        true
    }

    open spec fn bitxor_req(self, rhs: Self) -> bool {
        true
    }

    open spec fn bitxor_spec(self, rhs: Self) -> Self {
        WindowStyleExtended(self.0 ^ rhs.0)
    }
}

impl core::ops::BitXorAssign for WindowStyleExtended {
    fn bitxor_assign(&mut self, rhs: Self) {
        self.0 = self.0 ^ rhs.0;
    }
}

impl core::ops::Not for WindowStyleExtended {
    type Output = Self;

    fn not(self) -> (r: Self) {
        WindowStyleExtended(!self.0)
    }
}

impl vstd::std_specs::ops::NotSpecImpl for WindowStyleExtended {
    open spec fn obeys_not_spec() -> bool {
        true
    }

    open spec fn not_req(self) -> bool {
        true
    }

    open spec fn not_spec(self) -> Self {
        WindowStyleExtended(!self.0)
    }
}

/// The `COLOR_WINDOW` system colour index.
pub const COLOR_WINDOW: isize = 5;

/// What a window class is registered with. `P` is the window procedure
/// type; the class falls back to the system's default procedure when none
/// is given.
pub struct WindowClass<P> {
    pub style: Option<WindowClassStyle>,
    pub wnd_proc: Option<P>,
    pub cls_extra: Option<i32>,
    pub wnd_extra: Option<i32>,
    pub icon: Option<HICON>,
    pub cursor: Option<HCURSOR>,
    pub background: Option<HBRUSH>,
    pub menu_name: Option<ZWString>,
    pub class_name: Option<ZWString>,
    pub small_icon: Option<HICON>,
}

impl<P> Default for WindowClass<P> {
    fn default() -> (r: Self)
        ensures
            r.style.is_none(),
            r.wnd_proc.is_none(),
            r.cls_extra.is_none(),
            r.wnd_extra.is_none(),
            r.icon.is_none(),
            r.cursor.is_none(),
            r.background.is_none(),
            r.menu_name.is_none(),
            r.class_name.is_none(),
            r.small_icon.is_none(),
    {
        WindowClass {
            style: None,
            wnd_proc: None,
            cls_extra: None,
            wnd_extra: None,
            icon: None,
            cursor: None,
            background: None,
            menu_name: None,
            class_name: None,
            small_icon: None,
        }
    }
}

/// The numeric fields a window class is registered with, every default
/// filled in. The names stay with the `WindowClass`.
#[derive(Clone, Copy, Debug)]
pub struct WindowClassSettings<P> {
    pub style: UINT,
    pub wnd_proc: P,
    pub cls_extra: i32,
    pub wnd_extra: i32,
    pub instance: HINSTANCE,
    pub icon: HICON,
    pub cursor: HCURSOR,
    pub background: HBRUSH,
    pub small_icon: HICON,
}

pub open spec fn or_default<T>(o: Option<T>, d: T) -> T {
    match o {
        Some(v) => v,
        None => d,
    }
}

impl<P: Copy> WindowClass<P> {
    /// The settings to register: each unset field takes its default, the
    /// procedure `default_proc`, the cursor `arrow_cursor` (null when it
    /// could not be loaded) and the background the window colour brush.
    pub fn settings(&self, default_proc: P, instance: HINSTANCE, arrow_cursor: Option<HCURSOR>) -> (r:
        WindowClassSettings<P>)
        ensures
            r.style == or_default(self.style, WindowClassStyle(0)).0,
            r.wnd_proc == or_default(self.wnd_proc, default_proc),
            r.cls_extra == or_default(self.cls_extra, 0),
            r.wnd_extra == or_default(self.wnd_extra, 0),
            r.instance == instance,
            r.icon == or_default(self.icon, HANDLE(0)),
            r.cursor == or_default(self.cursor, or_default(arrow_cursor, HANDLE(0))),
            r.background == or_default(self.background, HANDLE((1 + COLOR_WINDOW) as isize)),
            r.small_icon == or_default(self.small_icon, HANDLE(0)),
    {
        WindowClassSettings {
            style: match self.style {
                Some(s) => s.0,
                None => 0,
            },
            wnd_proc: match self.wnd_proc {
                Some(p) => p,
                None => default_proc,
            },
            cls_extra: match self.cls_extra {
                Some(v) => v,
                None => 0,
            },
            wnd_extra: match self.wnd_extra {
                Some(v) => v,
                None => 0,
            },
            instance,
            icon: match self.icon {
                Some(h) => h,
                None => HANDLE::null(),
            },
            cursor: match self.cursor {
                Some(h) => h,
                None => match arrow_cursor {
                    Some(h) => h,
                    None => HANDLE::null(),
                },
            },
            background: match self.background {
                Some(h) => h,
                None => HANDLE(1 + COLOR_WINDOW),
            },
            small_icon: match self.small_icon {
                Some(h) => h,
                None => HANDLE::null(),
            },
        }
    }
}

/// The atom that identifies a registered window class.
#[derive(Clone, Copy, PartialEq, Eq, Structural, Debug)]
pub struct WindowClassAtom(ATOM);

impl WindowClassAtom {
    pub closed spec fn spec_atom(self) -> ATOM {
        self.0
    }

    /// The registration result: zero means it failed, for the reason in
    /// the thread's last error.
    pub fn from_native(atom: ATOM, last_error: ErrorCode) -> (r: Result<Self, ErrorCode>)
        ensures
            atom == 0 ==> r == Err::<Self, ErrorCode>(last_error),
            atom != 0 ==> (r matches Ok(a) && a.spec_atom() == atom),
    {
        if atom != 0 {
            Ok(WindowClassAtom(atom))
        } else {
            Err(last_error)
        }
    }

    pub fn atom(self) -> (r: ATOM)
        ensures
            r == self.spec_atom(),
            r != 0,
    {
        proof {
            use_type_invariant(self);
        }
        self.0
    }

    #[verifier::type_invariant]
    spec fn never_zero(self) -> bool {
        self.0 != 0
    }
}

/// The predefined cursor shapes.
#[derive(Clone, Copy, PartialEq, Eq, Structural, Debug)]
pub enum IDCursor {
    /// Standard arrow and small hourglass
    AppStarting,
    /// Standard arrow
    Arrow,
    /// Crosshair
    Cross,
    /// Hand
    Hand,
    /// Arrow and question mark
    Help,
    /// I-beam
    IBeam,
    /// Slashed circle
    No,
    /// Four-pointed arrow pointing north, south, east, and west
    SizeAll,
    /// Double-pointed arrow pointing northeast and southwest
    SizeNeSw,
    /// Double-pointed arrow pointing north and south
    SizeNS,
    /// Double-pointed arrow pointing northwest and southeast
    SizeNwSe,
    /// Double-pointed arrow pointing west and east
    SizeWE,
    /// Vertical arrow
    UpArrow,
    /// Hourglass
    Wait,
}

pub open spec fn cursor_resource_id(c: IDCursor) -> WORD {
    match c {
        IDCursor::AppStarting => 32650,
        IDCursor::Arrow => 32512,
        IDCursor::Cross => 32515,
        IDCursor::Hand => 32649,
        IDCursor::Help => 32651,
        IDCursor::IBeam => 32513,
        IDCursor::No => 32648,
        IDCursor::SizeAll => 32646,
        IDCursor::SizeNeSw => 32643,
        IDCursor::SizeNS => 32645,
        IDCursor::SizeNwSe => 32642,
        IDCursor::SizeWE => 32644,
        IDCursor::UpArrow => 32516,
        IDCursor::Wait => 32514,
    }
}

impl IDCursor {
    /// The integer resource identifier the system knows the cursor by.
    pub fn resource_id(self) -> (r: WORD)
        ensures
            r == cursor_resource_id(self),
    {
        match self {
            IDCursor::AppStarting => 32650,
            IDCursor::Arrow => 32512,
            IDCursor::Cross => 32515,
            IDCursor::Hand => 32649,
            IDCursor::Help => 32651,
            IDCursor::IBeam => 32513,
            IDCursor::No => 32648,
            IDCursor::SizeAll => 32646,
            IDCursor::SizeNeSw => 32643,
            IDCursor::SizeNS => 32645,
            IDCursor::SizeNwSe => 32642,
            IDCursor::SizeWE => 32644,
            IDCursor::UpArrow => 32516,
            IDCursor::Wait => 32514,
        }
    }
}

/// A window message identifier.
#[derive(Clone, Copy, Default, PartialEq, Eq, Structural, Debug)]
pub struct WinMessage(pub UINT);

impl WinMessage {
    pub const CREATE: UINT = 0x0001;

    pub const CLOSE: UINT = 0x0010;

    pub const QUIT: UINT = 0x0012;

    pub const INPUT_DEVICE_CHANGE: UINT = 0x00FE;

    pub const INPUT: UINT = 0x00FF;
}

/// A request to receive raw input from a class of devices.
#[derive(Clone, Copy, PartialEq, Eq, Structural, Debug)]
pub struct RAWINPUTDEVICE {
    pub usage_page: USHORT,
    pub usage: USHORT,
    pub flags: DWORD,
    pub target: HWND,
}

#[derive(Debug, Clone, Copy, PartialEq, Eq, Structural)]
pub struct POINT {
    pub x: LONG,
    pub y: LONG,
}

/// A message taken from the thread's message queue.
#[derive(Debug, Clone, Copy, PartialEq, Eq, Structural)]
pub struct MSG {
    hwnd: HWND,
    message: UINT,
    w_param: WPARAM,
    l_param: LPARAM,
    time: DWORD,
    pt: POINT,
    private: DWORD,
}

impl MSG {
    pub closed spec fn spec_message(self) -> UINT {
        self.message
    }

    /// The message exactly as the queue handed it out.
    pub fn from_parts(
        hwnd: HWND,
        message: UINT,
        w_param: WPARAM,
        l_param: LPARAM,
        time: DWORD,
        pt: POINT,
        private: DWORD,
    ) -> (r: Self)
        ensures
            r.spec_message() == message,
    {
        MSG { hwnd, message, w_param, l_param, time, pt, private }
    }

    /// An all-zero message, for a native call to fill.
    pub fn blank() -> (r: Self)
        ensures
            r.spec_message() == 0,
    {
        MSG {
            hwnd: HANDLE(0),
            message: 0,
            w_param: 0,
            l_param: 0,
            time: 0,
            pt: POINT { x: 0, y: 0 },
            private: 0,
        }
    }

    pub fn is_quit_message(&self) -> (r: bool)
        ensures
            r == (self.spec_message() == WinMessage::QUIT),
    {
        self.message == WinMessage::QUIT
    }
}

/// The kind of device a raw input event comes from.
#[derive(Clone, Copy, Default, PartialEq, Eq, Structural, Debug)]
pub struct RawInputType(DWORD);

impl RawInputType {
    pub const MOUSE: DWORD = 0;

    pub const KEYBOARD: DWORD = 1;

    pub const HID: DWORD = 2;

    pub closed spec fn spec_code(self) -> DWORD {
        self.0
    }

    pub fn from_code(code: DWORD) -> (r: Self)
        ensures
            r.spec_code() == code,
    {
        RawInputType(code)
    }

    pub fn code(self) -> (r: DWORD)
        ensures
            r == self.spec_code(),
    {
        self.0
    }
}

/// The size of a pointer on the target, in bytes.
pub open spec fn pointer_bytes() -> int {
    if usize::BITS == 64 {
        8
    } else {
        4
    }
}

/// The size of the raw input header: type, size, device handle and
/// `wParam`.
pub open spec fn raw_input_header_len() -> int {
    8 + 2 * pointer_bytes()
}

/// The input type the header records, `u32::MAX` when there is no whole
/// header.
pub open spec fn raw_input_type(b: Seq<u8>) -> DWORD {
    if b.len() < raw_input_header_len() {
        u32::MAX
    } else {
        spec_u32_from_le_bytes(b.subrange(0, 4))
    }
}

/// The device handle the header records, null when there is no whole
/// header.
pub open spec fn raw_input_device(b: Seq<u8>) -> isize {
    if b.len() < raw_input_header_len() {
        0
    } else if pointer_bytes() == 8 {
        spec_u64_from_le_bytes(b.subrange(8, 16)) as isize
    } else {
        spec_u32_from_le_bytes(b.subrange(8, 12)) as isize
    }
}

/// The bytes after the header of a HID event, nothing for any other event.
pub open spec fn hid_payload(b: Seq<u8>) -> Option<Seq<u8>> {
    if raw_input_type(b) == RawInputType::HID {
        Some(b.subrange(raw_input_header_len(), b.len() as int))
    } else {
        None
    }
}

/// The little-endian `u32` at `offset` of a HID payload, when it is there.
pub open spec fn hid_field(b: Seq<u8>, offset: int) -> Option<DWORD> {
    match hid_payload(b) {
        Some(p) => if p.len() >= offset + 4 {
            Some(spec_u32_from_le_bytes(p.subrange(offset, offset + 4)))
        } else {
            None
        },
        None => None,
    }
}

/// The report bytes of a HID event: everything after its size and count.
pub open spec fn hid_reports(b: Seq<u8>) -> Option<Seq<u8>> {
    match hid_payload(b) {
        Some(p) => if p.len() >= 8 {
            Some(p.subrange(8, p.len() as int))
        } else {
            None
        },
        None => None,
    }
}

/// The payload of one raw input event, exactly as many bytes as the system
/// wrote.
pub struct RawInputData {
    bytes: Vec<u8>,
}

impl View for RawInputData {
    type V = Seq<u8>;

    closed spec fn view(&self) -> Seq<u8> {
        self.bytes@
    }
}

fn header_len() -> (r: usize)
    ensures
        r == raw_input_header_len(),
{
    if usize::BITS == 64 {
        24
    } else {
        16
    }
}

impl RawInputData {
    /// The size query's outcome: the call returns `u32::MAX` on failure and
    /// otherwise leaves the required size in `size`.
    pub fn required_size(ret: UINT, size: UINT, last_error: ErrorCode) -> (r: Result<
        usize,
        TwoCallError<ErrorCode>,
    >)
        ensures
            ret == u32::MAX ==> r == Err::<usize, TwoCallError<ErrorCode>>(
                TwoCallError::Query(last_error),
            ),
            ret != u32::MAX ==> r == Ok::<usize, TwoCallError<ErrorCode>>(size as usize),
    {
        let query: Result<usize, ErrorCode> = if ret == u32::MAX {
            Err(last_error)
        } else {
            Ok(size as usize)
        };
        required_capacity(query)
    }

    /// The fill call's outcome: `u32::MAX` on failure, otherwise `size`
    /// holds the byte count written to `buf`.
    pub fn from_fill(buf: Vec<u8>, ret: UINT, size: UINT, last_error: ErrorCode) -> (r: Result<
        RawInputData,
        TwoCallError<ErrorCode>,
    >)
        ensures
            ret == u32::MAX ==> r == Err::<RawInputData, TwoCallError<ErrorCode>>(
                TwoCallError::Fill(last_error),
            ),
            ret != u32::MAX && size <= buf@.len() ==> (r matches Ok(d) && d@ == buf@.subrange(
                0,
                size as int,
            )),
            ret != u32::MAX && size > buf@.len() ==> r == Err::<
                RawInputData,
                TwoCallError<ErrorCode>,
            >(TwoCallError::SizeMismatch { capacity: buf@.len() as usize, written: size as usize }),
    {
        let fill: Result<usize, ErrorCode> = if ret == u32::MAX {
            Err(last_error)
        } else {
            Ok(size as usize)
        };
        match trim_filled(buf, fill) {
            Ok(bytes) => Ok(RawInputData { bytes }),
            Err(e) => Err(e),
        }
    }

    /// The raw bytes of the event.
    pub fn from_bytes(bytes: Vec<u8>) -> (r: Self)
        ensures
            r@ == bytes@,
    {
        RawInputData { bytes }
    }

    pub fn as_bytes(&self) -> (r: &[u8])
        ensures
            r@ == self@,
    {
        self.bytes.as_slice()
    }

    /// The device the event came from; null when the data holds no whole
    /// header.
    pub fn handle(&self) -> (r: HANDLE)
        ensures
            r.0 == raw_input_device(self@),
    {
        let hl = header_len();
        if self.bytes.len() < hl {
            HANDLE::null()
        } else if usize::BITS == 64 {
            let (_, rest) = self.bytes.as_slice().split_at(8);
            let (field, _) = rest.split_at(8);
            assert(field@ == self@.subrange(8, 16));
            let v = u64_from_le_bytes(field);
            let h: isize = #[verifier::truncate]
            (v as isize);
            HANDLE(h)
        } else {
            let (_, rest) = self.bytes.as_slice().split_at(8);
            let (field, _) = rest.split_at(4);
            assert(field@ == self@.subrange(8, 12));
            let v = u32_from_le_bytes(field);
            let h: isize = #[verifier::truncate]
            (v as isize);
            HANDLE(h)
        }
    }

    /// The kind of device the event came from; `u32::MAX` when the data
    /// holds no whole header.
    pub fn input_type(&self) -> (r: RawInputType)
        ensures
            r.spec_code() == raw_input_type(self@),
    {
        if self.bytes.len() < header_len() {
            RawInputType(u32::MAX)
        } else {
            let (field, _) = self.bytes.as_slice().split_at(4);
            RawInputType(u32_from_le_bytes(field))
        }
    }

    fn hid_field_at(&self, offset: usize) -> (r: Option<DWORD>)
        requires
            offset == 0 || offset == 4,
        ensures
            r == hid_field(self@, offset as int),
    {
        if self.input_type().code() != RawInputType::HID {
            return None;
        }
        let hl = header_len();
        if self.bytes.len() - hl < offset + 4 {
            return None;
        }
        let (_, payload) = self.bytes.as_slice().split_at(hl);
        let (_, rest) = payload.split_at(offset);
        let (field, _) = rest.split_at(4);
        assert(payload@ == hid_payload(self@).unwrap());
        assert(field@ == payload@.subrange(offset as int, offset + 4));
        Some(u32_from_le_bytes(field))
    }

    /// The size of each HID report, for a HID event with that field.
    pub fn hid_size_hid(&self) -> (r: Option<DWORD>)
        ensures
            r == hid_field(self@, 0),
    {
        self.hid_field_at(0)
    }

    /// The number of HID reports, for a HID event with that field.
    pub fn hid_count(&self) -> (r: Option<DWORD>)
        ensures
            r == hid_field(self@, 4),
    {
        self.hid_field_at(4)
    }

    /// The HID report bytes, for a HID event with a size and count.
    pub fn hid_raw_data(&self) -> (r: Option<&[u8]>)
        ensures
            match hid_reports(self@) {
                Some(reports) => r matches Some(s) && s@ == reports,
                None => r.is_none(),
            },
    {
        if self.input_type().code() != RawInputType::HID {
            return None;
        }
        let hl = header_len();
        if self.bytes.len() - hl < 8 {
            return None;
        }
        let (_, payload) = self.bytes.as_slice().split_at(hl);
        let (_, reports) = payload.split_at(8);
        assert(payload@ == hid_payload(self@).unwrap());
        Some(reports)
    }
}

/// The size query of the device-information call: it returns zero on
/// success and leaves the required size in `size`.
pub fn device_info_size(ret: UINT, size: UINT, last_error: ErrorCode) -> (r: Result<
    usize,
    TwoCallError<ErrorCode>,
>)
    ensures
        ret != 0 ==> r == Err::<usize, TwoCallError<ErrorCode>>(TwoCallError::Query(last_error)),
        ret == 0 ==> r == Ok::<usize, TwoCallError<ErrorCode>>(size as usize),
{
    let query: Result<usize, ErrorCode> = if ret != 0 {
        Err(last_error)
    } else {
        Ok(size as usize)
    };
    required_capacity(query)
}

/// The device's name from the fill call of the device-information call:
/// `u32::MAX` on failure, otherwise `char_count` holds the code units
/// written, the terminating zero included.
pub fn device_name_from_fill(buf: Vec<u16>, ret: UINT, char_count: UINT, last_error: ErrorCode) -> (r:
    Result<String, TwoCallError<ErrorCode>>)
    ensures
        ret == u32::MAX ==> r == Err::<String, TwoCallError<ErrorCode>>(
            TwoCallError::Fill(last_error),
        ),
        ret != u32::MAX ==> ({
            let live = if char_count == 0 {
                0
            } else {
                char_count - 1
            };
            if live <= buf@.len() {
                r matches Ok(s) && s@ == utf16_decode_lossy(buf@.subrange(0, live as int))
            } else {
                r == Err::<String, TwoCallError<ErrorCode>>(
                    TwoCallError::SizeMismatch { capacity: buf@.len() as usize, written: live as usize },
                )
            }
        }),
{
    if ret == u32::MAX {
        return Err(TwoCallError::Fill(last_error));
    }
    let live: usize = if char_count == 0 {
        0
    } else {
        (char_count - 1) as usize
    };
    let fill: Result<usize, ErrorCode> = Ok(live);
    match trim_filled(buf, fill) {
        Ok(units) => Ok(crate::string_from_utf16(units.as_slice())),
        Err(e) => Err(e),
    }
}

/// A device's preparsed data: the driver's description of its reports,
/// read only through the HID parsing calls.
#[derive(Clone, Debug)]
pub struct RawInputDevicePreparsedData {
    data: GlobalBuffer,
}

impl RawInputDevicePreparsedData {
    /// The number of bytes of preparsed data.
    pub closed spec fn byte_len(self) -> nat {
        self.data.byte_len()
    }

    /// The words that hold the bytes.
    pub closed spec fn word_view(self) -> Seq<u64> {
        self.data.word_view()
    }

    /// Step 2 for preparsed data: a zeroed buffer of the queried size, or
    /// an allocation failure of this one request.
    pub fn allocate(capacity: usize) -> (r: Result<GlobalBuffer, TwoCallError<ErrorCode>>)
        ensures
            r matches Ok(b) ==> (b.byte_len() == capacity && b.word_view().len() == word_count(
                capacity as nat,
            )),
            r is Err ==> r == Err::<GlobalBuffer, TwoCallError<ErrorCode>>(
                TwoCallError::Allocation { capacity },
            ),
    {
        match GlobalBuffer::new(capacity) {
            Some(b) => Ok(b),
            None => Err(TwoCallError::Allocation { capacity }),
        }
    }

    /// The fill call's outcome: `u32::MAX` on failure, otherwise the byte
    /// count written, which must be the whole buffer.
    pub fn try_new(data: GlobalBuffer, ret: UINT, last_error: ErrorCode) -> (r: Result<
        Self,
        TwoCallError<ErrorCode>,
    >)
        ensures
            ret == u32::MAX ==> r == Err::<Self, TwoCallError<ErrorCode>>(
                TwoCallError::Fill(last_error),
            ),
            ret != u32::MAX && ret as nat == data.byte_len() ==> (r matches Ok(d) && d.byte_len()
                == data.byte_len() && d.word_view() == data.word_view()),
            ret != u32::MAX && ret as nat != data.byte_len() ==> r == Err::<
                Self,
                TwoCallError<ErrorCode>,
            >(TwoCallError::SizeMismatch { capacity: data.byte_len() as usize, written: ret as usize }),
    {
        if ret == u32::MAX {
            Err(TwoCallError::Fill(last_error))
        } else if ret as usize != data.len() {
            Err(TwoCallError::SizeMismatch { capacity: data.len(), written: ret as usize })
        } else {
            Ok(RawInputDevicePreparsedData { data })
        }
    }

    pub fn len(&self) -> (r: usize)
        ensures
            r == self.byte_len(),
    {
        self.data.len()
    }

    /// The words that hold the data; a HID parsing call reads the bytes
    /// from the start of this slice.
    pub fn words(&self) -> (r: &[u64])
        ensures
            r@ == self.word_view(),
    {
        self.data.words()
    }
}

} // verus!
