//! GDI colours and background modes.

use vstd::prelude::*;

use crate::errhandlingapi::ErrorCode;
use crate::win_types::{BYTE, COLORREF};

verus! {

/// A colour with red in the low byte, then green, then blue.
#[allow(non_snake_case)]
pub fn RGB(r: BYTE, g: BYTE, b: BYTE) -> (c: COLORREF)
    ensures
        c == r + 256 * g + 65536 * b,
{
    let c = r as u32 | ((g as u32) << 8) | ((b as u32) << 16);
    assert(c == r + 256 * g + 65536 * b) by (bit_vector)
        requires
            c == r as u32 | ((g as u32) << 8) | ((b as u32) << 16),
    ;
    c
}

/// How text and hatched brushes fill their background.
#[derive(Clone, Copy, PartialEq, Eq, Structural, Debug)]
pub enum BackgroundMode {
    Transparent,
    Opaque,
}

pub const TRANSPARENT: i32 = 1;

pub const OPAQUE: i32 = 2;

impl BackgroundMode {
    pub open spec fn spec_to_native(self) -> i32 {
        match self {
            BackgroundMode::Transparent => TRANSPARENT,
            BackgroundMode::Opaque => OPAQUE,
        }
    }

    pub fn to_native(self) -> (r: i32)
        ensures
            r == self.spec_to_native(),
    {
        match self {
            BackgroundMode::Transparent => TRANSPARENT,
            BackgroundMode::Opaque => OPAQUE,
        }
    }

    /// The previous mode that setting a mode reported; any other value
    /// means the call failed, for the reason in the thread's last error.
    pub fn from_native(out: i32, last_error: ErrorCode) -> (r: Result<Self, ErrorCode>)
        ensures
            out == TRANSPARENT ==> r == Ok::<Self, ErrorCode>(BackgroundMode::Transparent),
            out == OPAQUE ==> r == Ok::<Self, ErrorCode>(BackgroundMode::Opaque),
            out != TRANSPARENT && out != OPAQUE ==> r == Err::<Self, ErrorCode>(last_error),
    {
        if out == TRANSPARENT {
            Ok(BackgroundMode::Transparent)
        } else if out == OPAQUE {
            Ok(BackgroundMode::Opaque)
        } else {
            Err(last_error)
        }
    }
}

} // verus!
