//! Safe, verified building blocks for Win32 raw-input, HID parsing and GL
//! object bindings: owned native handles, the two-call buffer protocol,
//! status mapping, raw-input payload decoding and a per-device capability
//! cache.

use vstd::prelude::*;

pub mod buffer;
pub mod device;
pub mod errhandlingapi;
pub mod gl;
pub mod handle;
pub mod hidpi;
pub mod hidsdi;
pub mod text;
pub mod win_types;
pub mod wingdi;
pub mod winuser;

use crate::text::{decode_utf16_lossy, string_from_chars, utf16_decode_lossy};

verus! {

/// Decodes UTF-16 text, replacing each unpaired surrogate with U+FFFD.
pub fn string_from_utf16(utf16: &[u16]) -> (r: String)
    ensures
        r@ == utf16_decode_lossy(utf16@),
{
    let chars = decode_utf16_lossy(utf16);
    string_from_chars(chars.as_slice())
}

} // verus!
