//! HID device identification.

use vstd::prelude::*;

verus! {

/// A globally unique identifier, such as the HID device interface class.
#[derive(Debug, Clone, Copy, Default, PartialEq, Eq)]
pub struct GUID {
    pub data1: u32,
    pub data2: u16,
    pub data3: u16,
    pub data4: [u8; 8],
}

} // verus!
