//! Plain Win32 value types.

use vstd::prelude::*;

use crate::text::{decode_utf16_lossy, encode_utf16, utf16_decode_lossy, utf16_encode};

verus! {

pub type DWORD = u32;

pub type WORD = u16;

pub type USHORT = u16;

pub type ULONG = u32;

pub type LONG = i32;

pub type UINT = u32;

pub type BYTE = u8;

pub type UCHAR = u8;

pub type ATOM = u16;

pub type COLORREF = u32;

pub type WPARAM = usize;

pub type LPARAM = isize;

pub type LRESULT = isize;

pub type NTSTATUS = i32;

pub type HWND = HANDLE;

pub type HINSTANCE = HANDLE;

pub type HICON = HANDLE;

pub type HCURSOR = HANDLE;

pub type HBRUSH = HANDLE;

pub type HRAWINPUT = HANDLE;

/// A Win32 `BOOL`: zero is false, anything else is true.
#[derive(Clone, Copy, Default, PartialEq, Eq, Structural, PartialOrd, Ord, Hash, Debug)]
pub struct BOOL(pub i32);

impl From<bool> for BOOL {
    fn from(value: bool) -> (r: Self) {
        if value {
            BOOL(1)
        } else {
            BOOL(0)
        }
    }
}

impl vstd::std_specs::convert::FromSpecImpl<bool> for BOOL {
    open spec fn obeys_from_spec() -> bool {
        true
    }

    open spec fn from_spec(v: bool) -> Self {
        BOOL(
            if v {
                1
            } else {
                0
            },
        )
    }
}

impl From<BOOL> for bool {
    fn from(value: BOOL) -> (r: bool) {
        value.0 != 0
    }
}

impl vstd::std_specs::convert::FromSpecImpl<BOOL> for bool {
    open spec fn obeys_from_spec() -> bool {
        true
    }

    open spec fn from_spec(v: BOOL) -> bool {
        v.0 != 0
    }
}

/// A Win32 `BOOLEAN` byte: zero is false, anything else is true.
#[derive(Clone, Copy, PartialEq, Eq, Structural, PartialOrd, Ord, Hash, Debug)]
pub struct BOOLEAN(pub BYTE);

impl From<bool> for BOOLEAN {
    fn from(value: bool) -> (r: Self) {
        if value {
            BOOLEAN(1)
        } else {
            BOOLEAN(0)
        }
    }
}

impl vstd::std_specs::convert::FromSpecImpl<bool> for BOOLEAN {
    open spec fn obeys_from_spec() -> bool {
        true
    }

    open spec fn from_spec(v: bool) -> Self {
        BOOLEAN(
            if v {
                1
            } else {
                0
            },
        )
    }
}

impl From<BOOLEAN> for bool {
    fn from(value: BOOLEAN) -> (r: bool) {
        value.0 != 0
    }
}

impl vstd::std_specs::convert::FromSpecImpl<BOOLEAN> for bool {
    open spec fn obeys_from_spec() -> bool {
        true
    }

    open spec fn from_spec(v: BOOLEAN) -> bool {
        v.0 != 0
    }
}

/// An opaque handle issued by the system; zero means "no resource".
#[derive(Clone, Copy, Default, PartialEq, Eq, Structural, PartialOrd, Ord, Hash, Debug)]
pub struct HANDLE(pub isize);

impl HANDLE {
    pub fn is_null(self) -> (r: bool)
        ensures
            r == (self.0 == 0),
    {
        self.0 == 0
    }

    pub fn null() -> (r: Self)
        ensures
            r.0 == 0,
    {
        HANDLE(0)
    }
}

/// A zero-terminated UTF-16 string, as the wide-character APIs take them.
#[derive(Debug)]
pub struct ZWString {
    units: Vec<u16>,
}

impl View for ZWString {
    type V = Seq<u16>;

    /// All code units, the terminating zero included.
    closed spec fn view(&self) -> Seq<u16> {
        self.units@
    }
}

impl ZWString {
    #[verifier::type_invariant]
    spec fn terminated(self) -> bool {
        self.units@.len() >= 1 && self.units@.last() == 0
    }

    /// The code units before the terminating zero.
    pub open spec fn live_units(self) -> Seq<u16> {
        self@.subrange(0, self@.len() - 1)
    }

    /// All code units, the terminating zero included; a native call can
    /// read the string from the start of this slice.
    pub fn units(&self) -> (r: &[u16])
        ensures
            r@ == self@,
            r@.len() >= 1,
            r@.last() == 0,
    {
        proof {
            use_type_invariant(self);
        }
        self.units.as_slice()
    }

    /// The characters before the terminator; unpaired surrogates come out
    /// as U+FFFD.
    pub fn chars(&self) -> (r: Vec<char>)
        ensures
            r@ == utf16_decode_lossy(self.live_units()),
    {
        proof {
            use_type_invariant(self);
        }
        let n = self.units.len() - 1;
        let (live, _) = self.units.as_slice().split_at(n);
        decode_utf16_lossy(live)
    }
}

impl ZWString {
    /// The text before the terminator, as it displays.
    pub fn to_text(&self) -> (r: String)
        ensures
            r@ == utf16_decode_lossy(self.live_units()),
    {
        proof {
            use_type_invariant(self);
        }
        let n = self.units.len() - 1;
        let (live, _) = self.units.as_slice().split_at(n);
        crate::string_from_utf16(live)
    }
}

impl Clone for ZWString {
    fn clone(&self) -> (r: Self)
        ensures
            r@ == self@,
    {
        proof {
            use_type_invariant(self);
        }
        let mut units: Vec<u16> = Vec::with_capacity(self.units.len());
        let mut i: usize = 0;
        while i < self.units.len()
            invariant
                i <= self.units@.len(),
                units@ == self.units@.subrange(0, i as int),
            decreases self.units@.len() - i,
        {
            units.push(self.units[i]);
            i = i + 1;
        }
        assert(units@ =~= self.units@);
        ZWString { units }
    }
}

impl<'a> From<&'a str> for ZWString {
    fn from(value: &'a str) -> (r: Self)
        ensures
            r@ == utf16_encode(value@).push(0),
    {
        let mut units = encode_utf16(value);
        units.push(0);
        ZWString { units }
    }
}

impl<'a> vstd::std_specs::convert::FromSpecImpl<&'a str> for ZWString {
    /// The conversion's result is stated by its own postcondition instead.
    open spec fn obeys_from_spec() -> bool {
        false
    }

    open spec fn from_spec(v: &'a str) -> Self {
        arbitrary()
    }
}

/// The number of 8-byte words that hold `n` bytes.
pub open spec fn word_count(n: nat) -> nat {
    if n % 8 == 0 {
        n / 8
    } else {
        n / 8 + 1
    }
}

/// A zero-initialised buffer of bytes, held in 8-byte words so that it is
/// aligned for the native structures a system call writes into it.
#[derive(Clone, Debug)]
pub struct GlobalBuffer {
    words: Vec<u64>,
    len: usize,
}

impl GlobalBuffer {
    /// The number of bytes the buffer holds.
    pub closed spec fn byte_len(self) -> nat {
        self.len as nat
    }

    /// The words that hold the bytes, the last one possibly in part.
    pub closed spec fn word_view(self) -> Seq<u64> {
        self.words@
    }

    /// A buffer of `byte_count` zero bytes; nothing when the memory could
    /// not be allocated.
    pub fn new(byte_count: usize) -> (r: Option<Self>)
        ensures
            r matches Some(b) ==> (b.byte_len() == byte_count && b.word_view().len() == word_count(
                byte_count as nat,
            ) && forall|i: int| 0 <= i < b.word_view().len() ==> b.word_view()[i] == 0u64),
    {
        let n: usize = if byte_count % 8 == 0 {
            byte_count / 8
        } else {
            byte_count / 8 + 1
        };
        match crate::buffer::try_allocate::<u64, ()>(n, 0u64) {
            Ok(words) => Some(GlobalBuffer { words, len: byte_count }),
            Err(_) => None,
        }
    }

    pub fn len(&self) -> (r: usize)
        ensures
            r == self.byte_len(),
    {
        self.len
    }

    pub fn words(&self) -> (r: &[u64])
        ensures
            r@ == self.word_view(),
    {
        self.words.as_slice()
    }

    /// The words, for a native call to write the bytes into; the number
    /// of bytes stays as it is.
    pub fn words_mut(&mut self) -> (r: &mut [u64])
        ensures
            r@ == old(self).word_view(),
            final(self).word_view() == final(r)@,
            final(self).byte_len() == old(self).byte_len(),
    {
        self.words.as_mut_slice()
    }
}

#[derive(Debug, Default, Clone, Copy, PartialEq, Eq, Structural)]
pub struct RECT {
    pub left: LONG,
    pub top: LONG,
    pub right: LONG,
    pub bottom: LONG,
}

} // verus!
