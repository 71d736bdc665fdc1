//! Win32 error codes, and the mapping of native status conventions to
//! results that carry the code.

use vstd::prelude::*;
use vstd::string::StringExecFns;

use crate::text::{
    decode_utf16_lossy, hex_string, hex_text, lemma_hex_digits_len, lemma_hex_text_determines_code,
    string_from_chars, utf16_decode_lossy,
};
use crate::win_types::{BOOL, BOOLEAN, DWORD, HANDLE};

verus! {

/// The error code bit that marks a code as defined by an application;
/// the system cannot format such codes into text.
pub const APPLICATION_ERROR_BIT: DWORD = 0x2000_0000;

/// A plain Win32 error code.
#[derive(Clone, Copy, Default, PartialEq, Eq, Structural, PartialOrd, Ord, Hash, Debug)]
pub struct ErrorCode(pub DWORD);

/// The text used when the system has no message for a code.
pub open spec fn unknown_error_text() -> Seq<char> {
    "unknown error"@
}

/// The text with any trailing carriage returns and line feeds removed.
pub open spec fn trim_line_ends(s: Seq<char>) -> Seq<char>
    decreases s.len(),
{
    if s.len() > 0 && (s.last() == '\r' || s.last() == '\n') {
        trim_line_ends(s.drop_last())
    } else {
        s
    }
}

/// The message part of a description: the system's text without line
/// ends, or the fallback when there is no text.
pub open spec fn message_text(system_text: Option<Seq<u16>>) -> Seq<char> {
    match system_text {
        Some(units) => {
            let t = trim_line_ends(utf16_decode_lossy(units));
            if t.len() == 0 {
                unknown_error_text()
            } else {
                t
            }
        },
        None => unknown_error_text(),
    }
}

/// `(0xXXXXXXXX): message`.
pub open spec fn description(code: DWORD, system_text: Option<Seq<u16>>) -> Seq<char> {
    "("@ + hex_text(code) + "): "@ + message_text(system_text)
}

impl ErrorCode {
    pub const NOT_ENOUGH_MEMORY: DWORD = 0x8;

    pub const INVALID_DATA: DWORD = 0xD;

    /// Whether the code was defined by an application rather than the
    /// system.
    pub fn is_application_error(self) -> (r: bool)
        ensures
            r == (self.0 & APPLICATION_ERROR_BIT != 0),
    {
        self.0 & APPLICATION_ERROR_BIT != 0
    }

    /// `0x` and eight upper-case hexadecimal digits.
    pub fn to_hex_text(self) -> (r: String)
        ensures
            r@ == hex_text(self.0),
    {
        hex_string(self.0)
    }

    /// The length of the text that the system formatter produced: it
    /// failed when it wrote nothing or handed back no buffer, and then the
    /// thread's last error explains why.
    pub fn system_message_length(written: DWORD, buffer_present: bool, last_error: ErrorCode) -> (r:
        Result<usize, ErrorCode>)
        ensures
            written == 0 || !buffer_present ==> r == Err::<usize, ErrorCode>(last_error),
            written != 0 && buffer_present ==> r == Ok::<usize, ErrorCode>(written as usize),
    {
        if written == 0 || !buffer_present {
            Err(last_error)
        } else {
            Ok(written as usize)
        }
    }

    /// The human-readable message for this code, from the system's text
    /// when there is one.
    pub fn message(system_text: Option<&[u16]>) -> (r: String)
        ensures
            r@ == message_text(
                match system_text {
                    Some(u) => Some(u@),
                    None => None,
                },
            ),
    {
        match system_text {
            None => String::from_str("unknown error"),
            Some(units) => {
                let mut chars = decode_utf16_lossy(units);
                let ghost decoded = chars@;
                while chars.len() > 0 && (chars[chars.len() - 1] == '\r' || chars[chars.len()
                    - 1] == '\n')
                    invariant
                        trim_line_ends(chars@) == trim_line_ends(decoded),
                    decreases chars.len(),
                {
                    chars.pop();
                }
                if chars.len() == 0 {
                    String::from_str("unknown error")
                } else {
                    string_from_chars(chars.as_slice())
                }
            },
        }
    }

    /// The code and its message, `(0xXXXXXXXX): message`; this never fails,
    /// whether or not the system could format the code.
    pub fn describe(self, system_text: Option<&[u16]>) -> (r: String)
        ensures
            r@ == description(
                self.0,
                match system_text {
                    Some(u) => Some(u@),
                    None => None,
                },
            ),
    {
        let mut head = String::from_str("(");
        let hex = hex_string(self.0);
        head.append(hex.as_str());
        let with_sep = head.concat("): ");
        let msg = ErrorCode::message(system_text);
        with_sep.concat(msg.as_str())
    }
}

/// The outcome of a call that reports success as a non-zero `BOOL`.
pub fn check_bool(ok: BOOL, last_error: ErrorCode) -> (r: Result<(), ErrorCode>)
    ensures
        ok.0 != 0 ==> r == Ok::<(), ErrorCode>(()),
        ok.0 == 0 ==> r == Err::<(), ErrorCode>(last_error),
{
    if ok.0 != 0 {
        Ok(())
    } else {
        Err(last_error)
    }
}

/// The outcome of a call that reports success as a non-zero `BOOLEAN`.
pub fn check_boolean(ok: BOOLEAN, last_error: ErrorCode) -> (r: Result<(), ErrorCode>)
    ensures
        ok.0 != 0 ==> r == Ok::<(), ErrorCode>(()),
        ok.0 == 0 ==> r == Err::<(), ErrorCode>(last_error),
{
    if ok.0 != 0 {
        Ok(())
    } else {
        Err(last_error)
    }
}

/// The outcome of a call that returns a handle, null on failure.
pub fn check_handle(h: HANDLE, last_error: ErrorCode) -> (r: Result<HANDLE, ErrorCode>)
    ensures
        h.0 != 0 ==> r == Ok::<HANDLE, ErrorCode>(h),
        h.0 == 0 ==> r == Err::<HANDLE, ErrorCode>(last_error),
{
    if h.is_null() {
        Err(last_error)
    } else {
        Ok(h)
    }
}

/// Describing any code never fails and always carries a message: the
/// system's text when it has some, the fallback text otherwise.
pub proof fn lemma_description_always_has_message(code: DWORD, system_text: Option<Seq<u16>>)
    ensures
        description(code, system_text) == "("@ + hex_text(code) + "): "@ + message_text(system_text),
        message_text(system_text).len() > 0,
        system_text.is_none() ==> message_text(system_text) == unknown_error_text(),
{
    reveal_strlit("unknown error");
}

/// A description names its code unambiguously: two codes with the same
/// description are the same code, whatever text the system had for them.
pub proof fn lemma_description_recovers_code(
    a: DWORD,
    a_text: Option<Seq<u16>>,
    b: DWORD,
    b_text: Option<Seq<u16>>,
)
    requires
        description(a, a_text) == description(b, b_text),
    ensures
        a == b,
{
    lemma_hex_digits_len(a as nat, 8);
    lemma_hex_digits_len(b as nat, 8);
    let da = description(a, a_text);
    let db = description(b, b_text);
    reveal_strlit("(");
    assert(hex_text(a) =~= da.subrange(1, 11));
    assert(hex_text(b) =~= db.subrange(1, 11));
    lemma_hex_text_determines_code(a, b);
}

} // verus!
