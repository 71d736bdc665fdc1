use thorium::errhandlingapi::{check_bool, check_boolean, check_handle, ErrorCode, APPLICATION_ERROR_BIT};
use thorium::win_types::{BOOL, BOOLEAN, HANDLE};

fn utf16(s: &str) -> Vec<u16> {
    s.encode_utf16().collect()
}

#[test]
fn error_code_hex_text_is_eight_upper_digits() {
    assert_eq!(ErrorCode(0xD).to_hex_text(), "0x0000000D");
    assert_eq!(ErrorCode(0xDEAD_BEEF).to_hex_text(), "0xDEADBEEF");
    assert_eq!(ErrorCode(0).to_hex_text(), "0x00000000");
}

#[test]
fn described_code_with_system_text_drops_line_ends() {
    let text = utf16("The data is invalid.\r\n");
    let d = ErrorCode(ErrorCode::INVALID_DATA).describe(Some(&text));
    assert_eq!(d, "(0x0000000D): The data is invalid.");
}

#[test]
fn described_code_without_system_text_falls_back() {
    let d = ErrorCode(0x2000_0001).describe(None);
    assert_eq!(d, "(0x20000001): unknown error");
}

#[test]
fn described_code_with_only_line_ends_falls_back() {
    let text = utf16("\r\n\n");
    assert_eq!(ErrorCode(8).describe(Some(&text)), "(0x00000008): unknown error");
    assert_eq!(ErrorCode::message(Some(&[])), "unknown error");
}

#[test]
fn message_keeps_inner_line_breaks() {
    let text = utf16("a\r\nb\n");
    assert_eq!(ErrorCode::message(Some(&text)), "a\r\nb");
}

#[test]
fn application_bit_marks_application_errors() {
    assert_eq!(APPLICATION_ERROR_BIT, 1 << 29);
    assert!(ErrorCode(APPLICATION_ERROR_BIT | 5).is_application_error());
    assert!(!ErrorCode(ErrorCode::NOT_ENOUGH_MEMORY).is_application_error());
}

#[test]
fn system_message_length_needs_text_and_buffer() {
    let last = ErrorCode(317);
    assert_eq!(ErrorCode::system_message_length(0, true, last), Err(last));
    assert_eq!(ErrorCode::system_message_length(12, false, last), Err(last));
    assert_eq!(ErrorCode::system_message_length(12, true, last), Ok(12));
}

#[test]
fn native_status_conventions_map_to_results() {
    let last = ErrorCode(6);
    assert_eq!(check_bool(BOOL(1), last), Ok(()));
    assert_eq!(check_bool(BOOL(-1), last), Ok(()));
    assert_eq!(check_bool(BOOL(0), last), Err(last));
    assert_eq!(check_boolean(BOOLEAN(1), last), Ok(()));
    assert_eq!(check_boolean(BOOLEAN(0), last), Err(last));
    assert_eq!(check_handle(HANDLE(0x40), last), Ok(HANDLE(0x40)));
    assert_eq!(check_handle(HANDLE::null(), last), Err(last));
}
