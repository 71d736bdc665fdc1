use thorium::buffer::TwoCallError;
use thorium::errhandlingapi::ErrorCode;
use thorium::winuser::{device_info_size, device_name_from_fill, RawInputData, RawInputDevicePreparsedData, RawInputType};

fn header(ty: u32, device: u64) -> Vec<u8> {
    let mut b = Vec::new();
    b.extend_from_slice(&ty.to_le_bytes());
    b.extend_from_slice(&0u32.to_le_bytes());
    if usize::BITS == 64 {
        b.extend_from_slice(&device.to_le_bytes());
        b.extend_from_slice(&0u64.to_le_bytes());
    } else {
        b.extend_from_slice(&(device as u32).to_le_bytes());
        b.extend_from_slice(&0u32.to_le_bytes());
    }
    b
}

fn hid_event(device: u64, count: u32, reports: &[u8]) -> Vec<u8> {
    let mut b = header(RawInputType::HID, device);
    b.extend_from_slice(&(reports.len() as u32).to_le_bytes());
    b.extend_from_slice(&count.to_le_bytes());
    b.extend_from_slice(reports);
    b
}

#[test]
fn hid_event_fields_are_decoded() {
    let d = RawInputData::from_bytes(hid_event(0x1234, 1, &[7, 8, 9]));
    assert_eq!(d.handle().0, 0x1234);
    assert_eq!(d.input_type().code(), RawInputType::HID);
    assert_eq!(d.hid_size_hid(), Some(3));
    assert_eq!(d.hid_count(), Some(1));
    assert_eq!(d.hid_raw_data(), Some(&[7u8, 8, 9][..]));
}

#[test]
fn mouse_event_has_no_hid_fields() {
    let mut b = header(RawInputType::MOUSE, 5);
    b.extend_from_slice(&[0; 24]);
    let d = RawInputData::from_bytes(b);
    assert_eq!(d.handle().0, 5);
    assert_eq!(d.input_type().code(), RawInputType::MOUSE);
    assert_eq!(d.hid_size_hid(), None);
    assert_eq!(d.hid_count(), None);
    assert_eq!(d.hid_raw_data(), None);
}

#[test]
fn short_data_has_no_header() {
    let d = RawInputData::from_bytes(vec![2, 0, 0]);
    assert!(d.handle().is_null());
    assert_eq!(d.input_type().code(), u32::MAX);
    assert_eq!(d.hid_count(), None);
}

#[test]
fn hid_event_cut_short_has_only_the_fields_present() {
    let mut b = header(RawInputType::HID, 1);
    b.extend_from_slice(&4u32.to_le_bytes());
    let d = RawInputData::from_bytes(b);
    assert_eq!(d.hid_size_hid(), Some(4));
    assert_eq!(d.hid_count(), None);
    assert_eq!(d.hid_raw_data(), None);
}

#[test]
fn raw_input_size_query_outcomes() {
    let last = ErrorCode(87);
    assert_eq!(RawInputData::required_size(0, 48, last), Ok(48));
    assert_eq!(RawInputData::required_size(u32::MAX, 48, last), Err(TwoCallError::Query(last)));
}

#[test]
fn raw_input_fill_outcomes() {
    let last = ErrorCode(87);
    let event = hid_event(3, 1, &[1, 2]);
    let n = event.len() as u32;
    let mut buf = event.clone();
    buf.extend_from_slice(&[0xAA; 6]);
    let d = RawInputData::from_fill(buf, n, n, last).expect("fill");
    assert_eq!(d.as_bytes(), &event[..]);
    assert!(matches!(RawInputData::from_fill(vec![0; 4], u32::MAX, 4, last), Err(TwoCallError::Fill(e)) if e == last));
    assert!(matches!(
        RawInputData::from_fill(vec![0; 4], 5, 5, last),
        Err(TwoCallError::SizeMismatch { capacity: 4, written: 5 })
    ));
}

#[test]
fn device_info_queries_succeed_on_zero() {
    let last = ErrorCode(6);
    assert_eq!(device_info_size(0, 40, last), Ok(40));
    assert_eq!(device_info_size(u32::MAX, 40, last), Err(TwoCallError::Query(last)));
}

#[test]
fn device_name_drops_the_terminator() {
    let last = ErrorCode(6);
    let mut buf: Vec<u16> = "\\\\?\\HID#VID".encode_utf16().collect();
    buf.push(0);
    let n = buf.len() as u32;
    assert_eq!(device_name_from_fill(buf.clone(), n, n, last), Ok("\\\\?\\HID#VID".to_string()));
    assert_eq!(device_name_from_fill(buf.clone(), u32::MAX, n, last), Err(TwoCallError::Fill(last)));
    assert_eq!(
        device_name_from_fill(buf.clone(), n, n + 5, last),
        Err(TwoCallError::SizeMismatch { capacity: n as usize, written: n as usize + 4 })
    );
    assert_eq!(device_name_from_fill(Vec::new(), 0, 0, last), Ok(String::new()));
}

#[test]
fn preparsed_data_must_fill_the_whole_buffer() {
    let last = ErrorCode(13);
    let mut buf = RawInputDevicePreparsedData::allocate(12).expect("buffer");
    buf.words_mut()[1] = 5;
    let p = RawInputDevicePreparsedData::try_new(buf.clone(), 12, last).expect("whole buffer");
    assert_eq!(p.len(), 12);
    assert_eq!(p.words(), &[0, 5]);
    assert!(matches!(
        RawInputDevicePreparsedData::try_new(buf.clone(), 11, last),
        Err(TwoCallError::SizeMismatch { capacity: 12, written: 11 })
    ));
    assert!(matches!(
        RawInputDevicePreparsedData::try_new(buf, u32::MAX, last),
        Err(TwoCallError::Fill(e)) if e == last
    ));
}

#[test]
fn preparsed_data_allocation_failure_is_reported() {
    assert!(matches!(
        RawInputDevicePreparsedData::allocate(usize::MAX),
        Err(TwoCallError::Allocation { capacity: usize::MAX })
    ));
}
