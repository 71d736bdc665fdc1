use thorium::device::{
    created_result, joystick_devices, message_action, parse_raw_input, CapabilityCache, HidInfo, MessageAction,
    RIDEV_DEVNOTIFY, RIDEV_INPUTSINK,
};
use thorium::errhandlingapi::ErrorCode;
use thorium::hidpi::{
    CapsNotRange, CapsRange, CapsRangeNotRange, HidUsagePage, HidpCaps, HidpStatus, HidpValueCaps,
};
use thorium::win_types::{BOOLEAN, HANDLE};
use thorium::winuser::{RawInputData, RawInputDevicePreparsedData, RawInputType, WinMessage};

fn axis_cap(u: CapsRangeNotRange) -> HidpValueCaps {
    HidpValueCaps {
        usage_page: HidUsagePage(HidUsagePage::GENERIC_DESKTOP),
        report_id: 0,
        is_alias: BOOLEAN(0),
        bit_field: 2,
        link_collection: 0,
        link_usage: 4,
        link_usage_page: 1,
        is_string_range: BOOLEAN(0),
        is_designator_range: BOOLEAN(0),
        is_absolute: BOOLEAN(1),
        has_null: BOOLEAN(0),
        bit_size: 8,
        report_count: 1,
        units_exp: 0,
        units: 0,
        logical_min: 0,
        logical_max: 255,
        physical_min: 0,
        physical_max: 0,
        u,
    }
}

fn device_info(tag: u8) -> HidInfo {
    let mut buf = RawInputDevicePreparsedData::allocate(8).unwrap();
    buf.words_mut()[0] = u64::from(tag);
    let pd = RawInputDevicePreparsedData::try_new(buf, 8, ErrorCode(0)).unwrap();
    let caps = HidpCaps { number_input_value_caps: 2, ..HidpCaps::default() };
    let values = vec![
        axis_cap(CapsRangeNotRange::NotRange(CapsNotRange {
            usage: 0x31,
            string_index: 0,
            designator_index: 0,
            data_index: 0,
        })),
        axis_cap(CapsRangeNotRange::Range(CapsRange {
            usage_min: 0x39,
            usage_max: 0x3A,
            string_min: 0,
            string_max: 0,
            designator_min: 0,
            designator_max: 0,
            data_index_min: 1,
            data_index_max: 2,
        })),
    ];
    HidInfo::try_new::<HidpStatus>(pd, Ok(caps), Ok(Vec::new()), Ok(values)).unwrap()
}

fn event_bytes(device: u64, count: u32, reports: &[u8]) -> Vec<u8> {
    let mut b = Vec::new();
    b.extend_from_slice(&RawInputType::HID.to_le_bytes());
    b.extend_from_slice(&0u32.to_le_bytes());
    if usize::BITS == 64 {
        b.extend_from_slice(&device.to_le_bytes());
        b.extend_from_slice(&0u64.to_le_bytes());
    } else {
        b.extend_from_slice(&(device as u32).to_le_bytes());
        b.extend_from_slice(&0u32.to_le_bytes());
    }
    b.extend_from_slice(&(reports.len() as u32).to_le_bytes());
    b.extend_from_slice(&count.to_le_bytes());
    b.extend_from_slice(reports);
    b
}

#[test]
fn attach_detach_reattach_cycle() {
    let d1 = HANDLE(0x51);
    let mut cache = CapabilityCache::new();
    assert!(!cache.contains(d1));
    cache.on_attach(d1, Some(device_info(1)));
    assert!(cache.contains(d1));
    assert_eq!(cache.get(d1).unwrap().preparsed_data.words(), &[1]);
    cache.on_detach(d1);
    assert!(!cache.contains(d1));
    assert!(cache.get(d1).is_none());
    cache.on_attach(d1, Some(device_info(2)));
    assert!(cache.contains(d1));
    assert_eq!(cache.get(d1).unwrap().preparsed_data.words(), &[2]);
}

#[test]
fn lookup_after_detach_finds_nothing() {
    let mut cache = CapabilityCache::new();
    cache.on_detach(HANDLE(9));
    assert!(cache.get(HANDLE(9)).is_none());
    cache.on_attach(HANDLE(9), Some(device_info(3)));
    cache.on_attach(HANDLE(10), Some(device_info(4)));
    cache.on_detach(HANDLE(9));
    assert!(cache.get(HANDLE(9)).is_none());
    assert!(cache.get(HANDLE(10)).is_some());
}

#[test]
fn failed_attach_leaves_no_entry() {
    let mut cache = CapabilityCache::new();
    cache.on_attach(HANDLE(4), Some(device_info(5)));
    cache.on_attach(HANDLE(4), None);
    assert!(!cache.contains(HANDLE(4)));
}

#[test]
fn hid_info_reports_the_first_failure() {
    let pd = || RawInputDevicePreparsedData::try_new(RawInputDevicePreparsedData::allocate(2).unwrap(), 2, ErrorCode(0)).unwrap();
    let caps_fail = HidpStatus::from_code(HidpStatus::INVALID_PREPARSED_DATA);
    let buttons_fail = HidpStatus::from_code(HidpStatus::BUFFER_TOO_SMALL);
    let values_fail = HidpStatus::from_code(HidpStatus::INVALID_REPORT_TYPE);
    let r = HidInfo::try_new(pd(), Err(caps_fail), Err(buttons_fail), Err(values_fail));
    assert_eq!(r.err().map(|s| s.code()), Some(HidpStatus::INVALID_PREPARSED_DATA));
    let r = HidInfo::try_new(pd(), Ok(HidpCaps::default()), Err(buttons_fail), Err(values_fail));
    assert_eq!(r.err().map(|s| s.code()), Some(HidpStatus::BUFFER_TOO_SMALL));
    let r = HidInfo::try_new(pd(), Ok(HidpCaps::default()), Ok(Vec::new()), Err(values_fail));
    assert_eq!(r.err().map(|s| s.code()), Some(HidpStatus::INVALID_REPORT_TYPE));
}

#[test]
fn single_report_of_known_device_is_planned() {
    let mut cache = CapabilityCache::new();
    cache.on_attach(HANDLE(0x77), Some(device_info(6)));
    let data = RawInputData::from_bytes(event_bytes(0x77, 1, &[0x10, 0x20]));
    let req = parse_raw_input(&data, &cache).expect("known device");
    assert_eq!(req.device, HANDLE(0x77));
    assert_eq!(req.report, vec![0x10, 0x20]);
    assert_eq!(req.values.len(), 2);
    assert_eq!(req.values[0].usage, 0x31);
    assert_eq!(req.values[0].name, "Y");
    assert_eq!(req.values[1].usage, 0x39);
    assert_eq!(req.values[1].name, "Hat");
}

#[test]
fn unknown_device_and_multi_report_events_are_skipped() {
    let mut cache = CapabilityCache::new();
    cache.on_attach(HANDLE(0x77), Some(device_info(7)));
    let unknown = RawInputData::from_bytes(event_bytes(0x78, 1, &[1]));
    assert!(parse_raw_input(&unknown, &cache).is_none());
    let packed = RawInputData::from_bytes(event_bytes(0x77, 2, &[1, 2]));
    assert!(parse_raw_input(&packed, &cache).is_none());
    let short = RawInputData::from_bytes(vec![2, 0, 0, 0]);
    assert!(parse_raw_input(&short, &cache).is_none());
}

#[test]
fn window_messages_are_classified() {
    assert_eq!(message_action(WinMessage::CREATE, 0, 0), MessageAction::RegisterDevices);
    assert_eq!(message_action(WinMessage::CLOSE, 0, 0), MessageAction::Quit);
    assert_eq!(message_action(WinMessage::INPUT_DEVICE_CHANGE, 1, 44), MessageAction::DeviceAttached(HANDLE(44)));
    assert_eq!(message_action(WinMessage::INPUT_DEVICE_CHANGE, 2, 44), MessageAction::DeviceDetached(HANDLE(44)));
    assert_eq!(
        message_action(WinMessage::INPUT_DEVICE_CHANGE, 3, 44),
        MessageAction::UnknownDeviceChange(3, HANDLE(44))
    );
    assert_eq!(message_action(WinMessage::INPUT, 0, 99), MessageAction::ReadInput(HANDLE(99)));
    assert_eq!(message_action(0x000F, 0, 0), MessageAction::PassOn);
}

#[test]
fn creation_answer_follows_registration() {
    assert_eq!(created_result(Ok(())), 0);
    assert_eq!(created_result(Err(ErrorCode(5))), -1);
}

#[test]
fn capability_counts_size_the_fetches() {
    let caps = HidpCaps { number_input_button_caps: 3, number_input_value_caps: 5, ..HidpCaps::default() };
    assert_eq!(caps.input_button_capacity(), 3);
    assert_eq!(caps.input_value_capacity(), 5);
}

#[test]
fn joystick_registration_targets_the_window() {
    let v = joystick_devices(HANDLE(0x300));
    assert_eq!(v.len(), 1);
    assert_eq!(v[0].usage_page, 1);
    assert_eq!(v[0].usage, 4);
    assert_eq!(v[0].flags, RIDEV_INPUTSINK | RIDEV_DEVNOTIFY);
    assert_eq!(v[0].flags, 0x2100);
    assert_eq!(v[0].target, HANDLE(0x300));
}
