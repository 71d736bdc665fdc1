use thorium::hidpi::{
    axis_name, AxisReading, CapsNotRange, CapsRange, CapsRangeNotRange, HidUsagePage, HidpReportType,
    HidpStatus, HidpValueCaps,
};
use thorium::win_types::BOOLEAN;

fn value_cap(u: CapsRangeNotRange, logical_min: i32, logical_max: i32) -> HidpValueCaps {
    HidpValueCaps {
        usage_page: HidUsagePage(HidUsagePage::GENERIC_DESKTOP),
        report_id: 0,
        is_alias: BOOLEAN(0),
        bit_field: 2,
        link_collection: 0,
        link_usage: 4,
        link_usage_page: 1,
        is_string_range: BOOLEAN(0),
        is_designator_range: BOOLEAN(0),
        is_absolute: BOOLEAN(1),
        has_null: BOOLEAN(0),
        bit_size: 8,
        report_count: 1,
        units_exp: 0,
        units: 0,
        logical_min,
        logical_max,
        physical_min: 0,
        physical_max: 0,
        u,
    }
}

fn single(usage: u16) -> CapsRangeNotRange {
    CapsRangeNotRange::NotRange(CapsNotRange { usage, string_index: 0, designator_index: 0, data_index: 3 })
}

#[test]
fn known_statuses_are_named() {
    assert_eq!(HidpStatus::from_code(HidpStatus::SUCCESS).to_text(), "HidpStatus::SUCCESS");
    assert_eq!(
        HidpStatus::from_code(HidpStatus::BUFFER_TOO_SMALL).to_text(),
        "HidpStatus::BUFFER_TOO_SMALL"
    );
    assert_eq!(
        HidpStatus::from_code(HidpStatus::INCOMPATIBLE_REPORT_ID).to_text(),
        "HidpStatus::INCOMPATIBLE_REPORT_ID"
    );
    assert_eq!(
        HidpStatus::from_code(HidpStatus::USAGE_NOT_FOUND).to_text(),
        "HidpStatus::USAGE_NOT_FOUND"
    );
}

#[test]
fn unknown_statuses_show_their_code() {
    assert_eq!(HidpStatus::from_code(-5).to_text(), "HidpStatus(-5)");
    assert_eq!(HidpStatus::from_code(0).to_text(), "HidpStatus(0)");
    assert_eq!(HidpStatus::from_code(i32::MIN).to_text(), "HidpStatus(-2147483648)");
}

#[test]
fn status_check_keeps_the_native_code() {
    let ok = HidpStatus::from_code(HidpStatus::SUCCESS);
    assert!(ok.is_success());
    assert_eq!(ok.check(5u32), Ok(5));
    let bad = HidpStatus::from_code(HidpStatus::BUFFER_TOO_SMALL);
    assert!(!bad.is_success());
    let r = bad.check(5u32);
    assert_eq!(r.map_err(|s| s.code()), Err(HidpStatus::BUFFER_TOO_SMALL));
}

#[test]
fn report_types_have_native_values() {
    assert_eq!(HidpReportType::input().to_native(), 0);
    assert_eq!(HidpReportType::output().to_native(), 1);
    assert_eq!(HidpReportType::feature().to_native(), 2);
}

#[test]
fn axis_usages_are_named() {
    assert_eq!(axis_name(0x30), "X");
    assert_eq!(axis_name(0x35), "Rz");
    assert_eq!(axis_name(0x39), "Hat");
    assert_eq!(axis_name(0x3A), "?");
    assert_eq!(axis_name(0), "?");
}

#[test]
fn axis_readings_check_the_logical_range() {
    let cap = value_cap(single(0x30), 0, 255);
    assert_eq!(cap.read_axis(128), AxisReading::InRange { value: 128, logical_max: 255 });
    assert_eq!(cap.read_axis(0), AxisReading::InRange { value: 0, logical_max: 255 });
    assert_eq!(cap.read_axis(256), AxisReading::OutOfRange);
    let signed = value_cap(single(0x31), -128, 127);
    assert_eq!(signed.read_axis(0xFFFF_FFFF), AxisReading::InRange { value: -1, logical_max: 127 });
    assert_eq!(signed.read_axis(0x8000_0000), AxisReading::OutOfRange);
}

#[test]
fn range_and_single_usage_shapes_are_told_apart() {
    let r = CapsRange {
        usage_min: 0x30,
        usage_max: 0x35,
        string_min: 0,
        string_max: 0,
        designator_min: 0,
        designator_max: 0,
        data_index_min: 0,
        data_index_max: 5,
    };
    let ranged = CapsRangeNotRange::Range(r);
    assert!(ranged.is_range());
    assert_eq!(ranged.range(), Some(r));
    assert!(ranged.not_range().is_none());
    assert_eq!(ranged.first_usage(), 0x30);
    let one = single(0x32);
    assert!(!one.is_range());
    assert!(one.range().is_none());
    assert_eq!(one.not_range().map(|c| c.usage), Some(0x32));
    assert_eq!(value_cap(one, 0, 1).value_usage(), 0x32);
    assert_eq!(value_cap(ranged, 0, 1).value_usage(), 0x30);
}
