//! Human Interface Device (HID) parsing types: report types, usage pages,
//! parsing status codes and the capability records of a device.

use vstd::prelude::*;
use vstd::string::StringExecFns;

use crate::text::{decimal_string, decimal_text};
use crate::win_types::{BOOLEAN, LONG, NTSTATUS, UCHAR, ULONG, USHORT};

verus! {

pub type USAGE = USHORT;

/// The outcome of a HID parsing call: the value, or the status it failed
/// with.
pub type HidpResult<T> = Result<T, HidpStatus>;

/// Which of a device's reports a request is about.
#[derive(Clone, Copy, PartialEq, Eq, Structural, Debug)]
pub struct HidpReportType(u32);

impl HidpReportType {
    pub const INPUT: u32 = 0;

    pub const OUTPUT: u32 = 1;

    pub const FEATURE: u32 = 2;

    pub fn input() -> (r: Self)
        ensures
            r.code() == Self::INPUT,
    {
        HidpReportType(Self::INPUT)
    }

    pub fn output() -> (r: Self)
        ensures
            r.code() == Self::OUTPUT,
    {
        HidpReportType(Self::OUTPUT)
    }

    pub fn feature() -> (r: Self)
        ensures
            r.code() == Self::FEATURE,
    {
        HidpReportType(Self::FEATURE)
    }

    pub closed spec fn code(self) -> u32 {
        self.0
    }

    /// The native value of the report type.
    pub fn to_native(self) -> (r: u32)
        ensures
            r == self.code(),
    {
        self.0
    }
}

/// A HID usage page.
#[derive(Clone, Copy, PartialEq, Eq, Structural, Default, Debug)]
pub struct HidUsagePage(pub USAGE);

impl HidUsagePage {
    pub const GENERIC_DESKTOP: USAGE = 0x01;

    pub const BUTTONS: USAGE = 0x09;
}

/// A status code of the HID parsing library.
#[derive(Clone, Copy, PartialEq, Eq, Structural, Debug)]
pub struct HidpStatus(NTSTATUS);

/// The name of a known status, or `HidpStatus(code)`.
pub open spec fn status_text(code: NTSTATUS) -> Seq<char> {
    if code == HidpStatus::SUCCESS {
        "HidpStatus::SUCCESS"@
    } else if code == HidpStatus::INVALID_REPORT_LENGTH {
        "HidpStatus::INVALID_REPORT_LENGTH"@
    } else if code == HidpStatus::BAD_LOG_PHY_VALUES {
        "HidpStatus::BAD_LOG_PHY_VALUES"@
    } else if code == HidpStatus::VALUE_OUT_OF_RANGE {
        "HidpStatus::VALUE_OUT_OF_RANGE"@
    } else if code == HidpStatus::INVALID_REPORT_TYPE {
        "HidpStatus::INVALID_REPORT_TYPE"@
    } else if code == HidpStatus::BUFFER_TOO_SMALL {
        "HidpStatus::BUFFER_TOO_SMALL"@
    } else if code == HidpStatus::INCOMPATIBLE_REPORT_ID {
        "HidpStatus::INCOMPATIBLE_REPORT_ID"@
    } else if code == HidpStatus::INVALID_PREPARSED_DATA {
        "HidpStatus::INVALID_PREPARSED_DATA"@
    } else if code == HidpStatus::USAGE_NOT_FOUND {
        "HidpStatus::USAGE_NOT_FOUND"@
    } else {
        "HidpStatus("@ + decimal_text(code as int) + ")"@
    }
}

impl HidpStatus {
    pub const SUCCESS: NTSTATUS = 1_114_112;

    pub const BAD_LOG_PHY_VALUES: NTSTATUS = -1_072_627_706;

    pub const INVALID_REPORT_LENGTH: NTSTATUS = -1_072_627_709;

    pub const INVALID_REPORT_TYPE: NTSTATUS = -1_072_627_710;

    pub const BUFFER_TOO_SMALL: NTSTATUS = -1_072_627_705;

    pub const INCOMPATIBLE_REPORT_ID: NTSTATUS = -1_072_627_702;

    pub const INVALID_PREPARSED_DATA: NTSTATUS = -1_072_627_711;

    pub const USAGE_NOT_FOUND: NTSTATUS = -1_072_627_708;

    pub const VALUE_OUT_OF_RANGE: NTSTATUS = -1_072_627_707;

    pub closed spec fn spec_code(self) -> NTSTATUS {
        self.0
    }

    /// The status a native call returned.
    pub fn from_code(code: NTSTATUS) -> (r: Self)
        ensures
            r.spec_code() == code,
    {
        HidpStatus(code)
    }

    /// The native code, so that callers can branch on specific failures.
    pub fn code(self) -> (r: NTSTATUS)
        ensures
            r == self.spec_code(),
    {
        self.0
    }

    pub fn is_success(self) -> (r: bool)
        ensures
            r == (self.spec_code() == Self::SUCCESS),
    {
        self.0 == Self::SUCCESS
    }

    /// The value when the call succeeded, the status itself otherwise.
    pub fn check<T>(self, value: T) -> (r: HidpResult<T>)
        ensures
            self.spec_code() == Self::SUCCESS ==> r == Ok::<T, HidpStatus>(value),
            self.spec_code() != Self::SUCCESS ==> r == Err::<T, HidpStatus>(self),
    {
        if self.0 == Self::SUCCESS {
            Ok(value)
        } else {
            Err(self)
        }
    }

    /// The name of the status, or `HidpStatus(code)` for one without a
    /// name.
    pub fn to_text(self) -> (r: String)
        ensures
            r@ == status_text(self.spec_code()),
    {
        let c = self.0;
        if c == Self::SUCCESS {
            String::from_str("HidpStatus::SUCCESS")
        } else if c == Self::INVALID_REPORT_LENGTH {
            String::from_str("HidpStatus::INVALID_REPORT_LENGTH")
        } else if c == Self::BAD_LOG_PHY_VALUES {
            String::from_str("HidpStatus::BAD_LOG_PHY_VALUES")
        } else if c == Self::VALUE_OUT_OF_RANGE {
            String::from_str("HidpStatus::VALUE_OUT_OF_RANGE")
        } else if c == Self::INVALID_REPORT_TYPE {
            String::from_str("HidpStatus::INVALID_REPORT_TYPE")
        } else if c == Self::BUFFER_TOO_SMALL {
            String::from_str("HidpStatus::BUFFER_TOO_SMALL")
        } else if c == Self::INCOMPATIBLE_REPORT_ID {
            String::from_str("HidpStatus::INCOMPATIBLE_REPORT_ID")
        } else if c == Self::INVALID_PREPARSED_DATA {
            String::from_str("HidpStatus::INVALID_PREPARSED_DATA")
        } else if c == Self::USAGE_NOT_FOUND {
            String::from_str("HidpStatus::USAGE_NOT_FOUND")
        } else {
            let head = String::from_str("HidpStatus(");
            let digits = decimal_string(c);
            let body = head.concat(digits.as_str());
            body.concat(")")
        }
    }
}

/// The general capabilities of a device, from its preparsed data.
#[derive(Debug, Clone, Copy, Default, PartialEq, Eq, Structural)]
pub struct HidpCaps {
    pub usage: USAGE,
    pub usage_page: HidUsagePage,
    pub input_report_byte_length: USHORT,
    pub output_report_byte_length: USHORT,
    pub feature_report_byte_length: USHORT,
    pub number_link_collection_nodes: USHORT,
    pub number_input_button_caps: USHORT,
    pub number_input_value_caps: USHORT,
    pub number_input_data_indices: USHORT,
    pub number_output_button_caps: USHORT,
    pub number_output_value_caps: USHORT,
    pub number_output_data_indices: USHORT,
    pub number_feature_button_caps: USHORT,
    pub number_feature_value_caps: USHORT,
    pub number_feature_data_indices: USHORT,
}

impl HidpCaps {
    /// The number of entries to fetch the input button controls into.
    pub fn input_button_capacity(&self) -> (r: usize)
        ensures
            r == self.number_input_button_caps,
    {
        self.number_input_button_caps as usize
    }

    /// The number of entries to fetch the input value controls into.
    pub fn input_value_capacity(&self) -> (r: usize)
        ensures
            r == self.number_input_value_caps,
    {
        self.number_input_value_caps as usize
    }
}

/// A control that covers a range of usages.
#[derive(Debug, Clone, Copy, PartialEq, Eq, Structural)]
pub struct CapsRange {
    pub usage_min: USAGE,
    pub usage_max: USAGE,
    pub string_min: USHORT,
    pub string_max: USHORT,
    pub designator_min: USHORT,
    pub designator_max: USHORT,
    pub data_index_min: USHORT,
    pub data_index_max: USHORT,
}

/// A control with a single usage.
#[derive(Debug, Clone, Copy, PartialEq, Eq, Structural)]
pub struct CapsNotRange {
    pub usage: USAGE,
    pub string_index: USHORT,
    pub designator_index: USHORT,
    pub data_index: USHORT,
}

/// The two shapes of a capability record's usage description; the native
/// `is_range` flag decides which one a record holds.
#[derive(Debug, Clone, Copy, PartialEq, Eq, Structural)]
pub enum CapsRangeNotRange {
    Range(CapsRange),
    NotRange(CapsNotRange),
}

impl CapsRangeNotRange {
    pub fn range(&self) -> (r: Option<CapsRange>)
        ensures
            match *self {
                CapsRangeNotRange::Range(c) => r == Some(c),
                CapsRangeNotRange::NotRange(_) => r.is_none(),
            },
    {
        match *self {
            CapsRangeNotRange::Range(c) => Some(c),
            CapsRangeNotRange::NotRange(_) => None,
        }
    }

    pub fn not_range(&self) -> (r: Option<CapsNotRange>)
        ensures
            match *self {
                CapsRangeNotRange::NotRange(c) => r == Some(c),
                CapsRangeNotRange::Range(_) => r.is_none(),
            },
    {
        match *self {
            CapsRangeNotRange::NotRange(c) => Some(c),
            CapsRangeNotRange::Range(_) => None,
        }
    }

    pub open spec fn spec_is_range(self) -> bool {
        self is Range
    }

    pub fn is_range(&self) -> (r: bool)
        ensures
            r == self.spec_is_range(),
    {
        match *self {
            CapsRangeNotRange::Range(_) => true,
            CapsRangeNotRange::NotRange(_) => false,
        }
    }

    /// The single usage, or the first usage of the range.
    pub open spec fn spec_first_usage(self) -> USAGE {
        match self {
            CapsRangeNotRange::Range(c) => c.usage_min,
            CapsRangeNotRange::NotRange(c) => c.usage,
        }
    }

    pub fn first_usage(&self) -> (r: USAGE)
        ensures
            r == self.spec_first_usage(),
    {
        match *self {
            CapsRangeNotRange::Range(c) => c.usage_min,
            CapsRangeNotRange::NotRange(c) => c.usage,
        }
    }
}

/// A button control: a binary input that is either off or on.
#[derive(Debug, Clone, Copy, PartialEq, Eq, Structural)]
pub struct HidpButtonCaps {
    pub usage_page: HidUsagePage,
    pub report_id: UCHAR,
    pub is_alias: BOOLEAN,
    pub bit_field: USHORT,
    pub link_collection: USHORT,
    pub link_usage: USAGE,
    pub link_usage_page: USAGE,
    pub is_string_range: BOOLEAN,
    pub is_designator_range: BOOLEAN,
    pub is_absolute: BOOLEAN,
    pub report_count: USHORT,
    pub u: CapsRangeNotRange,
}

/// A value control, such as an axis, with its logical and physical ranges.
#[derive(Debug, Clone, Copy, PartialEq, Eq, Structural)]
pub struct HidpValueCaps {
    pub usage_page: HidUsagePage,
    pub report_id: UCHAR,
    pub is_alias: BOOLEAN,
    pub bit_field: USHORT,
    pub link_collection: USHORT,
    pub link_usage: USAGE,
    pub link_usage_page: USAGE,
    pub is_string_range: BOOLEAN,
    pub is_designator_range: BOOLEAN,
    pub is_absolute: BOOLEAN,
    pub has_null: BOOLEAN,
    pub bit_size: USHORT,
    pub report_count: USHORT,
    pub units_exp: ULONG,
    pub units: ULONG,
    pub logical_min: LONG,
    pub logical_max: LONG,
    pub physical_min: LONG,
    pub physical_max: LONG,
    pub u: CapsRangeNotRange,
}

/// The short name of a generic-desktop axis usage, `?` for any other.
pub open spec fn axis_label(usage: USAGE) -> Seq<char> {
    if usage == 0x30 {
        "X"@
    } else if usage == 0x31 {
        "Y"@
    } else if usage == 0x32 {
        "Z"@
    } else if usage == 0x33 {
        "Rx"@
    } else if usage == 0x34 {
        "Ry"@
    } else if usage == 0x35 {
        "Rz"@
    } else if usage == 0x36 {
        "Slider"@
    } else if usage == 0x37 {
        "Dial"@
    } else if usage == 0x38 {
        "Wheel"@
    } else if usage == 0x39 {
        "Hat"@
    } else {
        "?"@
    }
}

pub fn axis_name(usage: USAGE) -> (r: &'static str)
    ensures
        r@ == axis_label(usage),
{
    if usage == 0x30 {
        "X"
    } else if usage == 0x31 {
        "Y"
    } else if usage == 0x32 {
        "Z"
    } else if usage == 0x33 {
        "Rx"
    } else if usage == 0x34 {
        "Ry"
    } else if usage == 0x35 {
        "Rz"
    } else if usage == 0x36 {
        "Slider"
    } else if usage == 0x37 {
        "Dial"
    } else if usage == 0x38 {
        "Wheel"
    } else if usage == 0x39 {
        "Hat"
    } else {
        "?"
    }
}

/// A raw axis value checked against its control's logical range.
///
/// Scaling divides the value by the logical maximum, which assumes a
/// logical minimum of zero; non-zero minimums are not accounted for.
#[derive(Debug, Clone, Copy, PartialEq, Eq, Structural)]
pub enum AxisReading {
    /// The value lies in the logical range; its scaled form is
    /// `value / logical_max`.
    InRange { value: i32, logical_max: i32 },
    /// The value lies outside the logical range.
    OutOfRange,
}

/// The raw value as the signed number the logical range is stated in.
pub open spec fn signed_value(raw: ULONG) -> i32 {
    if raw <= 0x7FFF_FFFF {
        raw as i32
    } else {
        (raw - 0x1_0000_0000) as i32
    }
}

impl HidpValueCaps {
    /// The usage that a single value of this control is read under.
    pub fn value_usage(&self) -> (r: USAGE)
        ensures
            r == self.u.spec_first_usage(),
    {
        self.u.first_usage()
    }

    /// Checks a raw value of this control against its logical range.
    pub fn read_axis(&self, raw: ULONG) -> (r: AxisReading)
        ensures
            ({
                let v = signed_value(raw);
                if self.logical_min <= v <= self.logical_max {
                    r == AxisReading::InRange { value: v, logical_max: self.logical_max }
                } else {
                    r == AxisReading::OutOfRange
                }
            }),
    {
        let v: i32 = if raw <= 0x7FFF_FFFF {
            raw as i32
        } else {
            (raw - 0x8000_0000) as i32 - 0x4000_0000 - 0x4000_0000
        };
        if self.logical_min <= v && v <= self.logical_max {
            AxisReading::InRange { value: v, logical_max: self.logical_max }
        } else {
            AxisReading::OutOfRange
        }
    }
}

} // verus!
