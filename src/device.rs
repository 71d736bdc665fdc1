//! Per-device capability information, the cache that holds it while a
//! device stays attached, and the decisions taken on window messages and
//! raw input events.

use std::collections::HashMap;
use vstd::prelude::*;

use crate::errhandlingapi::ErrorCode;
use crate::hidpi::{axis_label, axis_name, HidUsagePage, HidpButtonCaps, HidpCaps, HidpValueCaps, USAGE};
use crate::win_types::{HANDLE, HWND, LPARAM, LRESULT, UINT, WPARAM};
use crate::winuser::{
    hid_field, hid_reports, raw_input_device, RawInputData, RawInputDevicePreparsedData, WinMessage,
    RAWINPUTDEVICE,
};

verus! {

broadcast use vstd::std_specs::hash::group_hash_axioms;

/// What a device's reports look like: its preparsed data, general
/// capabilities and the button and value controls of its input reports.
#[derive(Debug)]
pub struct HidInfo {
    pub preparsed_data: RawInputDevicePreparsedData,
    pub caps: HidpCaps,
    pub input_button_caps: Vec<HidpButtonCaps>,
    pub input_value_caps: Vec<HidpValueCaps>,
}

impl HidInfo {
    /// Gathers a device's capability information from the parsing calls'
    /// outcomes, in the order they are made: general capabilities (which
    /// size the two lists), then button controls, then value controls. The
    /// first failure is the result.
    pub fn try_new<E>(
        preparsed_data: RawInputDevicePreparsedData,
        caps: Result<HidpCaps, E>,
        input_button_caps: Result<Vec<HidpButtonCaps>, E>,
        input_value_caps: Result<Vec<HidpValueCaps>, E>,
    ) -> (r: Result<Self, E>)
        ensures
            caps is Err ==> r == Err::<Self, E>(caps->Err_0),
            caps is Ok && input_button_caps is Err ==> r == Err::<Self, E>(
                input_button_caps->Err_0,
            ),
            caps is Ok && input_button_caps is Ok && input_value_caps is Err ==> r == Err::<
                Self,
                E,
            >(input_value_caps->Err_0),
            caps is Ok && input_button_caps is Ok && input_value_caps is Ok ==> (r matches Ok(info)
                && info.preparsed_data == preparsed_data && info.caps == caps->Ok_0
                && info.input_button_caps@ == input_button_caps->Ok_0@ && info.input_value_caps@
                == input_value_caps->Ok_0@),
    {
        let caps = match caps {
            Ok(c) => c,
            Err(s) => return Err(s),
        };
        let input_button_caps = match input_button_caps {
            Ok(b) => b,
            Err(s) => return Err(s),
        };
        let input_value_caps = match input_value_caps {
            Ok(v) => v,
            Err(s) => return Err(s),
        };
        Ok(HidInfo { preparsed_data, caps, input_button_caps, input_value_caps })
    }
}

/// The cache after an attach notification: the fetched information
/// replaces any earlier entry, and a failed fetch leaves no entry.
pub open spec fn attached(m: Map<isize, HidInfo>, device: isize, fetched: Option<HidInfo>) -> Map<
    isize,
    HidInfo,
> {
    match fetched {
        Some(info) => m.insert(device, info),
        None => m.remove(device),
    }
}

/// The cache after a detach notification.
pub open spec fn detached(m: Map<isize, HidInfo>, device: isize) -> Map<isize, HidInfo> {
    m.remove(device)
}

/// What a lookup finds.
pub open spec fn lookup(m: Map<isize, HidInfo>, device: isize) -> Option<HidInfo> {
    if m.contains_key(device) {
        Some(m[device])
    } else {
        None
    }
}

/// Capability information per attached device, keyed by device handle.
pub struct CapabilityCache {
    entries: HashMap<isize, HidInfo>,
}

impl View for CapabilityCache {
    type V = Map<isize, HidInfo>;

    closed spec fn view(&self) -> Map<isize, HidInfo> {
        self.entries@
    }
}

impl CapabilityCache {
    pub fn new() -> (r: Self)
        ensures
            r@ == Map::<isize, HidInfo>::empty(),
    {
        CapabilityCache { entries: HashMap::new() }
    }

    /// A device was attached; `fetched` is its capability information, or
    /// nothing when fetching it failed.
    pub fn on_attach(&mut self, device: HANDLE, fetched: Option<HidInfo>)
        ensures
            final(self)@ == attached(old(self)@, device.0, fetched),
    {
        match fetched {
            Some(info) => {
                self.entries.insert(device.0, info);
            },
            None => {
                self.entries.remove(&device.0);
            },
        }
    }

    /// A device was detached; its entry goes at once.
    pub fn on_detach(&mut self, device: HANDLE)
        ensures
            final(self)@ == detached(old(self)@, device.0),
    {
        self.entries.remove(&device.0);
    }

    pub fn get(&self, device: HANDLE) -> (r: Option<&HidInfo>)
        ensures
            match lookup(self@, device.0) {
                Some(info) => r == Some(&info),
                None => r.is_none(),
            },
    {
        self.entries.get(&device.0)
    }

    pub fn contains(&self, device: HANDLE) -> (r: bool)
        ensures
            r == self@.contains_key(device.0),
    {
        self.entries.contains_key(&device.0)
    }
}

/// A lookup after a device's detach notification finds nothing, whatever
/// the cache held for it before.
pub proof fn lemma_lookup_after_detach_is_empty(m: Map<isize, HidInfo>, device: isize)
    ensures
        lookup(detached(m, device), device).is_none(),
{
}

/// One value control to read from a report, and how to name its reading.
#[derive(Debug, Clone, Copy)]
pub struct ValueQuery {
    pub usage_page: HidUsagePage,
    pub usage: USAGE,
    pub name: &'static str,
    pub cap: HidpValueCaps,
}

/// A single HID report of a known device, ready to be decoded.
#[derive(Debug)]
pub struct ReportRequest {
    pub device: HANDLE,
    pub report: Vec<u8>,
    pub values: Vec<ValueQuery>,
}

/// The report bytes of an event that carries exactly one report, or
/// nothing: events that are not HID, that are cut short, or that pack
/// several reports together are skipped.
pub open spec fn single_report(b: Seq<u8>) -> Option<Seq<u8>> {
    match hid_field(b, 4) {
        Some(count) => if count > 1 {
            None
        } else {
            hid_reports(b)
        },
        None => None,
    }
}

/// The queries for a device's value controls, one per control in order.
pub open spec fn value_queries_match(values: Seq<ValueQuery>, caps: Seq<HidpValueCaps>) -> bool {
    &&& values.len() == caps.len()
    &&& forall|i: int|
        #![trigger values[i]]
        0 <= i < values.len() ==> {
            &&& values[i].cap == caps[i]
            &&& values[i].usage_page == caps[i].usage_page
            &&& values[i].usage == caps[i].u.spec_first_usage()
            &&& values[i].name@ == axis_label(values[i].usage)
        }
}

impl HidInfo {
    /// One query per input value control, read under its first usage.
    pub fn value_queries(&self) -> (r: Vec<ValueQuery>)
        ensures
            value_queries_match(r@, self.input_value_caps@),
    {
        let mut out: Vec<ValueQuery> = Vec::new();
        let mut i: usize = 0;
        while i < self.input_value_caps.len()
            invariant
                i <= self.input_value_caps@.len(),
                value_queries_match(out@, self.input_value_caps@.subrange(0, i as int)),
            decreases self.input_value_caps@.len() - i,
        {
            let cap = self.input_value_caps[i];
            let usage = cap.value_usage();
            out.push(ValueQuery { usage_page: cap.usage_page, usage, name: axis_name(usage), cap });
            i = i + 1;
        }
        assert(self.input_value_caps@.subrange(0, i as int) =~= self.input_value_caps@);
        out
    }
}

/// Decides what to decode from a raw input event: nothing unless it is a
/// single HID report from a device the cache knows.
pub fn parse_raw_input(data: &RawInputData, cache: &CapabilityCache) -> (r: Option<ReportRequest>)
    ensures
        match single_report(data@) {
            None => r.is_none(),
            Some(report) => match lookup(cache@, raw_input_device(data@)) {
                None => r.is_none(),
                Some(info) => r matches Some(req) && req.device.0 == raw_input_device(data@)
                    && req.report@ == report && value_queries_match(
                    req.values@,
                    info.input_value_caps@,
                ),
            },
        },
{
    let device = data.handle();
    let count = match data.hid_count() {
        Some(c) => c,
        None => return None,
    };
    if count > 1 {
        return None;
    }
    let report = match data.hid_raw_data() {
        Some(r) => r,
        None => return None,
    };
    let info = match cache.get(device) {
        Some(info) => info,
        None => return None,
    };
    let values = info.value_queries();
    let mut bytes: Vec<u8> = Vec::with_capacity(report.len());
    let mut i: usize = 0;
    while i < report.len()
        invariant
            i <= report@.len(),
            bytes@ == report@.subrange(0, i as int),
        decreases report@.len() - i,
    {
        bytes.push(report[i]);
        i = i + 1;
    }
    assert(bytes@ =~= report@);
    Some(ReportRequest { device, report: bytes, values })
}

/// The usage page of generic desktop controls.
pub const HID_PAGE_GENERIC_DESKTOP: u16 = 1;

/// The joystick usage on the generic desktop page.
pub const HID_PAGE_GENERIC_DESKTOP_JOYSTICK: u16 = 4;

/// Deliver input even when the window is not in the foreground.
pub const RIDEV_INPUTSINK: u32 = 0x0000_0100;

/// Deliver device arrival and removal notifications.
pub const RIDEV_DEVNOTIFY: u32 = 0x0000_2000;

/// The raw input registration a window makes when it is created: joysticks,
/// delivered to the window in the background, with arrival and removal
/// notifications.
pub fn joystick_devices(hwnd: HWND) -> (r: Vec<RAWINPUTDEVICE>)
    ensures
        r@ == seq![
            RAWINPUTDEVICE {
                usage_page: HID_PAGE_GENERIC_DESKTOP,
                usage: HID_PAGE_GENERIC_DESKTOP_JOYSTICK,
                flags: RIDEV_INPUTSINK | RIDEV_DEVNOTIFY,
                target: hwnd,
            },
        ],
{
    let mut v: Vec<RAWINPUTDEVICE> = Vec::new();
    v.push(
        RAWINPUTDEVICE {
            usage_page: HID_PAGE_GENERIC_DESKTOP,
            usage: HID_PAGE_GENERIC_DESKTOP_JOYSTICK,
            flags: RIDEV_INPUTSINK | RIDEV_DEVNOTIFY,
            target: hwnd,
        },
    );
    v
}

/// What the window procedure does with a message.
#[derive(Debug, Clone, Copy, PartialEq, Eq, Structural)]
pub enum MessageAction {
    /// Register for joystick raw input; answer with `created_result`.
    RegisterDevices,
    /// Post the quit message and answer zero.
    Quit,
    /// Fetch the device's capabilities into the cache and answer zero.
    DeviceAttached(HANDLE),
    /// Drop the device from the cache and answer zero.
    DeviceDetached(HANDLE),
    /// A device change notification of an unknown kind; the device is
    /// dropped from the cache as if detached, and the answer is zero.
    UnknownDeviceChange(WPARAM, HANDLE),
    /// Read the raw input event and decode it, then pass the message on.
    ReadInput(HANDLE),
    /// Pass the message on to the default procedure.
    PassOn,
}

pub const GIDC_ARRIVAL: usize = 1;

pub const GIDC_REMOVAL: usize = 2;

pub open spec fn message_action_spec(msg: UINT, w_param: WPARAM, l_param: LPARAM) -> MessageAction {
    if msg == WinMessage::CREATE {
        MessageAction::RegisterDevices
    } else if msg == WinMessage::CLOSE {
        MessageAction::Quit
    } else if msg == WinMessage::INPUT_DEVICE_CHANGE {
        if w_param == GIDC_ARRIVAL {
            MessageAction::DeviceAttached(HANDLE(l_param))
        } else if w_param == GIDC_REMOVAL {
            MessageAction::DeviceDetached(HANDLE(l_param))
        } else {
            MessageAction::UnknownDeviceChange(w_param, HANDLE(l_param))
        }
    } else if msg == WinMessage::INPUT {
        MessageAction::ReadInput(HANDLE(l_param))
    } else {
        MessageAction::PassOn
    }
}

/// Decides how the window procedure handles a message.
pub fn message_action(msg: UINT, w_param: WPARAM, l_param: LPARAM) -> (r: MessageAction)
    ensures
        r == message_action_spec(msg, w_param, l_param),
{
    if msg == WinMessage::CREATE {
        MessageAction::RegisterDevices
    } else if msg == WinMessage::CLOSE {
        MessageAction::Quit
    } else if msg == WinMessage::INPUT_DEVICE_CHANGE {
        if w_param == GIDC_ARRIVAL {
            MessageAction::DeviceAttached(HANDLE(l_param))
        } else if w_param == GIDC_REMOVAL {
            MessageAction::DeviceDetached(HANDLE(l_param))
        } else {
            MessageAction::UnknownDeviceChange(w_param, HANDLE(l_param))
        }
    } else if msg == WinMessage::INPUT {
        MessageAction::ReadInput(HANDLE(l_param))
    } else {
        MessageAction::PassOn
    }
}

/// The answer to the creation message: zero lets creation go on, minus one
/// stops it when the raw input registration failed.
pub fn created_result(registration: Result<(), ErrorCode>) -> (r: LRESULT)
    ensures
        registration is Ok ==> r == 0,
        registration is Err ==> r == -1,
{
    match registration {
        Ok(()) => 0,
        Err(_) => -1,
    }
}

} // verus!
