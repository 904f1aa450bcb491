//! Decoding of DualSense input reports and the event vocabulary.
//!
//! A report is a fixed-size binary snapshot read from the controller. The
//! fields this crate cares about sit at byte offsets that depend on the
//! transport: Bluetooth reports carry one more header byte than USB reports,
//! which shifts every offset up by one. The decoders never index out of
//! bounds: a report shorter than the required offset decodes to `None`.

use vstd::prelude::*;

verus! {

/// Vendor id of the controllers this crate watches.
pub const VENDOR_ID_SONY: u16 = 0x054C;

/// Product id of the DualSense controller.
pub const PRODUCT_ID_DUALSENSE: u16 = 0x0CE6;

/// Product id of the DualSense Edge controller.
pub const PRODUCT_ID_DUALSENSE_EDGE: u16 = 0x0DF2;

/// The allow-list of (vendor id, product id) pairs that the device scan
/// matches. Supporting a new controller model means adding a pair here.
pub open spec fn spec_allowed_device(vendor_id: u16, product_id: u16) -> bool {
    vendor_id == VENDOR_ID_SONY && (product_id == PRODUCT_ID_DUALSENSE
        || product_id == PRODUCT_ID_DUALSENSE_EDGE)
}

/// Decides whether an enumerated device is one of the supported controllers.
pub fn is_allowed_device(vendor_id: u16, product_id: u16) -> (r: bool)
    ensures
        r == spec_allowed_device(vendor_id, product_id),
{
    vendor_id == VENDOR_ID_SONY && (product_id == PRODUCT_ID_DUALSENSE
        || product_id == PRODUCT_ID_DUALSENSE_EDGE)
}

/// Charge state carried by the high nibble of the battery status byte.
#[derive(Clone, Copy, Debug, PartialEq, Eq, Structural)]
pub enum BatteryStatus {
    /// Running on battery (charge code 0x0).
    Discharging,
    /// Plugged in and charging (charge code 0x1).
    Charging,
    /// Charge complete (charge code 0x2).
    Full,
    /// The controller reports a charging fault (charge codes 0xA and 0xB).
    ChargingError,
    /// Any other charge code.
    Unknown,
}

/// One decoded battery reading: a percentage and a charge state.
/// Two readings are compared by equality to de-duplicate battery events.
#[derive(Clone, Copy, Debug, PartialEq, Eq, Structural)]
pub struct BatteryReport {
    /// Battery capacity as a percentage, always in `0 ..= 100`.
    pub battery_capacity: u8,
    /// Charge state decoded from the status byte's high nibble.
    pub status: BatteryStatus,
}

impl BatteryReport {
    /// The capacity is a percentage.
    pub open spec fn valid(self) -> bool {
        self.battery_capacity <= 100
    }

    /// Builds a battery reading from a capacity percentage and a charge state.
    pub fn new(battery_capacity: u8, status: BatteryStatus) -> (r: BatteryReport)
        requires
            battery_capacity <= 100,
        ensures
            r.battery_capacity == battery_capacity,
            r.status == status,
            r.valid(),
    {
        BatteryReport { battery_capacity, status }
    }
}

/// The events a consumer receives, in the order the poll loop detected them.
/// Each carries the stable device path identifying the physical controller.
#[derive(Clone, Debug, PartialEq, Eq)]
pub enum ControllerEvent {
    /// The battery reading changed (or was decoded for the first time).
    BatteryUpdate(String, BatteryReport),
    /// The mute button went from released to pressed.
    MuteButtonPressed(String),
    /// A matching device appeared on the bus and was opened.
    DeviceConnected(String),
    /// A tracked device disappeared from the bus or failed a read.
    DeviceDisconnected(String),
}

/// Offset of the battery status byte within a report.
pub open spec fn spec_battery_offset(is_bluetooth: bool) -> int {
    if is_bluetooth {
        54
    } else {
        53
    }
}

/// Offset of the byte holding the mute-button flag within a report.
pub open spec fn spec_mute_offset(is_bluetooth: bool) -> int {
    if is_bluetooth {
        11
    } else {
        10
    }
}

/// Maps a raw 0..=10 battery gauge level onto an approximate midpoint
/// percentage: level times ten, plus five, clamped to 100. The offset of five
/// centers each of the eleven coarse levels in its ten-percent band instead
/// of truncating to a multiple of ten.
pub open spec fn spec_capacity_of_level(level: u8) -> u8 {
    if level * 10 + 5 > 100 {
        100u8
    } else {
        (level * 10 + 5) as u8
    }
}

/// The battery reading encoded by one status byte: the low nibble is the raw
/// level 0..=10, the high nibble is the charge code.
pub open spec fn spec_battery_report_of_byte(status_byte: u8) -> BatteryReport {
    let level = status_byte & 0x0F;
    let code = (status_byte & 0xF0) >> 4;
    if code == 0x0 {
        BatteryReport { battery_capacity: spec_capacity_of_level(level), status: BatteryStatus::Discharging }
    } else if code == 0x1 {
        BatteryReport { battery_capacity: spec_capacity_of_level(level), status: BatteryStatus::Charging }
    } else if code == 0x2 {
        BatteryReport { battery_capacity: 100u8, status: BatteryStatus::Full }
    } else if code == 0xA || code == 0xB {
        BatteryReport { battery_capacity: 0u8, status: BatteryStatus::ChargingError }
    } else {
        BatteryReport { battery_capacity: 0u8, status: BatteryStatus::Unknown }
    }
}

/// What `parse_battery` returns: `None` exactly when the report is too short
/// to hold the status byte, otherwise the reading that byte encodes.
pub open spec fn spec_parse_battery(report: Seq<u8>, is_bluetooth: bool) -> Option<BatteryReport> {
    if report.len() <= spec_battery_offset(is_bluetooth) {
        None
    } else {
        Some(spec_battery_report_of_byte(report[spec_battery_offset(is_bluetooth)]))
    }
}

/// What `mute_button_pressed` returns: `None` exactly when the report is too
/// short, otherwise whether the mute-button bit is set.
pub open spec fn spec_mute_button_pressed(report: Seq<u8>, is_bluetooth: bool) -> Option<bool> {
    if report.len() <= spec_mute_offset(is_bluetooth) {
        None
    } else {
        Some(report[spec_mute_offset(is_bluetooth)] & 0x04 != 0)
    }
}

/// Clamped midpoint percentage for a raw gauge level.
fn capacity_of_level(level: u8) -> (r: u8)
    requires
        level <= 15,
    ensures
        r == spec_capacity_of_level(level),
        r <= 100,
{
    let raw: u8 = level * 10 + 5;
    if raw > 100 {
        100
    } else {
        raw
    }
}

/// Decodes the battery reading from a raw report.
///
/// Returns `None` if and only if the report is shorter than the status byte's
/// offset plus one, so the decoder never reads out of bounds. On success the
/// capacity is a percentage in `0 ..= 100`.
pub fn parse_battery(report: &[u8], is_bluetooth: bool) -> (r: Option<BatteryReport>)
    ensures
        r == spec_parse_battery(report@, is_bluetooth),
        r is None <==> report@.len() <= spec_battery_offset(is_bluetooth),
        r is Some ==> r->Some_0.valid(),
{
    let offset: usize = if is_bluetooth {
        54
    } else {
        53
    };
    if report.len() <= offset {
        return None;
    }
    let status_byte: u8 = report[offset];
    let level: u8 = status_byte & 0x0F;
    let code: u8 = (status_byte & 0xF0) >> 4;
    assert(status_byte & 0x0F <= 15) by (bit_vector);
    let r = if code == 0x0 {
        BatteryReport { battery_capacity: capacity_of_level(level), status: BatteryStatus::Discharging }
    } else if code == 0x1 {
        BatteryReport { battery_capacity: capacity_of_level(level), status: BatteryStatus::Charging }
    } else if code == 0x2 {
        BatteryReport { battery_capacity: 100, status: BatteryStatus::Full }
    } else if code == 0xA || code == 0xB {
        BatteryReport { battery_capacity: 0, status: BatteryStatus::ChargingError }
    } else {
        BatteryReport { battery_capacity: 0, status: BatteryStatus::Unknown }
    };
    Some(r)
}

/// Decodes the momentary mute-button state from a raw report.
///
/// Returns `None` if and only if the report is shorter than the flag byte's
/// offset plus one; otherwise whether the button is currently held.
pub fn mute_button_pressed(report: &[u8], is_bluetooth: bool) -> (r: Option<bool>)
    ensures
        r == spec_mute_button_pressed(report@, is_bluetooth),
        r is None <==> report@.len() <= spec_mute_offset(is_bluetooth),
{
    let offset: usize = if is_bluetooth {
        11
    } else {
        10
    };
    if report.len() <= offset {
        return None;
    }
    let mic_byte: u8 = report[offset];
    Some(mic_byte & 0x04 != 0)
}

} // verus!
