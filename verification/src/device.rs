//! Recognising Attack Shark devices among the HID devices of a machine, and
//! reading the reports that they send.

use vstd::prelude::*;

use crate::error::{DriverError, Result};
use crate::text::with_decimal;

verus! {

/// The USB vendor of Attack Shark devices.
pub const VENDOR_ID: u16 = 0x1d57;
/// The product of the wireless receivers of the R1 and the X11.
pub const WIRELESS_PRODUCT_ID: u16 = 0xfa60;
/// The product of the R1 connected by cable.
pub const WIRED_PRODUCT_ID: u16 = 0xfa61;
/// The product of the X11 connected by cable.
pub const X11_WIRED_PRODUCT_ID: u16 = 0xfa55;
/// The HID interface that takes configuration reports.
pub const CONFIGURATION_INTERFACE: i32 = 2;
/// The USB revision of the R1 wireless receiver.
pub const R1_WIRELESS_VERSION: u16 = 0x1105;
/// The USB revision of the X11 wireless receiver.
pub const X11_WIRELESS_VERSION: u16 = 0x1108;

/// Mouse models.
#[derive(Clone, Copy, Debug, PartialEq, Eq, Structural)]
pub enum DeviceModel {
    R1,
    X11,
    /// A receiver whose revision does not say which mouse it serves.
    UnknownAdapter,
}

/// How a mouse is connected.
#[derive(Clone, Copy, Debug, PartialEq, Eq, Structural)]
pub enum ConnectionMode {
    Wired,
    Wireless,
}

/// A recognised mouse and how it is connected.
#[derive(Clone, Copy, Debug, PartialEq, Eq, Structural)]
pub struct DetectedDevice {
    pub model: DeviceModel,
    pub connection: ConnectionMode,
}

/// What the HID layer tells about one device interface.
#[derive(Clone, Copy, Debug, PartialEq, Eq, Structural)]
pub struct HidDeviceEntry {
    pub vendor_id: u16,
    pub product_id: u16,
    pub release_number: u16,
    pub interface_number: i32,
}

/// The device interface through which a mouse is configured: one of the
/// Attack Shark vendor on the configuration interface.
pub open spec fn is_configuration_entry(entry: HidDeviceEntry) -> bool {
    entry.vendor_id == VENDOR_ID && entry.interface_number == CONFIGURATION_INTERFACE
}

/// Whether a device interface is one through which a mouse is configured.
pub fn is_configuration_device(entry: &HidDeviceEntry) -> (b: bool)
    ensures
        b == is_configuration_entry(*entry),
{
    entry.vendor_id == VENDOR_ID && entry.interface_number == CONFIGURATION_INTERFACE
}

/// The mouse that a product and revision stand for.
pub open spec fn classification(product_id: u16, release_number: u16) -> Option<DetectedDevice> {
    if product_id == X11_WIRED_PRODUCT_ID {
        Some(DetectedDevice { model: DeviceModel::X11, connection: ConnectionMode::Wired })
    } else if product_id == WIRED_PRODUCT_ID {
        Some(DetectedDevice { model: DeviceModel::R1, connection: ConnectionMode::Wired })
    } else if product_id == WIRELESS_PRODUCT_ID {
        Some(
            DetectedDevice {
                model: if release_number == X11_WIRELESS_VERSION {
                    DeviceModel::X11
                } else if release_number == R1_WIRELESS_VERSION {
                    DeviceModel::R1
                } else {
                    DeviceModel::UnknownAdapter
                },
                connection: ConnectionMode::Wireless,
            },
        )
    } else {
        None
    }
}

/// Recognises the mouse that a product and revision stand for.
pub fn classify_device(product_id: u16, release_number: u16) -> (r: Option<DetectedDevice>)
    ensures
        r == classification(product_id, release_number),
{
    match product_id {
        0xfa55 => Some(DetectedDevice { model: DeviceModel::X11, connection: ConnectionMode::Wired }),
        0xfa61 => Some(DetectedDevice { model: DeviceModel::R1, connection: ConnectionMode::Wired }),
        0xfa60 => Some(
            DetectedDevice {
                model: match release_number {
                    0x1108 => DeviceModel::X11,
                    0x1105 => DeviceModel::R1,
                    _ => DeviceModel::UnknownAdapter,
                },
                connection: ConnectionMode::Wireless,
            },
        ),
        _ => None,
    }
}

/// An R1 receiver of revision `release_number` may be opened: never the
/// known X11 revision, the known R1 revision always, and other revisions only
/// when unknown adapters are allowed.
pub fn supports_r1_adapter(release_number: u16, allow_unknown_adapter: bool) -> (b: bool)
    ensures
        b == (release_number != X11_WIRELESS_VERSION && (allow_unknown_adapter
            || release_number == R1_WIRELESS_VERSION)),
{
    release_number != X11_WIRELESS_VERSION && (allow_unknown_adapter || release_number == R1_WIRELESS_VERSION)
}

/// The mouse that a device interface stands for, if it is a configuration
/// interface of a known product.
pub open spec fn recognised(entry: HidDeviceEntry) -> Option<DetectedDevice> {
    if is_configuration_entry(entry) {
        classification(entry.product_id, entry.release_number)
    } else {
        None
    }
}

/// The mouse of the first device in `devices` that is recognised as connected
/// by cable.
pub open spec fn first_wired(devices: Seq<HidDeviceEntry>) -> Option<DetectedDevice>
    decreases devices.len(),
{
    if devices.len() == 0 {
        None
    } else if first_wired(devices.drop_last()) is Some {
        first_wired(devices.drop_last())
    } else if recognised(devices.last()) is Some && recognised(devices.last())->0.connection == ConnectionMode::Wired {
        recognised(devices.last())
    } else {
        None
    }
}

/// The model of the last device in `devices` that is recognised as a
/// wireless receiver.
pub open spec fn last_receiver(devices: Seq<HidDeviceEntry>) -> Option<DeviceModel>
    decreases devices.len(),
{
    if devices.len() == 0 {
        None
    } else if recognised(devices.last()) is Some && recognised(devices.last())->0.connection == ConnectionMode::Wireless {
        Some(recognised(devices.last())->0.model)
    } else {
        last_receiver(devices.drop_last())
    }
}

/// What detection reports for a list of devices: the first mouse connected
/// by cable, or else the receiver found last.
pub open spec fn detection(devices: Seq<HidDeviceEntry>) -> Option<DetectedDevice> {
    if first_wired(devices) is Some {
        first_wired(devices)
    } else if last_receiver(devices) is Some {
        Some(DetectedDevice { model: last_receiver(devices)->0, connection: ConnectionMode::Wireless })
    } else {
        None
    }
}

/// A device that `detect_model_among` takes as a receiver of the model:
/// a recognised receiver of that model, or any recognised device of the
/// wireless product, whose revision may be shared by both models.
pub open spec fn serves_as_receiver(entry: HidDeviceEntry, model: DeviceModel) -> bool {
    recognised(entry) matches Some(d) && (d.model == model || entry.product_id == WIRELESS_PRODUCT_ID)
}

/// What detection of a chosen model reports for a list of devices: the model
/// connected by cable when a device says so, or else the model through a
/// receiver when one can serve it.
pub open spec fn model_detection(devices: Seq<HidDeviceEntry>, model: DeviceModel) -> Option<DetectedDevice> {
    if exists|i: int| 0 <= i < devices.len()
        && #[trigger] recognised(devices[i]) == Some(DetectedDevice { model, connection: ConnectionMode::Wired }) {
        Some(DetectedDevice { model, connection: ConnectionMode::Wired })
    } else if exists|i: int| 0 <= i < devices.len() && serves_as_receiver(#[trigger] devices[i], model) {
        Some(DetectedDevice { model, connection: ConnectionMode::Wireless })
    } else {
        None
    }
}

/// Marker for the operations that find Attack Shark mice.
pub struct DeviceService;

impl DeviceService {
    /// Finds the mouse among the HID devices: the first one connected by
    /// cable, or else the receiver found last.
    pub fn detect_among(devices: &Vec<HidDeviceEntry>) -> (r: Option<DetectedDevice>)
        ensures
            r == detection(devices@),
    {
        let mut adapter: Option<DeviceModel> = None;
        let mut i: usize = 0;
        while i < devices.len()
            invariant
                0 <= i <= devices.len(),
                first_wired(devices@.take(i as int)) is None,
                adapter == last_receiver(devices@.take(i as int)),
            decreases devices.len() - i,
        {
            let device = devices[i];
            assert(devices@.take(i + 1).drop_last() == devices@.take(i as int));
            assert(devices@.take(i + 1).last() == device);
            if is_configuration_device(&device) {
                if let Some(detected) = classify_device(device.product_id, device.release_number) {
                    if detected.connection == ConnectionMode::Wired {
                        proof {
                            lemma_first_wired_prefix(devices@, i as int + 1);
                        }
                        return Some(detected);
                    }
                    adapter = Some(detected.model);
                }
            }
            i += 1;
        }
        assert(devices@.take(devices.len() as int) == devices@);
        match adapter {
            Some(model) => Some(DetectedDevice { model, connection: ConnectionMode::Wireless }),
            None => None,
        }
    }

    /// Finds a chosen model among the HID devices: connected by cable when a
    /// device says so, or else through a receiver that can serve it. A
    /// receiver of the wireless product serves either model, since the R1
    /// and X11 receivers can report the same revision.
    pub fn detect_model_among(devices: &Vec<HidDeviceEntry>, model: DeviceModel) -> (r: Option<DetectedDevice>)
        ensures
            r == model_detection(devices@, model),
    {
        let mut wireless_match: Option<DetectedDevice> = None;
        let mut unknown_adapter = false;
        let mut i: usize = 0;
        while i < devices.len()
            invariant
                0 <= i <= devices.len(),
                forall|j: int| 0 <= j < i ==>
                    #[trigger] recognised(devices@[j]) != Some(DetectedDevice { model, connection: ConnectionMode::Wired }),
                wireless_match is Some <==> exists|j: int| 0 <= j < i && serves_as_receiver(#[trigger] devices@[j], model),
                wireless_match is Some ==> wireless_match == Some(DetectedDevice { model, connection: ConnectionMode::Wireless }),
                unknown_adapter ==> wireless_match is Some,
            decreases devices.len() - i,
        {
            let device = devices[i];
            if is_configuration_device(&device) {
                if let Some(detected) = classify_device(device.product_id, device.release_number) {
                    assert(recognised(devices@[i as int]) == Some(detected));
                    if detected.model == model {
                        if detected.connection == ConnectionMode::Wired {
                            return Some(detected);
                        }
                        wireless_match = Some(detected);
                    } else if device.product_id == WIRELESS_PRODUCT_ID {
                        wireless_match = Some(DetectedDevice { model, connection: ConnectionMode::Wireless });
                    } else if detected.model == DeviceModel::UnknownAdapter {
                        unknown_adapter = true;
                    }
                }
            }
            i += 1;
        }
        match wireless_match {
            Some(found) => Some(found),
            None => if unknown_adapter {
                Some(DetectedDevice { model, connection: ConnectionMode::Wireless })
            } else {
                None
            },
        }
    }
}

/// A model that the user selects is found through any receiver of the
/// wireless product, whatever revision it reports, unless the model itself
/// is connected by cable.
pub proof fn lemma_selected_model_found_through_receiver(devices: Seq<HidDeviceEntry>, model: DeviceModel, i: int)
    requires
        0 <= i < devices.len(),
        is_configuration_entry(devices[i]),
        devices[i].product_id == WIRELESS_PRODUCT_ID,
    ensures
        model_detection(devices, model) is Some,
        model_detection(devices, model)->0.model == model,
{
    assert(serves_as_receiver(devices[i], model));
}

/// The first recognised wired device of a prefix is that of the whole list.
proof fn lemma_first_wired_prefix(devices: Seq<HidDeviceEntry>, n: int)
    requires
        0 < n <= devices.len(),
        first_wired(devices.take(n)) is Some,
    ensures
        first_wired(devices) == first_wired(devices.take(n)),
    decreases devices.len() - n,
{
    if n < devices.len() {
        assert(devices.take(n + 1).drop_last() == devices.take(n));
        lemma_first_wired_prefix(devices, n + 1);
    } else {
        assert(devices.take(n) == devices);
    }
}


/// Which receiver revisions a search for a device accepts.
#[derive(Clone, Copy, Debug, PartialEq, Eq, Structural)]
pub enum AdapterRule {
    /// Every revision.
    AnyRevision,
    /// The revisions that an R1 may be opened through.
    R1Adapter { allow_unknown_adapter: bool },
    /// The revisions that an X11 may be opened through.
    X11Adapter { allow_unknown_adapter: bool },
    /// The known revisions of the R1 and X11 receivers.
    KnownAdapter,
}

/// Whether `rule` accepts a receiver of revision `release_number`.
pub open spec fn accepts_revision(rule: AdapterRule, release_number: u16) -> bool {
    match rule {
        AdapterRule::AnyRevision => true,
        AdapterRule::R1Adapter { allow_unknown_adapter } => release_number != X11_WIRELESS_VERSION
            && (allow_unknown_adapter || release_number == R1_WIRELESS_VERSION),
        AdapterRule::X11Adapter { allow_unknown_adapter } => allow_unknown_adapter
            || release_number == X11_WIRELESS_VERSION,
        AdapterRule::KnownAdapter => release_number == R1_WIRELESS_VERSION
            || release_number == X11_WIRELESS_VERSION,
    }
}

/// A configuration interface of the product `product_id` whose revision
/// `rule` accepts.
pub open spec fn is_wanted(entry: HidDeviceEntry, product_id: u16, rule: AdapterRule) -> bool {
    is_configuration_entry(entry) && entry.product_id == product_id && accepts_revision(rule, entry.release_number)
}

/// The position of the first wanted device in `devices`.
pub open spec fn first_wanted(devices: Seq<HidDeviceEntry>, product_id: u16, rule: AdapterRule) -> Option<int>
    decreases devices.len(),
{
    if devices.len() == 0 {
        None
    } else if first_wanted(devices.drop_last(), product_id, rule) is Some {
        first_wanted(devices.drop_last(), product_id, rule)
    } else if is_wanted(devices.last(), product_id, rule) {
        Some(devices.len() - 1)
    } else {
        None
    }
}

/// Whether `rule` accepts a receiver of revision `release_number`.
pub fn revision_accepted(rule: AdapterRule, release_number: u16) -> (b: bool)
    ensures
        b == accepts_revision(rule, release_number),
{
    match rule {
        AdapterRule::AnyRevision => true,
        AdapterRule::R1Adapter { allow_unknown_adapter } => supports_r1_adapter(release_number, allow_unknown_adapter),
        AdapterRule::X11Adapter { allow_unknown_adapter } => crate::x11::supports_x11_adapter(
            release_number,
            allow_unknown_adapter,
        ),
        AdapterRule::KnownAdapter => release_number == R1_WIRELESS_VERSION || release_number
            == X11_WIRELESS_VERSION,
    }
}

/// The first wanted device of a prefix is that of the whole list.
proof fn lemma_first_wanted_prefix(devices: Seq<HidDeviceEntry>, product_id: u16, rule: AdapterRule, n: int)
    requires
        0 <= n <= devices.len(),
        first_wanted(devices.take(n), product_id, rule) is Some,
    ensures
        first_wanted(devices, product_id, rule) == first_wanted(devices.take(n), product_id, rule),
    decreases devices.len() - n,
{
    if n < devices.len() {
        assert(devices.take(n + 1).drop_last() == devices.take(n));
        lemma_first_wanted_prefix(devices, product_id, rule, n + 1);
    } else {
        assert(devices.take(n) == devices);
    }
}

/// Finds the position of the first wanted device.
pub fn find_device(devices: &Vec<HidDeviceEntry>, product_id: u16, rule: AdapterRule) -> (r: Option<usize>)
    ensures
        r matches Some(i) ==> first_wanted(devices@, product_id, rule) == Some(i as int),
        r is None ==> first_wanted(devices@, product_id, rule) is None,
{
    let mut i: usize = 0;
    while i < devices.len()
        invariant
            0 <= i <= devices.len(),
            first_wanted(devices@.take(i as int), product_id, rule) is None,
        decreases devices.len() - i,
    {
        let device = devices[i];
        assert(devices@.take(i + 1).drop_last() == devices@.take(i as int));
        assert(devices@.take(i + 1).last() == device);
        if is_configuration_device(&device) && device.product_id == product_id
            && revision_accepted(rule, device.release_number) {
            proof {
                lemma_first_wanted_prefix(devices@, product_id, rule, i as int + 1);
            }
            return Some(i);
        }
        i += 1;
    }
    assert(devices@.take(devices.len() as int) == devices@);
    None
}

/// The device to open a mouse through, and whether it is the mouse itself
/// connected by cable.
#[derive(Clone, Copy, Debug, PartialEq, Eq, Structural)]
pub struct DeviceChoice {
    pub index: usize,
    pub wired: bool,
}

/// The device to open a mouse through: the first one of the wired product,
/// or else the first receiver whose revision `rule` accepts.
pub open spec fn device_choice(
    devices: Seq<HidDeviceEntry>,
    wired_product_id: u16,
    rule: AdapterRule,
) -> Option<DeviceChoice> {
    if first_wanted(devices, wired_product_id, AdapterRule::AnyRevision) is Some {
        Some(DeviceChoice {
            index: first_wanted(devices, wired_product_id, AdapterRule::AnyRevision)->0 as usize,
            wired: true,
        })
    } else if first_wanted(devices, WIRELESS_PRODUCT_ID, rule) is Some {
        Some(DeviceChoice { index: first_wanted(devices, WIRELESS_PRODUCT_ID, rule)->0 as usize, wired: false })
    } else {
        None
    }
}

fn choose_device(devices: &Vec<HidDeviceEntry>, wired_product_id: u16, rule: AdapterRule) -> (r: Result<DeviceChoice>)
    ensures
        r is Ok <==> device_choice(devices@, wired_product_id, rule) is Some,
        r matches Ok(c) ==> device_choice(devices@, wired_product_id, rule) == Some(c),
        r matches Err(e) ==> e == DriverError::DeviceNotFound,
{
    if let Some(index) = find_device(devices, wired_product_id, AdapterRule::AnyRevision) {
        return Ok(DeviceChoice { index, wired: true });
    }
    if let Some(index) = find_device(devices, WIRELESS_PRODUCT_ID, rule) {
        return Ok(DeviceChoice { index, wired: false });
    }
    Err(DriverError::DeviceNotFound)
}

/// The device to open an R1 through: the R1 connected by cable, or else the
/// first receiver that may serve an R1.
pub fn r1_device_choice(devices: &Vec<HidDeviceEntry>, allow_unknown_adapter: bool) -> (r: Result<DeviceChoice>)
    ensures
        r is Ok <==> device_choice(devices@, WIRED_PRODUCT_ID, AdapterRule::R1Adapter { allow_unknown_adapter }) is Some,
        r matches Ok(c) ==> device_choice(devices@, WIRED_PRODUCT_ID, AdapterRule::R1Adapter { allow_unknown_adapter }) == Some(c),
        r matches Ok(c) ==> c.index < devices@.len() && (!c.wired ==> devices@[c.index as int].release_number
            != X11_WIRELESS_VERSION),
        r matches Err(e) ==> e == DriverError::DeviceNotFound,
{
    let r = choose_device(devices, WIRED_PRODUCT_ID, AdapterRule::R1Adapter { allow_unknown_adapter });
    let count = devices.len();
    proof {
        lemma_first_wanted_is_wanted(devices@, WIRED_PRODUCT_ID, AdapterRule::AnyRevision);
        lemma_first_wanted_is_wanted(devices@, WIRELESS_PRODUCT_ID, AdapterRule::R1Adapter { allow_unknown_adapter });
        if let Ok(c) = r {
            if c.wired {
                let i = first_wanted(devices@, WIRED_PRODUCT_ID, AdapterRule::AnyRevision)->0;
                assert(c.index == i);
            } else {
                let i = first_wanted(devices@, WIRELESS_PRODUCT_ID, AdapterRule::R1Adapter { allow_unknown_adapter })->0;
                assert(c.index == i);
                assert(is_wanted(devices@[i], WIRELESS_PRODUCT_ID, AdapterRule::R1Adapter { allow_unknown_adapter }));
            }
        }
    }
    r
}

/// The device to open an X11 through: the X11 connected by cable, or else
/// the first receiver that may serve an X11.
pub fn x11_device_choice(devices: &Vec<HidDeviceEntry>, allow_unknown_adapter: bool) -> (r: Result<DeviceChoice>)
    ensures
        r is Ok <==> device_choice(devices@, X11_WIRED_PRODUCT_ID, AdapterRule::X11Adapter { allow_unknown_adapter }) is Some,
        r matches Ok(c) ==> device_choice(devices@, X11_WIRED_PRODUCT_ID, AdapterRule::X11Adapter { allow_unknown_adapter }) == Some(c),
        r matches Err(e) ==> e == DriverError::DeviceNotFound,
{
    choose_device(devices, X11_WIRED_PRODUCT_ID, AdapterRule::X11Adapter { allow_unknown_adapter })
}

/// The first wanted device is wanted.
pub proof fn lemma_first_wanted_is_wanted(devices: Seq<HidDeviceEntry>, product_id: u16, rule: AdapterRule)
    ensures
        first_wanted(devices, product_id, rule) matches Some(i) ==> 0 <= i < devices.len()
            && is_wanted(devices[i], product_id, rule),
    decreases devices.len(),
{
    if devices.len() > 0 {
        lemma_first_wanted_is_wanted(devices.drop_last(), product_id, rule);
    }
}


/// The charge, in percent, that a report of the given model announces.
pub open spec fn report_charge(model: DeviceModel, report: Seq<u8>) -> Option<u8> {
    if report.len() < 5 {
        None
    } else if model == DeviceModel::R1 && report[4] <= 10 {
        Some((report[4] * 10) as u8)
    } else if model == DeviceModel::X11 && report[0] == 0x03 && report[1] == 0x55 && report[2] == 0x40
        && report[3] == 0x01 && report[4] <= 100 {
        Some(report[4])
    } else {
        None
    }
}

/// The active DPI profile that an X11 report announces.
pub open spec fn report_active_dpi(report: Seq<u8>) -> Option<u8> {
    if report.len() >= 4 && report[0] == 0x03 && report[1] == 0x55 && report[2] == 0x10 && 1 <= report[3] <= 6 {
        Some(report[3])
    } else {
        None
    }
}

/// Reads the battery charge from a report that a receiver sent: the R1
/// sends tenths in byte 4, the X11 sends percents after a fixed header.
pub fn battery_charge_from_report(model: DeviceModel, report: &[u8]) -> (r: Option<u8>)
    ensures
        r == report_charge(model, report@),
        r matches Some(charge) ==> charge <= 100,
{
    if report.len() < 5 {
        return None;
    }
    match model {
        DeviceModel::R1 => if report[4] <= 10 {
            Some(report[4] * 10)
        } else {
            None
        },
        DeviceModel::X11 => if report[0] == 0x03 && report[1] == 0x55 && report[2] == 0x40 && report[3] == 0x01
            && report[4] <= 100 {
            Some(report[4])
        } else {
            None
        },
        DeviceModel::UnknownAdapter => None,
    }
}

/// Reads the active DPI profile from a report that an X11 receiver sent.
pub fn x11_active_dpi_from_report(report: &[u8]) -> (r: Option<u8>)
    ensures
        r == report_active_dpi(report@),
        r matches Some(profile) ==> 1 <= profile <= 6,
{
    if report.len() < 4 {
        return None;
    }
    let active_dpi = report[3];
    if report[0] == 0x03 && report[1] == 0x55 && report[2] == 0x10 && 1 <= active_dpi && active_dpi <= 6 {
        Some(active_dpi)
    } else {
        None
    }
}

/// What the battery monitor last learned from a receiver.
#[derive(Clone, Copy, Debug)]
pub struct BatteryStatus {
    pub model: DeviceModel,
    pub charge: Option<u8>,
    pub active_dpi: Option<u8>,
}

/// What the monitor knows after a report: a charge report replaces the
/// charge and keeps the active profile; on an X11, a profile report replaces
/// the profile and keeps the charge; other reports change nothing.
pub open spec fn status_after_report(
    status: Option<BatteryStatus>,
    model: DeviceModel,
    report: Seq<u8>,
) -> Option<BatteryStatus> {
    let old_dpi = if status is Some { status->0.active_dpi } else { None };
    let old_charge = if status is Some { status->0.charge } else { None };
    if report_charge(model, report) is Some {
        Some(BatteryStatus { model, charge: report_charge(model, report), active_dpi: old_dpi })
    } else if model == DeviceModel::X11 && report_active_dpi(report) is Some {
        Some(BatteryStatus { model, charge: old_charge, active_dpi: report_active_dpi(report) })
    } else {
        status
    }
}

/// What the monitor can know: nothing, or a status from a known model with a
/// charge of at most 100 percent (a multiple of 10 from an R1), a profile
/// from 1 to 6, and at least one of the two.
pub open spec fn status_wf(status: Option<BatteryStatus>) -> bool {
    match status {
        None => true,
        Some(s) => {
            &&& (s.model == DeviceModel::R1 || s.model == DeviceModel::X11)
            &&& (s.charge matches Some(c) ==> c <= 100 && (s.model == DeviceModel::R1 ==> c % 10 == 0))
            &&& (s.active_dpi matches Some(a) ==> 1 <= a <= 6)
            &&& (s.charge is Some || s.active_dpi is Some)
        },
    }
}

/// What the monitor knows after a run of reports, each read with the model
/// it was taken for, since it last knew nothing.
pub open spec fn status_after_reports(steps: Seq<(DeviceModel, Seq<u8>)>) -> Option<BatteryStatus>
    decreases steps.len(),
{
    if steps.len() == 0 {
        None
    } else {
        status_after_report(status_after_reports(steps.drop_last()), steps.last().0, steps.last().1)
    }
}

/// Whatever reports the monitor reads, and for whatever model, what it knows
/// stays well formed.
pub proof fn lemma_monitor_status_stays_wf(steps: Seq<(DeviceModel, Seq<u8>)>)
    ensures
        status_wf(status_after_reports(steps)),
    decreases steps.len(),
{
    if steps.len() > 0 {
        lemma_monitor_status_stays_wf(steps.drop_last());
        lemma_status_after_report_wf(status_after_reports(steps.drop_last()), steps.last().0, steps.last().1);
    }
}

/// One report keeps what the monitor knows well formed.
pub proof fn lemma_status_after_report_wf(status: Option<BatteryStatus>, model: DeviceModel, report: Seq<u8>)
    requires
        status_wf(status),
    ensures
        status_wf(status_after_report(status, model, report)),
{
    if report.len() >= 5 && model == DeviceModel::R1 && report[4] <= 10 {
        assert((report[4] * 10) as u8 % 10 == 0);
    }
}

impl BatteryStatus {
    /// Updates what the monitor knows with a report from a receiver of the
    /// given model.
    pub fn after_report(status: Option<BatteryStatus>, model: DeviceModel, report: &[u8]) -> (r: Option<BatteryStatus>)
        ensures
            r == status_after_report(status, model, report@),
            status_wf(status) ==> status_wf(r),
    {
        proof {
            if status_wf(status) {
                lemma_status_after_report_wf(status, model, report@);
            }
        }
        if let Some(charge) = battery_charge_from_report(model, report) {
            let active_dpi = match status {
                Some(s) => s.active_dpi,
                None => None,
            };
            Some(BatteryStatus { model, charge: Some(charge), active_dpi })
        } else if model == DeviceModel::X11 {
            if let Some(active_dpi) = x11_active_dpi_from_report(report) {
                let charge = match status {
                    Some(s) => s.charge,
                    None => None,
                };
                Some(BatteryStatus { model, charge, active_dpi: Some(active_dpi) })
            } else {
                status
            }
        } else {
            status
        }
    }
}

/// The charge that the monitor reports for a detected mouse: only for a
/// wireless one, and only what it learned from a receiver of that model.
pub open spec fn monitored_charge(detected: DetectedDevice, status: Option<BatteryStatus>) -> Option<u8> {
    if detected.connection == ConnectionMode::Wireless && status is Some && status->0.model == detected.model {
        status->0.charge
    } else {
        None
    }
}

/// The active profile that the monitor reports for a detected mouse: what it
/// learned from a receiver of that model.
pub open spec fn monitored_profile(detected: DetectedDevice, status: Option<BatteryStatus>) -> Option<u8> {
    if status is Some && status->0.model == detected.model {
        status->0.active_dpi
    } else {
        None
    }
}

impl DeviceService {
    /// The battery charge that the monitor last learned for a detected mouse.
    pub fn monitored_battery(detected: DetectedDevice, status: Option<BatteryStatus>) -> (r: Option<u8>)
        ensures
            r == monitored_charge(detected, status),
            status_wf(status) && r is Some ==> r->0 <= 100 && detected.connection == ConnectionMode::Wireless
                && (detected.model == DeviceModel::R1 || detected.model == DeviceModel::X11)
                && (detected.model == DeviceModel::R1 ==> r->0 % 10 == 0),
    {
        if detected.connection != ConnectionMode::Wireless {
            return None;
        }
        match status {
            Some(s) => if s.model == detected.model {
                s.charge
            } else {
                None
            },
            None => None,
        }
    }

    /// The active DPI profile that the monitor last learned for a detected mouse.
    pub fn monitored_active_dpi(detected: DetectedDevice, status: Option<BatteryStatus>) -> (r: Option<u8>)
        ensures
            r == monitored_profile(detected, status),
            status_wf(status) && r is Some ==> 1 <= r->0 <= 6
                && (detected.model == DeviceModel::R1 || detected.model == DeviceModel::X11),
    {
        match status {
            Some(s) => if s.model == detected.model {
                s.active_dpi
            } else {
                None
            },
            None => None,
        }
    }

    /// The receiver that the battery monitor listens to: the first receiver
    /// of a known R1 or X11 revision, and the mouse it serves.
    pub fn battery_monitor_target(devices: &Vec<HidDeviceEntry>) -> (r: Option<(usize, DetectedDevice)>)
        ensures
            r is Some <==> first_wanted(devices@, WIRELESS_PRODUCT_ID, AdapterRule::KnownAdapter) is Some,
            r matches Some((i, detected)) ==> first_wanted(devices@, WIRELESS_PRODUCT_ID, AdapterRule::KnownAdapter)
                == Some(i as int) && Some(detected) == recognised(devices@[i as int]),
            r matches Some((i, detected)) ==> detected.connection == ConnectionMode::Wireless
                && detected.model != DeviceModel::UnknownAdapter,
    {
        match find_device(devices, WIRELESS_PRODUCT_ID, AdapterRule::KnownAdapter) {
            Some(i) => {
                proof {
                    lemma_first_wanted_is_wanted(devices@, WIRELESS_PRODUCT_ID, AdapterRule::KnownAdapter);
                }
                let device = devices[i];
                match classify_device(device.product_id, device.release_number) {
                    Some(detected) => Some((i, detected)),
                    None => None,
                }
            },
            None => None,
        }
    }
}

/// The model whose reports the monitor reads: the one chosen by the user,
/// or else the one of the receiver.
pub fn monitored_model(model_override: Option<DeviceModel>, detected: DetectedDevice) -> (m: DeviceModel)
    ensures
        m == (if model_override is Some { model_override->0 } else { detected.model }),
{
    match model_override {
        Some(model) => model,
        None => detected.model,
    }
}

/// The message of the error for a status report that is too short.
pub open spec fn short_status_message(received: nat) -> Seq<char> {
    "expected at least 5 status bytes, received "@ + crate::text::decimal(received)
}

/// Reads the battery charge from a status report of an R1 receiver: byte 4
/// holds tenths of the full charge.
pub fn status_charge(report: &[u8]) -> (r: Result<u8>)
    requires
        report@.len() >= 5 ==> report@[4] <= 25,
    ensures
        r is Ok <==> report@.len() >= 5,
        r matches Ok(charge) ==> charge == report@[4] * 10,
        r matches Err(e) ==> crate::error::is_report_error(e, short_status_message(report@.len())),
{
    let transferred = report.len();
    if transferred < 5 {
        return Err(
            DriverError::InvalidReport(
                with_decimal("expected at least 5 status bytes, received ", transferred as u64),
            ),
        );
    }
    Ok(report[4] * 10)
}

/// How many times a command is sent to a receiver before giving up.
pub const SEND_ATTEMPTS: u8 = 3;

/// An acknowledgement from a receiver accepts a command: nothing was
/// received, or byte 2 of the reply is 0x50.
pub open spec fn accepts_command(reply: Seq<u8>) -> bool {
    reply.len() == 0 || (reply.len() >= 3 && reply[2] == 0x50)
}

/// What to do after a command was sent.
#[derive(Debug)]
pub enum SendStep {
    /// The command is done.
    Done,
    /// Wait for the receiver's acknowledgement.
    AwaitAcknowledgement,
    /// Send the command again.
    Resend,
    /// Give up with this error.
    Fail(DriverError),
}

/// What to do once a command was sent: a mouse connected by cable needs no
/// acknowledgement; a receiver's is awaited.
pub fn step_after_send(wired: bool) -> (step: SendStep)
    ensures
        wired ==> step is Done,
        !wired ==> step is AwaitAcknowledgement,
{
    if wired {
        SendStep::Done
    } else {
        SendStep::AwaitAcknowledgement
    }
}

/// What to do with the receiver's reply to attempt `attempt` (counted from
/// 0): done when it accepts the command, else send again until the third
/// attempt, then give up.
pub fn step_after_reply(attempt: u8, reply: &[u8]) -> (step: SendStep)
    requires
        attempt < SEND_ATTEMPTS,
    ensures
        accepts_command(reply@) ==> step is Done,
        !accepts_command(reply@) && attempt + 1 < SEND_ATTEMPTS ==> step is Resend,
        !accepts_command(reply@) && attempt + 1 >= SEND_ATTEMPTS ==> (step matches SendStep::Fail(e)
            && crate::error::is_report_error(e, "receiver did not return a command acknowledgement"@)),
{
    let transferred = reply.len();
    if transferred == 0 || (transferred >= 3 && reply[2] == 0x50) {
        return SendStep::Done;
    }
    if attempt + 1 < SEND_ATTEMPTS {
        SendStep::Resend
    } else {
        SendStep::Fail(
            DriverError::InvalidReport(String::from_str("receiver did not return a command acknowledgement")),
        )
    }
}


/// The cabled products are the X11 (0xfa55) and the R1 (0xfa61); the
/// receiver (0xfa60) is wireless, an X11's when it reports revision 0x1108,
/// an R1's when it reports 0x1105, and of an unknown mouse otherwise; no
/// other product is a mouse.
pub proof fn lemma_classification_products(product_id: u16, release_number: u16)
    ensures
        product_id == 0xfa55 ==> classification(product_id, release_number) == Some(
            DetectedDevice { model: DeviceModel::X11, connection: ConnectionMode::Wired },
        ),
        product_id == 0xfa61 ==> classification(product_id, release_number) == Some(
            DetectedDevice { model: DeviceModel::R1, connection: ConnectionMode::Wired },
        ),
        product_id == 0xfa60 && release_number == 0x1108 ==> classification(product_id, release_number) == Some(
            DetectedDevice { model: DeviceModel::X11, connection: ConnectionMode::Wireless },
        ),
        product_id == 0xfa60 && release_number == 0x1105 ==> classification(product_id, release_number) == Some(
            DetectedDevice { model: DeviceModel::R1, connection: ConnectionMode::Wireless },
        ),
        product_id == 0xfa60 && release_number != 0x1105 && release_number != 0x1108 ==> classification(
            product_id,
            release_number,
        ) == Some(DetectedDevice { model: DeviceModel::UnknownAdapter, connection: ConnectionMode::Wireless }),
        product_id != 0xfa55 && product_id != 0xfa61 && product_id != 0xfa60 ==> classification(
            product_id,
            release_number,
        ) is None,
{
}

/// An R1 reports its charge in tenths in byte 4, from 0 to 10; an X11 in
/// percent in byte 4, from 0 to 100, after the header 03 55 40 01; a report
/// shorter than 5 bytes, or from an unknown receiver, carries no charge.
pub proof fn lemma_report_charge_units(model: DeviceModel, report: Seq<u8>)
    ensures
        report.len() < 5 || model == DeviceModel::UnknownAdapter ==> report_charge(model, report) is None,
        report.len() >= 5 && model == DeviceModel::R1 ==> (report_charge(model, report) is Some <==> report[4] <= 10),
        report.len() >= 5 && model == DeviceModel::R1 && report[4] <= 10 ==> report_charge(model, report)->0
            == report[4] * 10,
        report.len() >= 5 && model == DeviceModel::X11 ==> (report_charge(model, report) is Some <==> (report[0]
            == 0x03 && report[1] == 0x55 && report[2] == 0x40 && report[3] == 0x01 && report[4] <= 100)),
        report.len() >= 5 && model == DeviceModel::X11 && report_charge(model, report) is Some ==> report_charge(
            model,
            report,
        )->0 == report[4],
        report_active_dpi(report) is Some <==> (report.len() >= 4 && report[0] == 0x03 && report[1] == 0x55
            && report[2] == 0x10 && 1 <= report[3] <= 6),
        report_active_dpi(report) is Some ==> report_active_dpi(report)->0 == report[3],
{
}

} // verus!
