use attack_shark::device::{
    battery_charge_from_report, classify_device, r1_device_choice, step_after_reply, step_after_send,
    status_charge, supports_r1_adapter, x11_active_dpi_from_report, x11_device_choice, BatteryStatus,
    ConnectionMode, DetectedDevice, DeviceChoice, DeviceModel, DeviceService, HidDeviceEntry, SendStep,
    R1_WIRELESS_VERSION, X11_WIRELESS_VERSION,
};
use attack_shark::error::DriverError;

#[test]
fn identifies_wired_models_and_documented_adapter_revisions() {
    assert_eq!(classify_device(0xfa55, 0x0102).unwrap().model, DeviceModel::X11);
    assert_eq!(classify_device(0xfa61, 0x0103).unwrap().model, DeviceModel::R1);
    assert_eq!(classify_device(0xfa60, 0x1108).unwrap().model, DeviceModel::X11);
    assert_eq!(classify_device(0xfa60, 0x1105).unwrap().model, DeviceModel::R1);
    assert_eq!(classify_device(0xfa60, 0x1100).unwrap().model, DeviceModel::UnknownAdapter);
}

#[test]
fn never_opens_a_known_x11_adapter_as_r1() {
    assert!(supports_r1_adapter(R1_WIRELESS_VERSION, false));
    assert!(supports_r1_adapter(0x1200, true));
    assert!(!supports_r1_adapter(0x1200, false));
    assert!(!supports_r1_adapter(X11_WIRELESS_VERSION, true));
}

#[test]
fn decodes_model_specific_battery_reports() {
    assert_eq!(battery_charge_from_report(DeviceModel::R1, &[3, 0, 0, 0, 8]), Some(80));
    assert_eq!(battery_charge_from_report(DeviceModel::X11, &[3, 0x55, 0x40, 1, 73]), Some(73));
    assert_eq!(battery_charge_from_report(DeviceModel::X11, &[3, 0, 0, 0, 73]), None);
    assert_eq!(x11_active_dpi_from_report(&[3, 0x55, 0x10, 4, 0]), Some(4));
    assert_eq!(x11_active_dpi_from_report(&[3, 0x55, 0x10, 7, 0]), None);
    assert_eq!(x11_active_dpi_from_report(&[]), None);
    assert_eq!(x11_active_dpi_from_report(&[3, 0x55, 0x10]), None);
}

fn entry(product_id: u16, release_number: u16) -> HidDeviceEntry {
    HidDeviceEntry { vendor_id: 0x1d57, product_id, release_number, interface_number: 2 }
}

#[test]
fn classifies_unknown_products_as_nothing() {
    assert_eq!(classify_device(0x1234, 0x1105), None);
    assert_eq!(
        classify_device(0xfa60, 0x1105),
        Some(DetectedDevice { model: DeviceModel::R1, connection: ConnectionMode::Wireless })
    );
}

#[test]
fn rejects_battery_reports_out_of_range() {
    assert_eq!(battery_charge_from_report(DeviceModel::R1, &[3, 0, 0, 0, 11]), None);
    assert_eq!(battery_charge_from_report(DeviceModel::R1, &[3, 0, 0, 0]), None);
    assert_eq!(battery_charge_from_report(DeviceModel::R1, &[3, 0, 0, 0, 10]), Some(100));
    assert_eq!(battery_charge_from_report(DeviceModel::X11, &[3, 0x55, 0x40, 1, 101]), None);
    assert_eq!(battery_charge_from_report(DeviceModel::UnknownAdapter, &[3, 0x55, 0x40, 1, 50]), None);
    assert_eq!(x11_active_dpi_from_report(&[3, 0x55, 0x10, 0]), None);
    assert_eq!(x11_active_dpi_from_report(&[3, 0x55, 0x10, 6]), Some(6));
}

#[test]
fn detection_prefers_a_wired_mouse() {
    let devices = vec![entry(0xfa60, 0x1108), entry(0xfa61, 0x0103), entry(0xfa55, 0x0102)];
    assert_eq!(
        DeviceService::detect_among(&devices),
        Some(DetectedDevice { model: DeviceModel::R1, connection: ConnectionMode::Wired })
    );
}

#[test]
fn detection_reports_the_last_receiver() {
    let devices = vec![entry(0xfa60, 0x1108), entry(0xfa60, 0x1105)];
    assert_eq!(
        DeviceService::detect_among(&devices),
        Some(DetectedDevice { model: DeviceModel::R1, connection: ConnectionMode::Wireless })
    );
    assert_eq!(DeviceService::detect_among(&vec![]), None);
}

#[test]
fn detection_ignores_other_interfaces_and_vendors() {
    let devices = vec![
        HidDeviceEntry { vendor_id: 0x1d57, product_id: 0xfa61, release_number: 1, interface_number: 0 },
        HidDeviceEntry { vendor_id: 0x1234, product_id: 0xfa61, release_number: 1, interface_number: 2 },
    ];
    assert_eq!(DeviceService::detect_among(&devices), None);
}

#[test]
fn manual_model_selection_takes_precedence_for_receivers() {
    let devices = vec![entry(0xfa60, 0x1105)];
    assert_eq!(
        DeviceService::detect_model_among(&devices, DeviceModel::X11),
        Some(DetectedDevice { model: DeviceModel::X11, connection: ConnectionMode::Wireless })
    );
    let wired = vec![entry(0xfa60, 0x1105), entry(0xfa55, 0x0102)];
    assert_eq!(
        DeviceService::detect_model_among(&wired, DeviceModel::X11),
        Some(DetectedDevice { model: DeviceModel::X11, connection: ConnectionMode::Wired })
    );
    let other = vec![entry(0xfa61, 0x0103)];
    assert_eq!(DeviceService::detect_model_among(&other, DeviceModel::X11), None);
}

#[test]
fn opens_the_wired_r1_before_a_receiver() {
    let devices = vec![entry(0xfa60, 0x1105), entry(0xfa61, 0x0103)];
    assert_eq!(r1_device_choice(&devices, false).unwrap(), DeviceChoice { index: 1, wired: true });
    let receivers = vec![entry(0xfa60, 0x1108), entry(0xfa60, 0x1200)];
    assert!(matches!(r1_device_choice(&receivers, false), Err(DriverError::DeviceNotFound)));
    assert_eq!(r1_device_choice(&receivers, true).unwrap(), DeviceChoice { index: 1, wired: false });
    assert_eq!(x11_device_choice(&receivers, false).unwrap(), DeviceChoice { index: 0, wired: false });
    assert!(matches!(x11_device_choice(&vec![], true), Err(DriverError::DeviceNotFound)));
}

#[test]
fn monitor_listens_to_known_receivers_only() {
    let devices = vec![entry(0xfa60, 0x1200), entry(0xfa61, 0x0103), entry(0xfa60, 0x1108)];
    assert_eq!(
        DeviceService::battery_monitor_target(&devices),
        Some((2, DetectedDevice { model: DeviceModel::X11, connection: ConnectionMode::Wireless }))
    );
    assert_eq!(DeviceService::battery_monitor_target(&vec![entry(0xfa60, 0x1200)]), None);
}

#[test]
fn battery_status_keeps_what_a_report_does_not_say() {
    let status = BatteryStatus::after_report(None, DeviceModel::X11, &[3, 0x55, 0x10, 4, 0]);
    let status = BatteryStatus::after_report(status, DeviceModel::X11, &[3, 0x55, 0x40, 1, 73]);
    let s = status.unwrap();
    assert_eq!(s.charge, Some(73));
    assert_eq!(s.active_dpi, Some(4));
    let unchanged = BatteryStatus::after_report(status, DeviceModel::X11, &[9, 9, 9, 9, 9]);
    assert_eq!(unchanged.unwrap().charge, Some(73));
    let r1 = BatteryStatus::after_report(None, DeviceModel::R1, &[3, 0x55, 0x10, 4, 11]);
    assert!(r1.is_none());
}

#[test]
fn monitored_values_match_the_detected_model() {
    let status = Some(BatteryStatus { model: DeviceModel::R1, charge: Some(60), active_dpi: Some(2) });
    let wireless = DetectedDevice { model: DeviceModel::R1, connection: ConnectionMode::Wireless };
    let wired = DetectedDevice { model: DeviceModel::R1, connection: ConnectionMode::Wired };
    let other = DetectedDevice { model: DeviceModel::X11, connection: ConnectionMode::Wireless };
    assert_eq!(DeviceService::monitored_battery(wireless, status), Some(60));
    assert_eq!(DeviceService::monitored_battery(wired, status), None);
    assert_eq!(DeviceService::monitored_battery(other, status), None);
    assert_eq!(DeviceService::monitored_active_dpi(wired, status), Some(2));
    assert_eq!(DeviceService::monitored_active_dpi(other, status), None);
    assert_eq!(DeviceService::monitored_active_dpi(wired, None), None);
}

#[test]
fn reads_r1_status_reports() {
    assert_eq!(status_charge(&[3, 0, 0, 0, 7]).unwrap(), 70);
    match status_charge(&[3, 0, 0]) {
        Err(DriverError::InvalidReport(m)) => assert_eq!(m, "expected at least 5 status bytes, received 3"),
        other => panic!("unexpected {other:?}"),
    }
}

#[test]
fn retries_unacknowledged_commands_three_times() {
    assert!(matches!(step_after_send(true), SendStep::Done));
    assert!(matches!(step_after_send(false), SendStep::AwaitAcknowledgement));
    assert!(matches!(step_after_reply(0, &[]), SendStep::Done));
    assert!(matches!(step_after_reply(0, &[0, 0, 0x50]), SendStep::Done));
    assert!(matches!(step_after_reply(0, &[0, 0, 0x51]), SendStep::Resend));
    assert!(matches!(step_after_reply(1, &[0, 0]), SendStep::Resend));
    match step_after_reply(2, &[0, 0, 0x51]) {
        SendStep::Fail(DriverError::InvalidReport(m)) => {
            assert_eq!(m, "receiver did not return a command acknowledgement")
        }
        other => panic!("unexpected {other:?}"),
    }
}

#[test]
fn monitor_status_stays_within_the_report_ranges() {
    let mut status = None;
    let reports: [(DeviceModel, &[u8]); 5] = [
        (DeviceModel::R1, &[3, 0, 0, 0, 9]),
        (DeviceModel::X11, &[3, 0x55, 0x10, 6, 0]),
        (DeviceModel::UnknownAdapter, &[3, 0x55, 0x40, 1, 50]),
        (DeviceModel::X11, &[3, 0x55, 0x40, 1, 200]),
        (DeviceModel::R1, &[3, 0, 0, 0, 40]),
    ];
    for (model, report) in reports {
        status = BatteryStatus::after_report(status, model, report);
        let s = status.unwrap();
        assert!(s.model == DeviceModel::R1 || s.model == DeviceModel::X11);
        assert!(s.charge.map_or(true, |c| c <= 100));
        assert!(s.active_dpi.map_or(true, |a| (1..=6).contains(&a)));
    }
    let s = status.unwrap();
    assert_eq!((s.model, s.charge, s.active_dpi), (DeviceModel::X11, Some(90), Some(6)));
}
