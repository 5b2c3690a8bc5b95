use attack_shark::config::{Config, LedMode, PollingRate, SleepTime};
use attack_shark::device::{ConnectionMode, DetectedDevice, DeviceModel};
use attack_shark::gui::{
    connection_name, has_hidraw_rule, status_model, model_name, resolve_model, rule_file_satisfies, selected_model,
    udev_install_command, udev_rule_for, validate_shared_config,
};

#[test]
fn reads_model_selections() {
    assert_eq!(selected_model(None).unwrap(), None);
    assert_eq!(selected_model(Some("auto")).unwrap(), None);
    assert_eq!(selected_model(Some("r1")).unwrap(), Some(DeviceModel::R1));
    assert_eq!(selected_model(Some("x11")).unwrap(), Some(DeviceModel::X11));
    assert_eq!(selected_model(Some("X11")).unwrap_err(), "unsupported mouse model selection");
}

#[test]
fn resolves_the_model_to_configure() {
    assert_eq!(resolve_model(DeviceModel::R1, None).unwrap(), DeviceModel::R1);
    assert_eq!(resolve_model(DeviceModel::R1, Some("x11")).unwrap(), DeviceModel::X11);
    assert_eq!(resolve_model(DeviceModel::UnknownAdapter, Some("r1")).unwrap(), DeviceModel::R1);
    assert!(resolve_model(DeviceModel::UnknownAdapter, Some("auto")).unwrap_err().starts_with("the wireless adapter"));
    assert_eq!(resolve_model(DeviceModel::X11, Some("mouse")).unwrap_err(), "unsupported mouse model selection");
}

fn config() -> Config {
    Config {
        polling_rate: PollingRate::Hz500,
        dpis: [800, 1600, 3200, 4000, 5000, 12_000],
        active_dpi: 3,
        sleep_time: SleepTime::from_quarters(24),
        deep_sleep_time: 12,
        key_response_time: 4,
        angle_snap: false,
        ripple_control: false,
        led_mode: LedMode::Disabled,
        led_color: [0, 255, 0],
        dpi_colors: [[0, 0, 0]; 6],
        led_speed: 3,
    }
}

#[test]
fn validates_shared_settings() {
    assert!(validate_shared_config(&config()).is_ok());
    let mut c = config();
    c.active_dpi = 0;
    assert_eq!(validate_shared_config(&c).unwrap_err(), "active DPI must be between 1 and 6");
    let mut c = config();
    c.sleep_time = SleepTime::from_quarters(1);
    assert_eq!(validate_shared_config(&c).unwrap_err(), "sleep time must be between 0.5 and 30 minutes");
    let mut c = config();
    c.deep_sleep_time = 0;
    assert_eq!(validate_shared_config(&c).unwrap_err(), "deep sleep time must be between 1 and 60 minutes");
    let mut c = config();
    c.key_response_time = 52;
    assert_eq!(validate_shared_config(&c).unwrap_err(), "key response time must be an even value between 4 and 50 ms");
}

const RULE: &str = "SUBSYSTEM==\"usb\", ATTRS{idVendor}==\"1d57\", ATTRS{idProduct}==\"fa60\", MODE=\"0660\"\nKERNEL==\"hidraw*\", ATTRS{idVendor}==\"1d57\", ATTRS{idProduct}==\"fa60\", MODE=\"0660\"\n";

#[test]
fn recognises_hidraw_rules() {
    assert!(has_hidraw_rule(RULE, "fa60"));
    assert!(!has_hidraw_rule(RULE, "fa61"));
    assert!(!has_hidraw_rule("ATTRS{idVendor}==\"1d57\", ATTRS{idProduct}==\"fa60\"", "fa60"));
    assert!(rule_file_satisfies("other.rules", RULE, "99-attack-shark-r1.rules", Some("fa60")));
    assert!(!rule_file_satisfies("other.rules", RULE, "99-attack-shark-r1.rules", None));
    assert!(rule_file_satisfies("99-attack-shark-r1.rules", RULE, "99-attack-shark-r1.rules", None));
}

#[test]
fn names_the_udev_rule_of_each_mouse() {
    assert_eq!(udev_rule_for(DeviceModel::R1, Some(ConnectionMode::Wired)), ("99-attack-shark-r1.rules", Some("fa61")));
    assert_eq!(udev_rule_for(DeviceModel::X11, Some(ConnectionMode::Wired)), ("99-attack-shark-x11.rules", Some("fa55")));
    assert_eq!(udev_rule_for(DeviceModel::X11, Some(ConnectionMode::Wireless)), ("99-attack-shark-x11.rules", Some("fa60")));
    assert_eq!(udev_rule_for(DeviceModel::R1, None), ("99-attack-shark-r1.rules", None));
    assert_eq!(udev_rule_for(DeviceModel::UnknownAdapter, None), ("99-attack-shark-x11.rules", Some("fa60")));
    assert_eq!(
        udev_install_command("99-attack-shark-r1.rules"),
        "sudo install -Dm644 99-attack-shark-r1.rules /etc/udev/rules.d/99-attack-shark-r1.rules && sudo udevadm control --reload-rules && sudo udevadm trigger --subsystem-match=usb --attr-match=idVendor=1d57 && sudo udevadm trigger --subsystem-match=hidraw"
    );
}

#[test]
fn names_models_and_connections() {
    assert_eq!(model_name(DeviceModel::R1), "r1");
    assert_eq!(model_name(DeviceModel::X11), "x11");
    assert_eq!(model_name(DeviceModel::UnknownAdapter), "adapter");
    assert_eq!(connection_name(None), "unknown");
    assert_eq!(
        connection_name(Some(DetectedDevice { model: DeviceModel::R1, connection: ConnectionMode::Wired })),
        "wired"
    );
    assert_eq!(
        connection_name(Some(DetectedDevice { model: DeviceModel::R1, connection: ConnectionMode::Wireless })),
        "wireless"
    );
}

#[test]
fn status_shows_the_detected_model_first() {
    let detected = DetectedDevice { model: DeviceModel::X11, connection: ConnectionMode::Wired };
    assert_eq!(status_model(Some(detected), Some(DeviceModel::R1)), Some(DeviceModel::X11));
    assert_eq!(status_model(None, Some(DeviceModel::R1)), Some(DeviceModel::R1));
    assert_eq!(status_model(None, None), None);
}
