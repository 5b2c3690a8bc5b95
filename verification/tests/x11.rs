use attack_shark::config::{Config, LedMode, PollingRate, SleepTime};
use attack_shark::error::DriverError;
use attack_shark::protocol::polling_rate_packet;
use attack_shark::x11::{
    dpi_command, dpi_packet, polling_packet, preferences_command, preferences_packet,
    supports_x11_adapter, x11_dpi_value, X11_WIRELESS_VERSION,
};

fn minutes(value: f64) -> SleepTime {
    let quarters = value * 4.0;
    SleepTime { quarters: quarters.floor() as u64, whole: quarters.floor() == quarters }
}

fn config() -> Config {
    Config {
        polling_rate: PollingRate::Hz500,
        dpis: [800, 1600, 3200, 4000, 5000, 12_000],
        active_dpi: 3,
        sleep_time: minutes(6.0),
        deep_sleep_time: 12,
        key_response_time: 4,
        angle_snap: false,
        ripple_control: false,
        led_mode: LedMode::Disabled,
        led_color: [0, 255, 0],
        dpi_colors: [[255, 0, 0], [0, 255, 0], [0, 255, 255], [255, 0, 0], [0, 255, 255], [64, 0, 255]],
        led_speed: 3,
    }
}

#[test]
fn encodes_documented_x11_dpi_values() {
    assert_eq!(x11_dpi_value(50).unwrap(), 0x01);
    assert_eq!(x11_dpi_value(3_150).unwrap(), 0x4a);
    assert_eq!(x11_dpi_value(18_100).unwrap(), 0xd4);
    assert_eq!(x11_dpi_value(22_000).unwrap(), 0x81);
}

#[test]
fn builds_documented_polling_packets() {
    assert_eq!(polling_packet(PollingRate::Hz125), [0x06, 0x09, 0x01, 0x08, 0xf7, 0, 0, 0, 0]);
    assert_eq!(polling_packet(PollingRate::Hz1000), [0x06, 0x09, 0x01, 0x01, 0xfe, 0, 0, 0, 0]);
}

#[test]
fn builds_documented_preferences_packet() {
    assert_eq!(
        preferences_packet(&config()),
        [0x05, 0x0f, 0x01, 0, 0x03, 0xc8, 0, 0xff, 0, 0x0c, 0x02, 0x01, 0xd8, 0, 0]
    );
}

#[test]
fn encodes_documented_led_modes_without_overwriting_preferences() {
    let mut config = config();
    for (mode, value) in [(LedMode::Breathing, 0x20), (LedMode::Neon, 0x30), (LedMode::ColorBreathing, 0x40)] {
        config.led_mode = mode;
        let packet = preferences_packet(&config);
        assert_eq!(packet[3], value);
        assert_eq!(packet[9], 12);
        assert_eq!(packet[10], 2);
        assert_eq!(packet[12], packet[3..=10].iter().fold(0_u8, |sum, byte| sum.wrapping_add(*byte)));
    }
}

#[test]
fn builds_documented_dpi_packet() {
    let packet = dpi_packet(&config()).unwrap();
    assert_eq!(packet.len(), 56);
    assert_eq!(&packet[..14], &[0x04, 0x38, 0x01, 0, 0, 0x3f, 0, 0, 0x12, 0x25, 0x4b, 0x5e, 0x75, 0x8d]);
    assert_eq!(&packet[16..25], &[0, 0, 0, 0, 0, 1, 0, 0, 3]);
    assert_eq!(
        &packet[25..],
        &[
            0xff, 0, 0, 0, 0xff, 0, 0, 0xff, 0xff, 0xff, 0, 0, 0, 0xff, 0xff, 0x40, 0, 0xff, 0xff, 0x40, 0,
            0xff, 0xff, 0xff, 0, 0x0e, 0x99, 0, 0, 0, 0
        ]
    );
}

#[test]
fn sets_high_dpi_masks_and_flags() {
    let mut config = config();
    config.dpis = [50, 10_100, 12_100, 18_100, 20_100, 22_000];
    config.active_dpi = 6;
    config.angle_snap = true;
    config.ripple_control = true;
    let packet = dpi_packet(&config).unwrap();
    assert_eq!(&packet[3..14], &[1, 1, 0x3f, 0x3c, 0x3c, 1, 0x76, 0x8e, 0xd4, 0xeb, 0x81]);
    assert_eq!(&packet[16..22], &[0, 1, 0, 0, 1, 1]);
    assert_eq!(packet[24], 6);
}

#[test]
fn encodes_global_color_speed_and_stage_colors() {
    let mut config = config();
    config.led_mode = LedMode::Static;
    config.led_color = [0x12, 0x80, 0xff];
    config.led_speed = 5;
    config.dpi_colors[2] = [1, 2, 3];

    let preferences = preferences_packet(&config);
    assert_eq!(preferences[3], 0x10);
    assert_eq!(preferences[4] & 0x0f, 1);
    assert_eq!(&preferences[6..9], &[0x12, 0x80, 0xff]);
    assert_eq!(preferences[11], 2);

    let dpis = dpi_packet(&config).unwrap();
    assert_eq!(&dpis[31..34], &[1, 2, 3]);
    assert_eq!(dpis[49], 0);
}

#[test]
fn manual_model_selection_allows_shared_adapter_revisions() {
    assert!(supports_x11_adapter(X11_WIRELESS_VERSION, false));
    assert!(supports_x11_adapter(0x1200, true));
    assert!(!supports_x11_adapter(0x1200, false));
    assert!(supports_x11_adapter(0x1105, true));
    assert!(!supports_x11_adapter(0x1105, false));
}

#[test]
fn r1_and_x11_polling_packets_agree() {
    for rate in [PollingRate::Hz125, PollingRate::Hz250, PollingRate::Hz500, PollingRate::Hz1000] {
        assert_eq!(polling_rate_packet(rate), polling_packet(rate));
    }
}

#[test]
fn refuses_dpi_values_the_x11_has_no_byte_for() {
    match x11_dpi_value(125) {
        Err(DriverError::InvalidConfig(m)) => {
            assert_eq!(m, "X11 DPI must be 50-step up to 10000 or 100-step up to 22000; got 125")
        }
        other => panic!("unexpected {other:?}"),
    }
    assert!(x11_dpi_value(22_100).is_err());
    assert!(x11_dpi_value(0).is_err());
    assert_eq!(x11_dpi_value(150).unwrap(), 0x03);
    assert_eq!(x11_dpi_value(9_950).unwrap(), 0xea);
    let mut config = config();
    config.dpis[4] = 7;
    config.dpis[5] = 9;
    match dpi_packet(&config) {
        Err(DriverError::InvalidConfig(m)) => assert!(m.ends_with("got 7")),
        other => panic!("unexpected {other:?}"),
    }
}

#[test]
fn x11_dpi_checksum_is_the_sum_of_its_bytes() {
    let packet = dpi_packet(&config()).unwrap();
    let sum: u32 = packet[3..50].iter().map(|b| *b as u32).sum();
    assert_eq!(packet[50] as u32 * 256 + packet[51] as u32, sum % 65536);
}

#[test]
fn trims_commands_sent_over_the_cable() {
    let config = config();
    assert_eq!(preferences_command(&config, true).len(), 13);
    assert_eq!(preferences_command(&config, false).len(), 15);
    assert_eq!(preferences_command(&config, true)[..], preferences_packet(&config)[..13]);
    assert_eq!(dpi_command(&config, true).unwrap().len(), 52);
    assert_eq!(dpi_command(&config, false).unwrap()[..], dpi_packet(&config).unwrap()[..]);
}

#[test]
fn rounds_sleep_time_in_preferences() {
    let mut config = config();
    config.sleep_time = minutes(0.75);
    assert_eq!(preferences_packet(&config)[9], 2);
    config.sleep_time = minutes(0.7);
    assert_eq!(preferences_packet(&config)[9], 1);
    config.deep_sleep_time = 17;
    config.led_mode = LedMode::BreathingDpi;
    let packet = preferences_packet(&config);
    assert_eq!(packet[4], 0x13);
    assert_eq!(packet[5], 0x18);
    assert_eq!(packet[11], 2);
}
