use attack_shark::config::{Config, ConfigValues, LedMode, PollingRate, SleepTime};
use attack_shark::error::DriverError;

fn minutes(value: f64) -> SleepTime {
    let quarters = value * 4.0;
    SleepTime { quarters: quarters.floor() as u64, whole: quarters.floor() == quarters }
}

fn values() -> ConfigValues {
    ConfigValues {
        polling_rate: 1000,
        dpis: [800, 1600, 3200, 4000, 5000, 12000],
        active_dpi: 3,
        sleep_time: minutes(6.0),
        deep_sleep_time: 12,
        key_response_time: 4,
        angle_snap: false,
        ripple_control: true,
        led_mode: LedMode::Disabled,
        led_color: [0, 255, 0],
        dpi_colors: [[255, 0, 0]; 6],
        led_speed: 3,
    }
}

fn config_message(result: Result<Config, DriverError>) -> String {
    match result {
        Err(DriverError::InvalidConfig(m)) => m,
        other => panic!("unexpected {other:?}"),
    }
}

#[test]
fn accepts_complete_configuration_values() {
    let config = Config::from_values(values()).unwrap();
    assert_eq!(config.dpis, [800, 1600, 3200, 4000, 5000, 12000]);
    assert_eq!(config.active_dpi, 3);
    assert_eq!(config.polling_rate, PollingRate::Hz1000);
    assert!(config.ripple_control);
}

#[test]
fn reads_supported_polling_rates() {
    assert_eq!(PollingRate::from_hz(125).unwrap(), PollingRate::Hz125);
    assert_eq!(PollingRate::from_hz(250).unwrap(), PollingRate::Hz250);
    assert_eq!(PollingRate::from_hz(500).unwrap(), PollingRate::Hz500);
    assert_eq!(PollingRate::from_hz(1000).unwrap(), PollingRate::Hz1000);
    match PollingRate::from_hz(300) {
        Err(DriverError::InvalidConfig(m)) => assert_eq!(m, "polling_rate must be 125, 250, 500, or 1000; got 300"),
        other => panic!("unexpected {other:?}"),
    }
    assert_eq!(PollingRate::Hz125.protocol_value(), 0xf708);
    assert_eq!(PollingRate::Hz1000.protocol_value(), 0xfe01);
}

#[test]
fn validates_dpi_steps() {
    assert!(Config::validate_dpi(100).is_ok());
    assert!(Config::validate_dpi(18_000).is_ok());
    assert!(Config::validate_dpi(0).is_err());
    assert!(Config::validate_dpi(18_100).is_err());
    match Config::validate_dpi(150) {
        Err(DriverError::InvalidConfig(m)) => {
            assert_eq!(m, "DPI must be a multiple of 100 between 100 and 18000; got 150")
        }
        other => panic!("unexpected {other:?}"),
    }
}

#[test]
fn refuses_values_in_the_order_they_are_checked() {
    let mut v = values();
    v.polling_rate = 7;
    v.dpis[2] = 55;
    assert_eq!(config_message(Config::from_values(v)), "polling_rate must be 125, 250, 500, or 1000; got 7");

    let mut v = values();
    v.dpis[2] = 55;
    v.dpis[4] = 66;
    v.active_dpi = 0;
    assert_eq!(config_message(Config::from_values(v)), "DPI must be a multiple of 100 between 100 and 18000; got 55");

    let mut v = values();
    v.active_dpi = 7;
    assert_eq!(config_message(Config::from_values(v)), "active_dpi must be between 1 and 6");

    let mut v = values();
    v.sleep_time = minutes(30.1);
    assert_eq!(config_message(Config::from_values(v)), "sleep_time must be between 0.5 and 30");

    let mut v = values();
    v.deep_sleep_time = 61;
    assert_eq!(config_message(Config::from_values(v)), "deep_sleep_time must be between 1 and 60");

    let mut v = values();
    v.key_response_time = 5;
    assert_eq!(config_message(Config::from_values(v)), "key_response_time must be an even value between 4 and 50");
}

#[test]
fn sleep_time_bounds_are_inclusive() {
    assert!(minutes(0.5).is_in_range());
    assert!(minutes(30.0).is_in_range());
    assert!(!minutes(0.49).is_in_range());
    assert!(!minutes(30.01).is_in_range());
    assert!(!minutes(-1.0).is_in_range());
    assert!(!minutes(f64::NAN).is_in_range());
    assert_eq!(minutes(6.0).truncated_half_minutes(), 12);
    assert_eq!(minutes(1000.0).truncated_half_minutes(), 255);
    assert_eq!(minutes(2.75).rounded_half_minutes(), 6);
    assert_eq!(minutes(2.6).truncated_half_minutes(), 5);
    assert_eq!(SleepTime::from_quarters(24), minutes(6.0));
}

#[test]
fn error_messages_name_their_kind() {
    assert_eq!(DriverError::InvalidConfig("x".to_string()).message(), "invalid configuration: x");
    assert_eq!(DriverError::InvalidReport("y".to_string()).message(), "invalid mouse report: y");
    assert_eq!(DriverError::DeviceNotFound.message(), "no supported Attack Shark mouse was found");
}
