use attack_shark::cli::{apply_overrides, parse_dpi, Overrides};
use attack_shark::config::{Config, LedMode, PollingRate, SleepTime};
use attack_shark::error::DriverError;

fn config() -> Config {
    Config {
        polling_rate: PollingRate::Hz500,
        dpis: [800, 1600, 3200, 4000, 5000, 12_000],
        active_dpi: 3,
        sleep_time: SleepTime::from_quarters(24),
        deep_sleep_time: 12,
        key_response_time: 4,
        angle_snap: false,
        ripple_control: false,
        led_mode: LedMode::Disabled,
        led_color: [0, 255, 0],
        dpi_colors: [[0, 0, 0]; 6],
        led_speed: 3,
    }
}

fn no_overrides() -> Overrides {
    Overrides {
        polling_rate: None,
        key_response_time: None,
        sleep_time: None,
        deep_sleep_time: None,
        ripple_control: None,
        angle_snap: None,
        dpi: vec![],
        active_dpi: None,
    }
}

#[test]
fn parses_dpi_overrides() {
    assert_eq!(parse_dpi("3:3200").unwrap(), (3, 3200));
    assert_eq!(parse_dpi("6=18000").unwrap(), (6, 18000));
    assert_eq!(parse_dpi("+1:+100").unwrap(), (1, 100));
    assert_eq!(parse_dpi("1=2:300").unwrap_err(), "profile must be a number");
    assert_eq!(parse_dpi("3200").unwrap_err(), "expected PROFILE:DPI");
    assert_eq!(parse_dpi("a:3200").unwrap_err(), "profile must be a number");
    assert_eq!(parse_dpi(":3200").unwrap_err(), "profile must be a number");
    assert_eq!(parse_dpi("3:").unwrap_err(), "DPI must be a number");
    assert_eq!(parse_dpi("3:70000").unwrap_err(), "DPI must be a number");
    assert_eq!(parse_dpi("3:-1").unwrap_err(), "DPI must be a number");
    assert_eq!(parse_dpi("7:3200").unwrap_err(), "profile must be between 1 and 6");
    assert_eq!(parse_dpi("0:3200").unwrap_err(), "profile must be between 1 and 6");
    assert_eq!(
        parse_dpi("2:3250").unwrap_err(),
        "invalid configuration: DPI must be a multiple of 100 between 100 and 18000; got 3250"
    );
}

#[test]
fn applies_overrides_in_order() {
    let mut config = config();
    let mut overrides = no_overrides();
    overrides.polling_rate = Some(1000);
    overrides.key_response_time = Some(10);
    overrides.sleep_time = Some(SleepTime::from_quarters(2));
    overrides.deep_sleep_time = Some(60);
    overrides.active_dpi = Some(6);
    overrides.ripple_control = Some(true);
    overrides.angle_snap = Some(true);
    overrides.dpi = vec![(1, 100), (6, 18_000), (1, 200)];
    apply_overrides(&mut config, &overrides).unwrap();
    assert_eq!(config.polling_rate, PollingRate::Hz1000);
    assert_eq!(config.key_response_time, 10);
    assert_eq!(config.sleep_time, SleepTime::from_quarters(2));
    assert_eq!(config.deep_sleep_time, 60);
    assert_eq!(config.active_dpi, 6);
    assert!(config.ripple_control && config.angle_snap);
    assert_eq!(config.dpis, [200, 1600, 3200, 4000, 5000, 18_000]);
}

#[test]
fn refused_override_keeps_earlier_ones() {
    let mut config = config();
    let mut overrides = no_overrides();
    overrides.polling_rate = Some(250);
    overrides.deep_sleep_time = Some(0);
    overrides.active_dpi = Some(1);
    overrides.dpi = vec![(2, 100)];
    match apply_overrides(&mut config, &overrides) {
        Err(DriverError::InvalidConfig(m)) => assert_eq!(m, "deep_sleep_time must be between 1 and 60"),
        other => panic!("unexpected {other:?}"),
    }
    assert_eq!(config.polling_rate, PollingRate::Hz250);
    assert_eq!(config.active_dpi, 3);
    assert_eq!(config.dpis[1], 1600);
}

#[test]
fn reports_which_settings_change() {
    let mut overrides = no_overrides();
    assert!(!overrides.changes_polling_rate() && !overrides.changes_timers() && !overrides.changes_dpi_settings());
    overrides.sleep_time = Some(SleepTime::from_quarters(4));
    assert!(overrides.changes_timers());
    overrides.dpi = vec![(1, 100)];
    assert!(overrides.changes_dpi_settings());
    overrides.polling_rate = Some(125);
    assert!(overrides.changes_polling_rate());
}
