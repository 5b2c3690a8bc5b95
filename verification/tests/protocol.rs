use attack_shark::config::{PollingRate, SleepTime};
use attack_shark::protocol::{dpi_packet, dpi_value, polling_rate_packet, times_packet};

fn minutes(value: f64) -> SleepTime {
    let quarters = value * 4.0;
    SleepTime { quarters: quarters.floor() as u64, whole: quarters.floor() == quarters }
}

#[test]
fn matches_the_odin_dpi_encoding_boundaries() {
    assert_eq!(dpi_value(100), 0x02);
    assert_eq!(dpi_value(10_000), 0xeb);
    assert_eq!(dpi_value(10_100), 0x76);
    assert_eq!(dpi_value(12_000), 0x8d);
    assert_eq!(dpi_value(18_000), 0xd3);
}

#[test]
fn builds_the_odin_time_packet() {
    assert_eq!(
        times_packet(minutes(6.0), 12, 4),
        [0x05, 0x0f, 0x01, 0, 0x03, 0xc8, 0, 0, 0xff, 12, 2, 1, 0xd8, 0, 0]
    );
}

#[test]
fn builds_little_endian_polling_rate_packets() {
    assert_eq!(polling_rate_packet(PollingRate::Hz125), [0x06, 0x09, 0x01, 0x08, 0xf7, 0, 0, 0, 0]);
    assert_eq!(polling_rate_packet(PollingRate::Hz250), [0x06, 0x09, 0x01, 0x04, 0xfb, 0, 0, 0, 0]);
    assert_eq!(polling_rate_packet(PollingRate::Hz500), [0x06, 0x09, 0x01, 0x02, 0xfd, 0, 0, 0, 0]);
    assert_eq!(polling_rate_packet(PollingRate::Hz1000), [0x06, 0x09, 0x01, 0x01, 0xfe, 0, 0, 0, 0]);
}

#[test]
fn builds_the_odin_dpi_packet() {
    let packet = dpi_packet([800, 1600, 3200, 4000, 5000, 12000], 3, false, false);
    assert_eq!(packet.len(), 56);
    assert_eq!(&packet[6..14], &[0, 0, 0x12, 0x25, 0x4b, 0x5e, 0x75, 0x8d]);
    assert_eq!(&packet[16..22], &[0, 0, 0, 0, 0, 1]);
    assert_eq!(packet[24], 3);
    assert_eq!(&packet[50..52], &[0x0f, 0x5a]);
}

fn byte_sum(bytes: &[u8]) -> u32 {
    bytes.iter().map(|b| *b as u32).sum()
}

#[test]
fn dpi_packet_checksum_is_the_sum_of_its_bytes() {
    let packet = dpi_packet([100, 10_100, 12_100, 18_000, 400, 500], 6, true, true);
    let checksum = byte_sum(&packet[3..50]);
    assert_eq!(packet[50] as u32 * 256 + packet[51] as u32, checksum);
    assert_eq!(&packet[3..8], &[1, 1, 0x3f, 0x0c, 0x0c]);
    assert_eq!(&packet[16..22], &[0, 1, 0, 0, 0, 0]);
}

#[test]
fn time_packet_checksum_is_the_sum_of_its_bytes() {
    let packet = times_packet(minutes(30.0), 33, 50);
    assert_eq!(packet[9], 60);
    assert_eq!(packet[10], 25);
    assert_eq!(packet[4], 0x23);
    assert_eq!(packet[5], 0x18);
    assert_eq!(packet[12], 143);
    assert_eq!(packet[12] as u32, byte_sum(&packet[3..11]) % 256);
}

#[test]
fn time_packet_truncates_half_minutes() {
    assert_eq!(times_packet(minutes(0.7), 1, 4)[9], 1);
    assert_eq!(times_packet(minutes(1.5), 1, 4)[9], 3);
}

#[test]
fn dpi_table_rises_within_each_encoding_range() {
    for dpi in (100..10_000).step_by(100) {
        assert!(dpi_value(dpi) < dpi_value(dpi + 100));
    }
    for dpi in (10_100..18_000).step_by(100) {
        assert!(dpi_value(dpi) < dpi_value(dpi + 100));
    }
    assert!(dpi_value(10_100) < dpi_value(10_000));
}
