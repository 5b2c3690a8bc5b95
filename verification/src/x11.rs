//! Reports of the documented Attack Shark X11 protocol.

use vstd::prelude::*;

use crate::config::{Config, LedMode, PollingRate};
use crate::error::{DriverError, Result};
use crate::protocol::dpi_value;
use crate::text::with_decimal;

verus! {

/// The USB revision of the X11 wireless receiver.
pub const X11_WIRELESS_VERSION: u16 = 0x1108;

/// The X11 bytes for the DPI values 18100 through 20000, in steps of 100.
pub const HIGH_RANGE: [u8; 20] = [
    0xd4, 0xd6, 0xd7, 0xd8, 0xd9, 0xda, 0xdb, 0xdd, 0xde, 0xdf, 0xe0, 0xe1, 0xe3, 0xe4, 0xe5,
    0xe6, 0xe7, 0xe8, 0xea, 0xeb,
];

/// The X11 bytes for the DPI values 20100 through 22000, in steps of 100.
pub const EXTENDED_RANGE: [u8; 20] = [
    0xeb, 0x76, 0x76, 0x77, 0x77, 0x79, 0x79, 0x7a, 0x7a, 0x7b, 0x7b, 0x7c, 0x7c, 0x7d, 0x7d,
    0x7f, 0x7f, 0x80, 0x80, 0x81,
];

/// An X11 receiver of revision `release_number` may be opened: always when
/// unknown adapters are allowed, and otherwise only the known X11 revision.
pub fn supports_x11_adapter(release_number: u16, allow_unknown_adapter: bool) -> (b: bool)
    ensures
        b == (allow_unknown_adapter || release_number == X11_WIRELESS_VERSION),
{
    allow_unknown_adapter || release_number == X11_WIRELESS_VERSION
}

/// The byte that the X11 sends for a polling rate.
pub open spec fn polling_code(rate: PollingRate) -> u8 {
    match rate {
        PollingRate::Hz125 => 0x08,
        PollingRate::Hz250 => 0x04,
        PollingRate::Hz500 => 0x02,
        PollingRate::Hz1000 => 0x01,
    }
}

/// The X11 report that sets the polling rate: the code and its complement.
pub open spec fn polling_report(rate: PollingRate) -> Seq<u8> {
    seq![0x06, 0x09, 0x01, polling_code(rate), (0xff - polling_code(rate)) as u8, 0, 0, 0, 0]
}

/// Builds the X11 report that sets the polling rate.
pub fn polling_packet(rate: PollingRate) -> (packet: [u8; 9])
    ensures
        packet@ == polling_report(rate),
{
    let value: u8 = match rate {
        PollingRate::Hz125 => 0x08,
        PollingRate::Hz250 => 0x04,
        PollingRate::Hz500 => 0x02,
        PollingRate::Hz1000 => 0x01,
    };
    let packet: [u8; 9] = [0x06, 0x09, 0x01, value, 0xff - value, 0, 0, 0, 0];
    assert(packet@ =~= polling_report(rate));
    packet
}

/// The byte that the X11 uses for a DPI value, when it has one: 50, the
/// multiples of 50 up to 10000, and the multiples of 100 up to 22000.
pub open spec fn x11_dpi_code(dpi: u16) -> Option<u8> {
    if dpi == 50 {
        Some(0x01u8)
    } else if 100 <= dpi <= 10_000 && dpi % 100 == 0 {
        Some(crate::protocol::dpi_code(dpi))
    } else if 150 <= dpi < 10_000 && dpi % 100 != 0 && dpi % 50 == 0 {
        Some(
            if crate::protocol::dpi_code((dpi + 50) as u16) == 0 {
                0u8
            } else {
                (crate::protocol::dpi_code((dpi + 50) as u16) - 1) as u8
            },
        )
    } else if 10_100 <= dpi <= 18_000 && dpi % 100 == 0 {
        Some(crate::protocol::dpi_code(dpi))
    } else if 18_100 <= dpi <= 20_000 && dpi % 100 == 0 {
        Some(HIGH_RANGE@[(dpi - 18_100) / 100])
    } else if 20_100 <= dpi <= 22_000 && dpi % 100 == 0 {
        Some(EXTENDED_RANGE@[(dpi - 20_100) / 100])
    } else {
        None
    }
}

/// The message of the error for a DPI value that the X11 has no byte for.
pub open spec fn x11_dpi_message(dpi: u16) -> Seq<char> {
    "X11 DPI must be 50-step up to 10000 or 100-step up to 22000; got "@ + crate::text::decimal(dpi as nat)
}

/// The byte that the X11 uses for a DPI value.
pub fn x11_dpi_value(dpi: u16) -> (r: Result<u8>)
    ensures
        r is Ok <==> x11_dpi_code(dpi) is Some,
        r matches Ok(v) ==> x11_dpi_code(dpi) == Some(v),
        r matches Err(e) ==> crate::error::is_config_error(e, x11_dpi_message(dpi)),
{
    if dpi == 50 {
        return Ok(0x01);
    }
    if 100 <= dpi && dpi <= 10_000 && dpi % 100 == 0 {
        return Ok(dpi_value(dpi));
    }
    if 150 <= dpi && dpi < 10_000 && dpi % 100 != 0 && dpi % 50 == 0 {
        return Ok(dpi_value(dpi + 50).saturating_sub(1));
    }
    if 10_100 <= dpi && dpi <= 18_000 && dpi % 100 == 0 {
        return Ok(dpi_value(dpi));
    }
    if 18_100 <= dpi && dpi <= 20_000 && dpi % 100 == 0 {
        return Ok(HIGH_RANGE[((dpi - 18_100) / 100) as usize]);
    }
    if 20_100 <= dpi && dpi <= 22_000 && dpi % 100 == 0 {
        return Ok(EXTENDED_RANGE[((dpi - 20_100) / 100) as usize]);
    }
    Err(
        DriverError::InvalidConfig(
            with_decimal("X11 DPI must be 50-step up to 10000 or 100-step up to 22000; got ", dpi as u64),
        ),
    )
}


/// Whether a colour channel counts as lit in the preferences report.
pub open spec fn lit_channel(c: u8) -> u8 {
    if c >= 0x64 { 1 } else { 0 }
}

/// The settings that the X11 preferences report can encode: a deep sleep
/// time of at least one minute, an LED speed of at most 6 and a key response
/// time of at least 4 milliseconds.
pub open spec fn preferences_encodable(config: Config) -> bool {
    &&& config.deep_sleep_time >= 1
    &&& config.led_speed <= 6
    &&& config.key_response_time >= 4
}

/// Whether the X11 preferences report can encode the settings.
pub fn can_encode_preferences(config: &Config) -> (b: bool)
    ensures
        b == preferences_encodable(*config),
{
    config.deep_sleep_time >= 1 && config.led_speed <= 6 && config.key_response_time >= 4
}

/// Bytes 0 through 11 of the X11 preferences report, with zeros after them.
pub open spec fn preferences_body(config: Config) -> Seq<u8> {
    seq![
        0x05, 0x0f, 0x01,
        config.led_mode.code(),
        (((config.deep_sleep_time - 1) / 16) * 16 + (6 - config.led_speed)) as u8,
        ((8 + config.deep_sleep_time * 16) % 256) as u8,
        config.led_color@[0],
        config.led_color@[1],
        config.led_color@[2],
        config.sleep_time.half_minutes_rounded(),
        ((config.key_response_time - 4) / 2 + 2) as u8,
        (lit_channel(config.led_color@[0]) + lit_channel(config.led_color@[1])
            + lit_channel(config.led_color@[2]) + crate::protocol::flag(config.led_mode == LedMode::BreathingDpi)) as u8,
        0, 0, 0,
    ]
}

/// The X11 report that sets the LED effect, the timers and the key response
/// time. Byte 12 is the sum of bytes 3 through 10, modulo 256.
pub open spec fn preferences_report(config: Config) -> Seq<u8> {
    let body = preferences_body(config);
    body.update(12, (crate::protocol::byte_sum(body, 3, 11) % 256) as u8)
}

/// The byte that the X11 sends for an LED mode.
pub fn led_mode_value(mode: LedMode) -> (v: u8)
    ensures
        v == mode.code(),
        mode == LedMode::Disabled ==> v == 0x00,
        mode == LedMode::Static ==> v == 0x10,
        mode == LedMode::Breathing ==> v == 0x20,
        mode == LedMode::Neon ==> v == 0x30,
        mode == LedMode::ColorBreathing ==> v == 0x40,
        mode == LedMode::StaticDpi ==> v == 0x50,
        mode == LedMode::BreathingDpi ==> v == 0x60,
{
    match mode {
        LedMode::Disabled => 0,
        LedMode::Static => 0x10,
        LedMode::Breathing => 0x20,
        LedMode::Neon => 0x30,
        LedMode::ColorBreathing => 0x40,
        LedMode::StaticDpi => 0x50,
        LedMode::BreathingDpi => 0x60,
    }
}

/// Byte 4 of the preferences report: the deep sleep time's bucket of 16
/// minutes in the high nibble, and the inverted LED speed in the low nibble.
fn deep_sleep_and_speed(deep_sleep_time: u8, led_speed: u8) -> (v: u8)
    requires
        deep_sleep_time >= 1,
        led_speed <= 6,
    ensures
        v == ((deep_sleep_time - 1) / 16) * 16 + (6 - led_speed),
{
    let deep_sleep_bucket = (deep_sleep_time - 1) / 16;
    let speed = 6 - led_speed;
    assert(deep_sleep_bucket << 4 | speed == deep_sleep_bucket * 16 + speed) by (bit_vector)
        requires
            deep_sleep_bucket < 16,
            speed < 16,
    ;
    deep_sleep_bucket << 4 | speed
}

/// The number of lit colour channels.
fn lit_channels(color: &[u8; 3]) -> (n: u8)
    ensures
        n == lit_channel(color@[0]) + lit_channel(color@[1]) + lit_channel(color@[2]),
{
    let mut lit: u8 = 0;
    let mut channel: usize = 0;
    while channel < 3
        invariant
            0 <= channel <= 3,
            lit == (if channel > 0 { lit_channel(color@[0]) } else { 0 })
                + (if channel > 1 { lit_channel(color@[1]) } else { 0 })
                + (if channel > 2 { lit_channel(color@[2]) } else { 0 }),
        decreases 3 - channel,
    {
        if color[channel] >= 0x64 {
            lit += 1;
        }
        channel += 1;
    }
    lit
}

/// Builds the X11 report that sets the LED effect, the timers and the key
/// response time.
#[verifier::spinoff_prover]
pub fn preferences_packet(config: &Config) -> (packet: [u8; 15])
    requires
        preferences_encodable(*config),
    ensures
        packet@ == preferences_report(*config),
        packet@[12] == crate::protocol::byte_sum(packet@, 3, 11) % 256,
        config.led_mode == LedMode::Disabled ==> packet@[3] == 0x00,
        config.led_mode == LedMode::Static ==> packet@[3] == 0x10,
        config.led_mode == LedMode::Breathing ==> packet@[3] == 0x20,
        config.led_mode == LedMode::Neon ==> packet@[3] == 0x30,
        config.led_mode == LedMode::ColorBreathing ==> packet@[3] == 0x40,
        config.led_mode == LedMode::StaticDpi ==> packet@[3] == 0x50,
        config.led_mode == LedMode::BreathingDpi ==> packet@[3] == 0x60,
{
    let breathing_dpi: u8 = if config.led_mode == LedMode::BreathingDpi { 1 } else { 0 };
    let mut packet: [u8; 15] = [
        0x05,
        0x0f,
        0x01,
        led_mode_value(config.led_mode),
        deep_sleep_and_speed(config.deep_sleep_time, config.led_speed),
        0x08u8.wrapping_add(config.deep_sleep_time.wrapping_mul(16)),
        config.led_color[0],
        config.led_color[1],
        config.led_color[2],
        config.sleep_time.rounded_half_minutes(),
        (config.key_response_time - 4) / 2 + 2,
        lit_channels(&config.led_color) + breathing_dpi,
        0,
        0,
        0,
    ];
    assert(packet@ =~= preferences_body(*config));
    let sum = wrapping_sum_u8(&packet, 3, 11);
    packet[12] = sum;
    assert(packet@ =~= preferences_report(*config));
    proof {
        lemma_byte_sum_agree(packet@, preferences_body(*config), 3, 11);
    }
    packet
}

/// The sum of `bytes[lo]` through `bytes[hi - 1]`, wrapping at 256.
pub fn wrapping_sum_u8(bytes: &[u8; 15], lo: usize, hi: usize) -> (sum: u8)
    requires
        lo <= hi <= 15,
    ensures
        sum == crate::protocol::byte_sum(bytes@, lo as int, hi as int) % 256,
{
    let mut sum: u8 = 0;
    let mut i: usize = lo;
    while i < hi
        invariant
            lo <= i <= hi <= 15,
            sum == crate::protocol::byte_sum(bytes@, lo as int, i as int) % 256,
        decreases hi - i,
    {
        sum = sum.wrapping_add(bytes[i]);
        i += 1;
    }
    sum
}

/// Two sequences that agree on `lo` through `hi - 1` have the same sum there.
pub proof fn lemma_byte_sum_agree(a: Seq<u8>, b: Seq<u8>, lo: int, hi: int)
    requires
        0 <= lo,
        hi <= a.len(),
        hi <= b.len(),
        forall|i: int| lo <= i < hi ==> a[i] == b[i],
    ensures
        crate::protocol::byte_sum(a, lo, hi) == crate::protocol::byte_sum(b, lo, hi),
    decreases hi - lo,
{
    if hi > lo {
        lemma_byte_sum_agree(a, b, lo, hi - 1);
    }
}


/// The first DPI value of `dpis` that the X11 has no byte for.
pub open spec fn first_x11_invalid_dpi(dpis: Seq<u16>) -> Option<u16>
    decreases dpis.len(),
{
    if dpis.len() == 0 {
        None
    } else if x11_dpi_code(dpis[0]) is None {
        Some(dpis[0])
    } else {
        first_x11_invalid_dpi(dpis.drop_first())
    }
}

/// A DPI value that the X11 DPI report marks specially.
pub open spec fn is_marked_x11_dpi(dpi: u16) -> bool {
    (10_100 <= dpi <= 12_000) || (20_100 <= dpi <= 22_000)
}

/// The fixed bytes of the X11 DPI report.
pub open spec fn x11_dpi_template() -> Seq<u8> {
    seq![
        0x04, 0x38, 0x01, 0, 0, 0x3f, 0, 0, 0, 0, 0, 0, 0, 0, 0, 0, 0, 0, 0, 0, 0, 0, 0, 0, 0,
        0xff, 0, 0, 0, 0xff, 0, 0, 0, 0xff, 0xff, 0xff, 0, 0, 0xff, 0xff, 0xff, 0, 0xff, 0xff,
        0x40, 0, 0xff, 0xff, 0xff, 2, 0, 0, 0, 0, 0, 0,
    ]
}

/// The X11 DPI report without its checksum, for a configuration whose DPI
/// values all have X11 bytes.
pub open spec fn x11_dpi_body(config: Config) -> Seq<u8> {
    Seq::new(
        56,
        |i: int|
            if i == 3 {
                crate::protocol::flag(config.angle_snap)
            } else if i == 4 {
                crate::protocol::flag(config.ripple_control)
            } else if i == 6 || i == 7 {
                crate::protocol::stage_mask(config.dpis@, 6) as u8
            } else if 8 <= i < 14 {
                x11_dpi_code(config.dpis@[i - 8])->0
            } else if 16 <= i < 22 {
                crate::protocol::flag(is_marked_x11_dpi(config.dpis@[i - 16]))
            } else if i == 24 {
                config.active_dpi
            } else if 25 <= i < 43 {
                config.dpi_colors@[(i - 25) / 3]@[(i - 25) % 3]
            } else if i == 49 {
                0
            } else {
                x11_dpi_template()[i]
            },
    )
}

/// The X11 report that sets the six DPI profiles and their colours, the
/// active profile, ripple control and angle snapping. Bytes 50 and 51 hold
/// the sum of bytes 3 through 49, big-endian, modulo 65536.
pub open spec fn x11_dpi_report(config: Config) -> Seq<u8> {
    let body = x11_dpi_body(config);
    let sum = crate::protocol::byte_sum(body, 3, 50) % 65536;
    body.update(50, (sum / 256) as u8).update(51, (sum % 256) as u8)
}

/// The sum of `bytes[lo]` through `bytes[hi - 1]`, wrapping at 65536.
pub fn wrapping_sum_u16(bytes: &[u8; 56], lo: usize, hi: usize) -> (sum: u16)
    requires
        lo <= hi <= 56,
    ensures
        sum == crate::protocol::byte_sum(bytes@, lo as int, hi as int) % 65536,
{
    let mut sum: u16 = 0;
    let mut i: usize = lo;
    while i < hi
        invariant
            lo <= i <= hi <= 56,
            sum == crate::protocol::byte_sum(bytes@, lo as int, i as int) % 65536,
        decreases hi - i,
    {
        sum = sum.wrapping_add(bytes[i] as u16);
        i += 1;
    }
    sum
}

/// Builds the X11 report that sets the six DPI profiles and their colours,
/// the active profile, ripple control and angle snapping. It fails on the
/// first DPI value that the X11 has no byte for.
#[verifier::spinoff_prover]
pub fn dpi_packet(config: &Config) -> (r: Result<[u8; 56]>)
    ensures
        r is Ok <==> first_x11_invalid_dpi(config.dpis@) is None,
        r matches Ok(packet) ==> packet@ == x11_dpi_report(*config),
        r matches Ok(packet) ==> packet@[3] == (if config.angle_snap { 1u8 } else { 0u8 })
            && packet@[4] == (if config.ripple_control { 1u8 } else { 0u8 })
            && packet@[24] == config.active_dpi,
        r matches Ok(packet) ==> packet@[50] * 256 + packet@[51]
            == crate::protocol::byte_sum(packet@, 3, 50) % 65536,
        r matches Err(e) ==> crate::error::is_config_error(
            e,
            x11_dpi_message(first_x11_invalid_dpi(config.dpis@)->0),
        ),
{
    let mut packet: [u8; 56] = [
        0x04, 0x38, 0x01, 0, 0, 0x3f, 0, 0, 0, 0, 0, 0, 0, 0, 0, 0, 0, 0, 0, 0, 0, 0, 0, 0, 0,
        0xff, 0, 0, 0, 0xff, 0, 0, 0, 0xff, 0xff, 0xff, 0, 0, 0xff, 0xff, 0xff, 0, 0xff, 0xff,
        0x40, 0, 0xff, 0xff, 0xff, 2, 0, 0, 0, 0, 0, 0,
    ];
    assert(packet@ =~= x11_dpi_template());
    assert(config.dpis@.subrange(0, 6) == config.dpis@);
    let mut stage_mask: u8 = 0;
    let mut index: usize = 0;
    proof {
        vstd::arithmetic::power2::lemma2_to64();
    }
    while index < 6
        invariant
            0 <= index <= 6,
            first_x11_invalid_dpi(config.dpis@) == first_x11_invalid_dpi(config.dpis@.subrange(index as int, 6)),
            forall|k: int| 0 <= k < index ==> x11_dpi_code(#[trigger] config.dpis@[k]) is Some,
            forall|i: int|
                0 <= i < 56 && !(8 <= i < 8 + index) && !(16 <= i < 16 + index)
                    ==> packet@[i] == #[trigger] x11_dpi_template()[i],
            forall|k: int|
                0 <= k < index ==> packet@[8 + k] == x11_dpi_code(#[trigger] config.dpis@[k])->0
                    && packet@[16 + k] == crate::protocol::flag(is_marked_x11_dpi(config.dpis@[k])),
            stage_mask == crate::protocol::stage_mask(config.dpis@, index as int),
            crate::protocol::stage_mask(config.dpis@, index as int) < vstd::arithmetic::power2::pow2(index as nat),
        decreases 6 - index,
    {
        let dpi = config.dpis[index];
        assert(config.dpis@.subrange(index as int, 6).drop_first() == config.dpis@.subrange(index + 1, 6));
        assert(config.dpis@.subrange(index as int, 6)[0] == dpi);
        packet[8 + index] = match x11_dpi_value(dpi) {
            Ok(v) => v,
            Err(e) => return Err(e),
        };
        proof {
            vstd::arithmetic::power2::lemma_pow2_adds(index as nat, 1);
            vstd::arithmetic::power2::lemma2_to64();
        }
        if dpi > 12_000 {
            proof {
                crate::protocol::lemma_set_bit_adds(stage_mask, index as u8);
            }
            stage_mask |= 1u8 << (index as u8);
        }
        assert(x11_dpi_template()[16 + index as int] == 0);
        if (10_100 <= dpi && dpi <= 12_000) || (20_100 <= dpi && dpi <= 22_000) {
            packet[16 + index] = 1;
        }
        index += 1;
    }
    assert(config.dpis@.subrange(6, 6).len() == 0);
    packet[3] = if config.angle_snap { 1 } else { 0 };
    packet[4] = if config.ripple_control { 1 } else { 0 };
    packet[6] = stage_mask;
    packet[7] = stage_mask;
    packet[24] = config.active_dpi;
    let mut color: usize = 0;
    while color < 6
        invariant
            0 <= color <= 6,
            forall|i: int|
                0 <= i < 56 && !(8 <= i < 14) && !(16 <= i < 22) && i != 3 && i != 4 && i != 6
                    && i != 7 && i != 24 && !(25 <= i < 25 + 3 * color)
                    ==> packet@[i] == #[trigger] x11_dpi_template()[i],
            forall|k: int|
                0 <= k < 6 ==> packet@[8 + k] == x11_dpi_code(#[trigger] config.dpis@[k])->0
                    && packet@[16 + k] == crate::protocol::flag(is_marked_x11_dpi(config.dpis@[k])),
            packet@[3] == crate::protocol::flag(config.angle_snap),
            packet@[4] == crate::protocol::flag(config.ripple_control),
            packet@[6] == crate::protocol::stage_mask(config.dpis@, 6) as u8,
            packet@[7] == crate::protocol::stage_mask(config.dpis@, 6) as u8,
            packet@[24] == config.active_dpi,
            forall|i: int| 25 <= i < 25 + 3 * color ==> packet@[i] == #[trigger] config.dpi_colors@[(i - 25) / 3]@[(i - 25) % 3],
        decreases 6 - color,
    {
        let rgb = config.dpi_colors[color];
        packet[25 + color * 3] = rgb[0];
        packet[26 + color * 3] = rgb[1];
        packet[27 + color * 3] = rgb[2];
        color += 1;
    }
    // Continuous lighting follows in the preferences report; avoid the one-shot flash.
    packet[49] = 0;
    assert(packet@ =~= x11_dpi_body(*config));
    let checksum = wrapping_sum_u16(&packet, 3, 50);
    packet[50] = (checksum / 256) as u8;
    packet[51] = (checksum % 256) as u8;
    assert(packet@ =~= x11_dpi_report(*config));
    proof {
        lemma_byte_sum_agree(packet@, x11_dpi_body(*config), 3, 50);
    }
    Ok(packet)
}


/// The report number of the X11 polling rate report.
pub const POLLING_REPORT_VALUE: u16 = 0x0306;
/// The report number of the X11 preferences report.
pub const PREFERENCES_REPORT_VALUE: u16 = 0x0305;
/// The report number of the X11 DPI report.
pub const DPI_REPORT_VALUE: u16 = 0x0304;

/// The first `n` bytes of `bytes`, as a vector.
fn prefix_vec<const N: usize>(bytes: &[u8; N], n: usize) -> (v: Vec<u8>)
    requires
        n <= N,
    ensures
        v@ == bytes@.take(n as int),
{
    let mut v: Vec<u8> = Vec::new();
    let mut i: usize = 0;
    while i < n
        invariant
            0 <= i <= n <= N,
            bytes@.len() == N,
            v@ == bytes@.take(i as int),
        decreases n - i,
    {
        v.push(bytes[i]);
        i += 1;
        assert(v@ =~= bytes@.take(i as int));
    }
    v
}

/// The preferences report as the X11 takes it: 13 bytes over the cable and
/// all 15 through the receiver.
pub fn preferences_command(config: &Config, wired: bool) -> (command: Vec<u8>)
    requires
        preferences_encodable(*config),
    ensures
        command@ == preferences_report(*config).take(if wired { 13 } else { 15 }),
{
    let packet = preferences_packet(config);
    let length: usize = if wired { 13 } else { 15 };
    prefix_vec(&packet, length)
}

/// The DPI report as the X11 takes it: 52 bytes over the cable and all 56
/// through the receiver.
pub fn dpi_command(config: &Config, wired: bool) -> (r: Result<Vec<u8>>)
    ensures
        r is Ok <==> first_x11_invalid_dpi(config.dpis@) is None,
        r matches Ok(command) ==> command@ == x11_dpi_report(*config).take(if wired { 52 } else { 56 }),
        r matches Err(e) ==> crate::error::is_config_error(
            e,
            x11_dpi_message(first_x11_invalid_dpi(config.dpis@)->0),
        ),
{
    let packet = match dpi_packet(config) {
        Ok(packet) => packet,
        Err(e) => return Err(e),
    };
    let length: usize = if wired { 52 } else { 56 };
    Ok(prefix_vec(&packet, length))
}

/// The R1 and the X11 use the same polling rate report for every rate.
pub proof fn lemma_polling_reports_agree(rate: PollingRate)
    ensures
        crate::protocol::polling_rate_report(rate) == polling_report(rate),
{
    assert(crate::protocol::polling_rate_report(rate) =~= polling_report(rate));
}

/// On the DPI values of the R1 table, the X11 uses the R1 bytes.
pub proof fn lemma_x11_agrees_with_r1_table(dpi: u16)
    requires
        crate::config::valid_dpi(dpi),
    ensures
        x11_dpi_code(dpi) == Some(crate::protocol::dpi_code(dpi)),
{
}


/// Changing the LED mode changes only the mode byte, the lit-channel count
/// and the checksum of the preferences report: the timers and the key
/// response time stay as they were.
pub proof fn lemma_led_mode_keeps_other_preferences(a: Config, mode: LedMode)
    ensures
        ({
            let b = Config { led_mode: mode, ..a };
            forall|i: int| 0 <= i < 15 && i != 3 && i != 11 && i != 12
                ==> #[trigger] preferences_report(a)[i] == preferences_report(b)[i]
        }),
{
}


/// The X11 preferences report carries what it was asked to: byte 3 is the
/// LED mode (0x00, 0x10, 0x20, 0x30, 0x40, 0x50, 0x60 for disabled, static,
/// breathing, neon, colour breathing, static per DPI, breathing per DPI),
/// byte 4 holds the deep sleep time's bucket of 16 minutes in its high nibble
/// and 6 minus the LED speed in its low nibble, byte 5 is 8 plus 16 times the
/// deep sleep time modulo 256, bytes 6 to 8 are the LED colour, byte 9 is
/// twice the sleep time rounded half up (at most 255), byte 10 is 2 plus half
/// of the key response time above 4, and byte 11 counts the channels of at
/// least 0x64 plus one for breathing per DPI.
pub proof fn lemma_preferences_report_fields(config: Config)
    requires
        preferences_encodable(config),
    ensures
        ({
            let report = preferences_report(config);
            &&& report.len() == 15
            &&& report[0] == 0x05 && report[1] == 0x0f && report[2] == 0x01
            &&& config.led_mode == LedMode::Disabled ==> report[3] == 0x00
            &&& config.led_mode == LedMode::Static ==> report[3] == 0x10
            &&& config.led_mode == LedMode::Breathing ==> report[3] == 0x20
            &&& config.led_mode == LedMode::Neon ==> report[3] == 0x30
            &&& config.led_mode == LedMode::ColorBreathing ==> report[3] == 0x40
            &&& config.led_mode == LedMode::StaticDpi ==> report[3] == 0x50
            &&& config.led_mode == LedMode::BreathingDpi ==> report[3] == 0x60
            &&& report[4] / 16 == (config.deep_sleep_time - 1) / 16
            &&& report[4] % 16 == 6 - config.led_speed
            &&& report[5] == (8 + 16 * config.deep_sleep_time) % 256
            &&& report[6] == config.led_color@[0]
            &&& report[7] == config.led_color@[1]
            &&& report[8] == config.led_color@[2]
            &&& report[9] == (if (config.sleep_time.quarters + 1) / 2 > 255 {
                255
            } else {
                (config.sleep_time.quarters + 1) / 2
            })
            &&& report[10] == (config.key_response_time - 4) / 2 + 2
            &&& report[11] == (if config.led_color@[0] >= 0x64 { 1int } else { 0 }) + (if config.led_color@[1]
                >= 0x64 { 1int } else { 0 }) + (if config.led_color@[2] >= 0x64 { 1int } else { 0 }) + (if config.led_mode
                == LedMode::BreathingDpi { 1int } else { 0 })
            &&& report[12] == crate::protocol::byte_sum(report, 3, 11) % 256
        }),
{
    let body = preferences_body(config);
    lemma_byte_sum_agree(preferences_report(config), body, 3, 11);
}

/// The X11 polling rate report carries the rate's code and its complement:
/// 0x08 for 125, 0x04 for 250, 0x02 for 500 and 0x01 for 1000 reports per
/// second.
pub proof fn lemma_polling_report_codes(rate: PollingRate)
    ensures
        ({
            let report = polling_report(rate);
            &&& report.len() == 9
            &&& report[3] + report[4] == 0xff
            &&& rate.hz() == 125 ==> report[3] == 0x08
            &&& rate.hz() == 250 ==> report[3] == 0x04
            &&& rate.hz() == 500 ==> report[3] == 0x02
            &&& rate.hz() == 1000 ==> report[3] == 0x01
        }),
{
}

/// The X11 DPI report carries what it was asked to: byte 3 is 1 exactly when
/// angle snapping is on, byte 4 exactly when ripple control is on, bytes 6
/// and 7 both set bit `k` exactly for the profiles above 12000, bytes 8 to 13
/// are the X11 bytes of the six profiles, bytes 16 to 21 flag the profiles
/// from 10100 to 12000 and from 20100 to 22000, byte 24 is the active
/// profile, bytes 25 to 42 are the six profile colours in order, and byte 49
/// is 0.
pub proof fn lemma_x11_dpi_report_fields(config: Config)
    requires
        first_x11_invalid_dpi(config.dpis@) is None,
    ensures
        ({
            let report = x11_dpi_report(config);
            &&& report.len() == 56
            &&& report[0] == 0x04 && report[1] == 0x38 && report[2] == 0x01
            &&& report[3] == (if config.angle_snap { 1u8 } else { 0u8 })
            &&& report[4] == (if config.ripple_control { 1u8 } else { 0u8 })
            &&& report[6] == report[7]
            &&& forall|k: nat| k < 6 ==> (crate::protocol::bit_set(report[6] as int, k) <==> #[trigger] config.dpis@[k as int] > 12_000)
            &&& forall|k: int| 0 <= k < 6 ==> Some(report[8 + k]) == x11_dpi_code(#[trigger] config.dpis@[k])
            &&& forall|k: int| 0 <= k < 6 ==> report[16 + k] == (if (10_100 <= #[trigger] config.dpis@[k] <= 12_000)
                || (20_100 <= config.dpis@[k] <= 22_000) { 1u8 } else { 0u8 })
            &&& report[24] == config.active_dpi
            &&& forall|i: int, c: int| 0 <= i < 6 && 0 <= c < 3 ==> report[25 + 3 * i + c] == #[trigger] config.dpi_colors@[i]@[c]
            &&& report[49] == 0
        }),
{
    let report = x11_dpi_report(config);
    crate::protocol::lemma_stage_mask_bound(config.dpis@, 6);
    vstd::arithmetic::power2::lemma2_to64();
    lemma_first_x11_invalid_none(config.dpis@);
    assert forall|k: nat| k < 6 implies (crate::protocol::bit_set(report[6] as int, k) <==> #[trigger] config.dpis@[k as int] > 12_000) by {
        crate::protocol::lemma_stage_mask_bits(config.dpis@, k);
    }
    assert forall|i: int, c: int| 0 <= i < 6 && 0 <= c < 3 implies report[25 + 3 * i + c] == #[trigger] config.dpi_colors@[i]@[c] by {
        let j = 25 + 3 * i + c;
        assert((j - 25) / 3 == i && (j - 25) % 3 == c);
    }
}

/// When no DPI value lacks an X11 byte, every one has one.
pub proof fn lemma_first_x11_invalid_none(dpis: Seq<u16>)
    requires
        first_x11_invalid_dpi(dpis) is None,
    ensures
        forall|k: int| 0 <= k < dpis.len() ==> x11_dpi_code(#[trigger] dpis[k]) is Some,
    decreases dpis.len(),
{
    if dpis.len() > 0 {
        lemma_first_x11_invalid_none(dpis.drop_first());
        assert forall|k: int| 0 <= k < dpis.len() implies x11_dpi_code(#[trigger] dpis[k]) is Some by {
            if k > 0 {
                assert(dpis[k] == dpis.drop_first()[k - 1]);
            }
        }
    }
}


/// The X11 encodes 50 as 0x01, every multiple of 100 up to 18000 with the R1
/// table, and each odd multiple of 50 from 150 to 9950 one below the R1 byte
/// of the next multiple of 100; nothing that is not a multiple of 50 has a
/// byte, nor anything above 22000.
pub proof fn lemma_x11_dpi_code_steps(dpi: u16)
    ensures
        dpi == 50 ==> x11_dpi_code(dpi) == Some(0x01u8),
        100 <= dpi <= 18_000 && dpi % 100 == 0 ==> x11_dpi_code(dpi) == Some(
            crate::protocol::DPI_VALUES@[dpi / 100 - 1],
        ),
        150 <= dpi < 10_000 && dpi % 100 == 50 ==> x11_dpi_code(dpi) == Some(
            (crate::protocol::DPI_VALUES@[(dpi + 50) / 100 - 1] - 1) as u8,
        ),
        dpi % 50 != 0 || dpi > 22_000 || dpi == 0 ==> x11_dpi_code(dpi) is None,
{
    if 150 <= dpi < 10_000 && dpi % 100 == 50 {
        assert(crate::protocol::DPI_VALUES@[(dpi + 50) / 100 - 1] > 0) by {
            assert forall|i: int| 0 <= i < 180 implies crate::protocol::DPI_VALUES@[i] > 0 by {}
        }
    }
}

} // verus!
