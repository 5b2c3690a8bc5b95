use vstd::prelude::*;

use crate::config::{PollingRate, SleepTime};
use crate::error::Result;

verus! {

/// The interface of the mouse that takes configuration reports.
pub const INTERFACE: u8 = 2;
/// The endpoint on which the receiver acknowledges commands.
pub const ACK_ENDPOINT: u8 = 0x83;
/// The USB request type of a configuration transfer.
pub const CONTROL_REQUEST_TYPE: u8 = 0x21;
/// The USB request of a configuration transfer.
pub const CONTROL_REQUEST: u8 = 0x09;

/// The byte that the device uses for each DPI step of 100, from 100 to 18000.
/// The device uses discrete values rather than a formula, notably changing
/// encoding after 10,000 DPI.
pub const DPI_VALUES: [u8; 180] = [
    0x02, 0x04, 0x06, 0x09, 0x0b, 0x0e, 0x10, 0x12, 0x15, 0x17, 0x19, 0x1c, 0x1e, 0x20, 0x23, 0x25,
    0x27, 0x2a, 0x2c, 0x2f, 0x31, 0x33, 0x36, 0x38, 0x3a, 0x3d, 0x3f, 0x41, 0x44, 0x46, 0x48, 0x4b,
    0x4d, 0x4f, 0x52, 0x54, 0x57, 0x59, 0x5b, 0x5e, 0x60, 0x62, 0x65, 0x67, 0x69, 0x6c, 0x6e, 0x70,
    0x73, 0x75, 0x77, 0x7a, 0x7c, 0x7f, 0x81, 0x83, 0x86, 0x88, 0x8a, 0x8d, 0x8f, 0x91, 0x94, 0x96,
    0x98, 0x9b, 0x9d, 0x9f, 0xa2, 0xa4, 0xa7, 0xa9, 0xab, 0xae, 0xb0, 0xb2, 0xb5, 0xb7, 0xb9, 0xbc,
    0xbe, 0xc0, 0xc3, 0xc5, 0xc7, 0xca, 0xcc, 0xcf, 0xd1, 0xd3, 0xd6, 0xd8, 0xda, 0xdd, 0xdf, 0xe1,
    0xe4, 0xe6, 0xe8, 0xeb, 0x76, 0x77, 0x79, 0x7a, 0x7b, 0x7c, 0x7d, 0x7f, 0x80, 0x81, 0x82, 0x83,
    0x84, 0x86, 0x87, 0x88, 0x89, 0x8a, 0x8b, 0x8d, 0x8e, 0x8f, 0x90, 0x91, 0x93, 0x94, 0x95, 0x96,
    0x97, 0x98, 0x9a, 0x9b, 0x9c, 0x9d, 0x9e, 0x9f, 0xa1, 0xa2, 0xa3, 0xa4, 0xa5, 0xa7, 0xa8, 0xa9,
    0xaa, 0xab, 0xac, 0xae, 0xaf, 0xb0, 0xb1, 0xb2, 0xb3, 0xb5, 0xb6, 0xb7, 0xb8, 0xb9, 0xbb, 0xbc,
    0xbd, 0xbe, 0xbf, 0xc0, 0xc2, 0xc3, 0xc4, 0xc5, 0xc6, 0xc7, 0xc9, 0xca, 0xcb, 0xcc, 0xcd, 0xcf,
    0xd0, 0xd1, 0xd2, 0xd3,
];

/// The byte that the device uses for a DPI value of the table.
pub open spec fn dpi_code(dpi: u16) -> u8 {
    DPI_VALUES@[dpi as int / 100 - 1]
}

/// The byte that the device uses for a DPI value.
pub fn dpi_value(dpi: u16) -> (v: u8)
    requires
        crate::config::valid_dpi(dpi),
    ensures
        v == dpi_code(dpi),
{
    DPI_VALUES[(dpi / 100 - 1) as usize]
}

/// Each entry of the DPI table from `lo` through `hi` is below the next one.
pub open spec fn table_rises(lo: int, hi: int) -> bool
    decreases hi - lo,
{
    if hi <= lo {
        true
    } else {
        DPI_VALUES@[lo] < DPI_VALUES@[lo + 1] && table_rises(lo + 1, hi)
    }
}

proof fn lemma_table_rises_join(lo: int, mid: int, hi: int)
    requires
        lo <= mid <= hi,
        table_rises(lo, mid),
        table_rises(mid, hi),
    ensures
        table_rises(lo, hi),
    decreases mid - lo,
{
    if lo < mid {
        lemma_table_rises_join(lo + 1, mid, hi);
    }
}

proof fn lemma_table_rises_between(lo: int, hi: int, i: int, j: int)
    requires
        table_rises(lo, hi),
        lo <= i < j <= hi,
    ensures
        DPI_VALUES@[i] < DPI_VALUES@[j],
    decreases j - lo,
{
    if i > lo {
        lemma_table_rises_between(lo + 1, hi, i, j);
    } else if j > lo + 1 {
        lemma_table_rises_between(lo + 1, hi, lo + 1, j);
    }
}

/// Within each of its two encoding ranges, 100 through 10000 and 10100
/// through 18000, the DPI table rises strictly; at the change of encoding
/// after 10000 it falls back.
pub proof fn lemma_dpi_code_rises_within_ranges(a: u16, b: u16)
    requires
        crate::config::valid_dpi(a),
        crate::config::valid_dpi(b),
        a < b,
        (b <= 10_000) || (10_100 <= a),
    ensures
        dpi_code(a) < dpi_code(b),
        dpi_code(10_100) < dpi_code(10_000),
{
    assert(table_rises(0, 25)) by {
        reveal_with_fuel(table_rises, 26);
    }
    assert(table_rises(25, 50)) by {
        reveal_with_fuel(table_rises, 26);
    }
    assert(table_rises(50, 75)) by {
        reveal_with_fuel(table_rises, 26);
    }
    assert(table_rises(75, 99)) by {
        reveal_with_fuel(table_rises, 26);
    }
    assert(table_rises(100, 140)) by {
        reveal_with_fuel(table_rises, 41);
    }
    assert(table_rises(140, 179)) by {
        reveal_with_fuel(table_rises, 41);
    }
    lemma_table_rises_join(0, 25, 50);
    lemma_table_rises_join(0, 50, 75);
    lemma_table_rises_join(0, 75, 99);
    lemma_table_rises_join(100, 140, 179);
    let i = a as int / 100 - 1;
    let j = b as int / 100 - 1;
    assert(i < j);
    if b <= 10_000 {
        lemma_table_rises_between(0, 99, i, j);
    } else {
        lemma_table_rises_between(100, 179, i, j);
    }
}

/// The R1 report that sets the polling rate: the rate's code, low byte first.
pub open spec fn polling_rate_report(rate: PollingRate) -> Seq<u8> {
    seq![0x06, 0x09, 0x01, (rate.protocol_code() % 256) as u8, (rate.protocol_code() / 256) as u8, 0, 0, 0, 0]
}

/// Builds the R1 report that sets the polling rate.
pub fn polling_rate_packet(rate: PollingRate) -> (packet: [u8; 9])
    ensures
        packet@ == polling_rate_report(rate),
{
    let mut packet: [u8; 9] = [0x06, 0x09, 0x01, 0x01, 0, 0, 0, 0, 0];
    let value = rate.protocol_value();
    packet[3] = (value % 256) as u8;
    packet[4] = (value / 256) as u8;
    assert(packet@ =~= polling_rate_report(rate));
    packet
}

/// The byte that precedes the sleep and key bytes in the sum that ends the
/// R1 timer report: the sum of the two nibbles of the deep sleep time, in
/// the high nibble, plus 0x0a.
pub open spec fn times_sum_base(deep_sleep: u8) -> int {
    (((deep_sleep % 16) + (deep_sleep / 16)) * 16) % 256 + 0x0a
}

/// The sum that ends the R1 timer report fits in a byte.
pub open spec fn times_sum_fits(sleep_time: SleepTime, deep_sleep: u8, key_response: u8) -> bool {
    times_sum_base(deep_sleep) + sleep_time.half_minutes_truncated() + key_response / 2 <= 255
}

/// Whether the sum that ends the R1 timer report fits in a byte.
pub fn times_fit(sleep_time: SleepTime, deep_sleep: u8, key_response: u8) -> (b: bool)
    ensures
        b == times_sum_fits(sleep_time, deep_sleep, key_response),
{
    let nibbles: u32 = (deep_sleep % 16) as u32 + (deep_sleep / 16) as u32;
    let base: u32 = (nibbles * 16) % 256 + 0x0a;
    base + sleep_time.truncated_half_minutes() as u32 + (key_response / 2) as u32 <= 255
}

/// The R1 report that sets the sleep time, the deep sleep time and the key
/// response time.
pub open spec fn times_report(sleep_time: SleepTime, deep_sleep: u8, key_response: u8) -> Seq<u8> {
    seq![
        0x05, 0x0f, 0x01, 0,
        (3 + (deep_sleep / 16) * 16) as u8,
        (8 + (deep_sleep % 16) * 16) as u8,
        0, 0, 0xff,
        sleep_time.half_minutes_truncated(),
        key_response / 2,
        0x01,
        (times_sum_base(deep_sleep) + sleep_time.half_minutes_truncated() + key_response / 2) as u8,
        0, 0,
    ]
}

/// The bit operations of the R1 timer report, as arithmetic.
proof fn lemma_times_bits(deep_sleep: u8)
    ensures
        0x03 | (deep_sleep & 0xf0) == 3 + (deep_sleep / 16) * 16,
        0x08 | ((deep_sleep & 0x0f) << 4) == 8 + (deep_sleep % 16) * 16,
        (deep_sleep & 0x0f) <= 15,
        ((deep_sleep >> 4) & 0x0f) <= 15,
        ((((deep_sleep & 0x0f) + ((deep_sleep >> 4) & 0x0f)) as u8) << 4) as int
            == (((deep_sleep % 16) + (deep_sleep / 16)) * 16) % 256,
{
    assert(0x03 | (deep_sleep & 0xf0) == 3 + (deep_sleep / 16) * 16) by (bit_vector);
    assert(0x08 | ((deep_sleep & 0x0f) << 4) == 8 + (deep_sleep % 16) * 16) by (bit_vector);
    assert((deep_sleep & 0x0f) <= 15 && ((deep_sleep >> 4) & 0x0f) <= 15) by (bit_vector);
    assert(((((deep_sleep & 0x0f) + ((deep_sleep >> 4) & 0x0f)) as u8) << 4) as int
        == (((deep_sleep % 16) + (deep_sleep / 16)) * 16) % 256) by (bit_vector);
}

/// Byte 12 of the R1 timer report is the sum of bytes 3 through 10, modulo 256.
#[verifier::spinoff_prover]
pub proof fn lemma_times_checksum(sleep_time: SleepTime, deep_sleep: u8, key_response: u8)
    requires
        times_sum_fits(sleep_time, deep_sleep, key_response),
    ensures
        times_report(sleep_time, deep_sleep, key_response)[12]
            == byte_sum(times_report(sleep_time, deep_sleep, key_response), 3, 11) % 256,
{
    let report = times_report(sleep_time, deep_sleep, key_response);
    let hi = deep_sleep / 16;
    let lo = deep_sleep % 16;
    let sleep = sleep_time.half_minutes_truncated();
    let key = key_response / 2;
    assert(report[3] == 0 && report[6] == 0 && report[7] == 0 && report[8] == 0xff);
    assert(report[4] == 3 + hi * 16);
    assert(report[5] == 8 + lo * 16);
    assert(report[9] == sleep && report[10] == key);
    assert(byte_sum(report, 3, 3) == 0);
    assert(byte_sum(report, 3, 4) == 0);
    assert(byte_sum(report, 3, 5) == report[4]);
    assert(byte_sum(report, 3, 6) == report[4] + report[5]);
    assert(byte_sum(report, 3, 7) == report[4] + report[5]);
    assert(byte_sum(report, 3, 8) == report[4] + report[5]);
    assert(byte_sum(report, 3, 9) == report[4] + report[5] + 0xff);
    assert(byte_sum(report, 3, 10) == report[4] + report[5] + 0xff + sleep);
    assert(byte_sum(report, 3, 11) == report[4] + report[5] + 0xff + sleep + key);
    lemma_times_sum_mod(lo as int, hi as int, sleep as int, key as int);
}

/// The arithmetic behind the R1 timer checksum.
proof fn lemma_times_sum_mod(lo: int, hi: int, sleep: int, key: int)
    requires
        0 <= lo < 16,
        0 <= hi < 16,
        0 <= sleep,
        0 <= key,
        ((lo + hi) * 16) % 256 + 10 + sleep + key <= 255,
    ensures
        ((lo + hi) * 16) % 256 + 10 + sleep + key
            == ((3 + hi * 16) + (8 + lo * 16) + 0xff + sleep + key) % 256,
{
    let t = (lo + hi) * 16;
    assert((3 + hi * 16) + (8 + lo * 16) + 0xff + sleep + key == t + 256 + 10 + sleep + key);
    assert((t + 256 + 10 + sleep + key) % 256 == (t % 256 + 10 + sleep + key) % 256) by (nonlinear_arith)
        requires
            0 <= t,
            0 <= sleep,
            0 <= key,
    ;
}

/// Builds the R1 report that sets the sleep time, the deep sleep time and the
/// key response time.
#[verifier::spinoff_prover]
pub fn times_packet(sleep_time: SleepTime, deep_sleep: u8, key_response: u8) -> (packet: [u8; 15])
    requires
        times_sum_fits(sleep_time, deep_sleep, key_response),
    ensures
        packet@ == times_report(sleep_time, deep_sleep, key_response),
        packet@[12] == byte_sum(packet@, 3, 11) % 256,
{
    let mut packet: [u8; 15] = [0x05, 0x0f, 0x01, 0, 0x03, 0x18, 0, 0, 0xff, 0x04, 0x02, 0x01, 0x20, 0, 0];
    proof {
        lemma_times_bits(deep_sleep);
    }
    packet[4] = 0x03 | (deep_sleep & 0xf0);
    packet[5] = 0x08 | ((deep_sleep & 0x0f) << 4);
    packet[9] = sleep_time.truncated_half_minutes();
    packet[10] = key_response / 2;
    packet[12] = (((deep_sleep & 0x0f) + ((deep_sleep >> 4) & 0x0f)) << 4) + 0x0a + packet[9] + packet[10];
    assert(packet@ =~= times_report(sleep_time, deep_sleep, key_response));
    proof {
        lemma_times_checksum(sleep_time, deep_sleep, key_response);
    }
    packet
}

/// The byte for a flag: 1 when it is set, 0 when it is not.
pub open spec fn flag(b: bool) -> u8 {
    if b { 1 } else { 0 }
}

/// A DPI value in the range that the DPI report marks specially.
pub open spec fn is_special_dpi(dpi: u16) -> bool {
    10_100 <= dpi <= 12_000
}

/// The mask of the first `n` DPI profiles above 12000: bit `k` is set when
/// profile `k` is above 12000.
pub open spec fn stage_mask(dpis: Seq<u16>, n: int) -> int
    decreases n,
{
    if n <= 0 {
        0
    } else {
        stage_mask(dpis, n - 1) + if dpis[n - 1] > 12_000 { vstd::arithmetic::power2::pow2((n - 1) as nat) as int } else { 0 }
    }
}

/// The sum of the table bytes and special-range flags of the first `n` profiles.
pub open spec fn dpi_bytes_sum(dpis: Seq<u16>, n: int) -> int
    decreases n,
{
    if n <= 0 {
        0
    } else {
        dpi_bytes_sum(dpis, n - 1) + dpi_code(dpis[n - 1]) + flag(is_special_dpi(dpis[n - 1]))
    }
}

/// The fixed bytes of the R1 DPI report.
pub open spec fn r1_dpi_template() -> Seq<u8> {
    seq![
        0x04, 0x38, 0x01, 0, 0, 0x3f, 0, 0, 2, 2, 2, 2, 2, 2, 0, 0, 0, 0, 0, 0, 0, 0, 0, 0, 1,
        0xff, 0, 0, 0, 0xff, 0, 0, 0, 0xff, 0xff, 0xff, 0, 0, 0xff, 0xff, 0xff, 0, 0xff, 0xff,
        0x40, 0, 0xff, 0xff, 0xff, 2, 0x0d, 0x75, 0, 0, 0, 0,
    ]
}

/// The checksum of the R1 DPI report.
pub open spec fn r1_dpi_checksum(dpis: Seq<u16>, active_dpi: u8, ripple_control: bool, angle_snap: bool) -> int {
    0x0d75 + dpi_bytes_sum(dpis, 6) + 2 * stage_mask(dpis, 6) + active_dpi - 1
        + flag(ripple_control) + flag(angle_snap)
}

/// The R1 report that sets the six DPI profiles, the active profile, ripple
/// control and angle snapping.
pub open spec fn r1_dpi_report(dpis: Seq<u16>, active_dpi: u8, ripple_control: bool, angle_snap: bool) -> Seq<u8> {
    let checksum = r1_dpi_checksum(dpis, active_dpi, ripple_control, angle_snap);
    Seq::new(
        56,
        |i: int|
            if i == 3 {
                flag(angle_snap)
            } else if i == 4 {
                flag(ripple_control)
            } else if i == 6 || i == 7 {
                stage_mask(dpis, 6) as u8
            } else if 8 <= i < 14 {
                dpi_code(dpis[i - 8])
            } else if 16 <= i < 22 {
                flag(is_special_dpi(dpis[i - 16]))
            } else if i == 24 {
                active_dpi
            } else if i == 50 {
                (checksum / 256) as u8
            } else if i == 51 {
                (checksum % 256) as u8
            } else {
                r1_dpi_template()[i]
            },
    )
}

/// Setting bit `k` of a value below `2^k` adds `2^k` to it.
pub proof fn lemma_set_bit_adds(a: u8, k: u8)
    requires
        k < 7,
        a < vstd::arithmetic::power2::pow2(k as nat),
    ensures
        (1u8 << k) == vstd::arithmetic::power2::pow2(k as nat),
        a | (1u8 << k) == a + vstd::arithmetic::power2::pow2(k as nat),
{
    vstd::bits::lemma_u8_pow2_no_overflow(k as nat);
    vstd::bits::lemma_u8_shl_is_mul(1, k);
    assert(a < (1u8 << k) && k < 8 ==> a | (1u8 << k) == a + (1u8 << k)) by (bit_vector);
}

/// Builds the R1 report that sets the six DPI profiles, the active profile,
/// ripple control and angle snapping.
#[verifier::spinoff_prover]
pub fn dpi_packet(dpis: [u16; 6], active_dpi: u8, ripple_control: bool, angle_snap: bool) -> (packet: [u8; 56])
    requires
        forall|k: int| 0 <= k < 6 ==> crate::config::valid_dpi(#[trigger] dpis@[k]),
        active_dpi >= 1,
    ensures
        packet@ == r1_dpi_report(dpis@, active_dpi, ripple_control, angle_snap),
        packet@[3] == (if angle_snap { 1u8 } else { 0u8 }),
        packet@[4] == (if ripple_control { 1u8 } else { 0u8 }),
        packet@[24] == active_dpi,
{
    let mut packet: [u8; 56] = [
        0x04, 0x38, 0x01, 0, 0, 0x3f, 0, 0, 2, 2, 2, 2, 2, 2, 0, 0, 0, 0, 0, 0, 0, 0, 0, 0, 1,
        0xff, 0, 0, 0, 0xff, 0, 0, 0, 0xff, 0xff, 0xff, 0, 0, 0xff, 0xff, 0xff, 0, 0xff, 0xff,
        0x40, 0, 0xff, 0xff, 0xff, 2, 0x0d, 0x75, 0, 0, 0, 0,
    ];
    assert(packet@ =~= r1_dpi_template());
    let mut checksum: u16 = 0x0d75;
    let mut above_12k: u8 = 0;
    let mut index: usize = 0;
    proof {
        vstd::arithmetic::power2::lemma2_to64();
    }
    while index < 6
        invariant
            0 <= index <= 6,
            forall|k: int| 0 <= k < 6 ==> crate::config::valid_dpi(#[trigger] dpis@[k]),
            forall|i: int|
                0 <= i < 56 && !(8 <= i < 8 + index) && !(16 <= i < 16 + index)
                    ==> packet@[i] == #[trigger] r1_dpi_template()[i],
            forall|k: int|
                0 <= k < index ==> packet@[8 + k] == dpi_code(#[trigger] dpis@[k])
                    && packet@[16 + k] == flag(is_special_dpi(dpis@[k])),
            checksum == 0x0d75 + dpi_bytes_sum(dpis@, index as int),
            above_12k == stage_mask(dpis@, index as int),
            stage_mask(dpis@, index as int) < vstd::arithmetic::power2::pow2(index as nat),
            dpi_bytes_sum(dpis@, index as int) <= 256 * index,
        decreases 6 - index,
    {
        let dpi = dpis[index];
        let encoded = dpi_value(dpi);
        packet[index + 8] = encoded;
        checksum += encoded as u16;
        let special_range: u8 = if 10_100 <= dpi && dpi <= 12_000 { 1 } else { 0 };
        packet[index + 16] = special_range;
        checksum += special_range as u16;
        proof {
            vstd::arithmetic::power2::lemma_pow2_adds(index as nat, 1);
            vstd::arithmetic::power2::lemma2_to64();
        }
        if dpi > 12_000 {
            proof {
                lemma_set_bit_adds(above_12k, index as u8);
            }
            above_12k |= 1u8 << (index as u8);
        }
        index += 1;
    }
    packet[6] = above_12k;
    packet[7] = above_12k;
    proof {
        vstd::arithmetic::power2::lemma2_to64();
    }
    checksum += (above_12k * 2) as u16;
    packet[24] = active_dpi;
    checksum += (active_dpi - 1) as u16;
    if ripple_control {
        packet[4] = 1;
        checksum += 1;
    }
    if angle_snap {
        packet[3] = 1;
        checksum += 1;
    }
    packet[50] = (checksum / 256) as u8;
    packet[51] = (checksum % 256) as u8;
    assert(packet@ =~= r1_dpi_report(dpis@, active_dpi, ripple_control, angle_snap));
    packet
}


/// The sum of the bytes `s[lo]` through `s[hi - 1]`.
pub open spec fn byte_sum(s: Seq<u8>, lo: int, hi: int) -> int
    decreases hi - lo,
{
    if hi <= lo {
        0
    } else {
        byte_sum(s, lo, hi - 1) + s[hi - 1]
    }
}

/// The mask of profiles above 12000 has one bit per profile.
pub proof fn lemma_stage_mask_bound(dpis: Seq<u16>, n: int)
    requires
        0 <= n,
    ensures
        0 <= stage_mask(dpis, n) < vstd::arithmetic::power2::pow2(n as nat),
    decreases n,
{
    vstd::arithmetic::power2::lemma_pow2_pos(n as nat);
    if n > 0 {
        lemma_stage_mask_bound(dpis, n - 1);
        vstd::arithmetic::power2::lemma_pow2_adds((n - 1) as nat, 1);
        vstd::arithmetic::power2::lemma2_to64();
    }
}

/// The checksum of the R1 DPI report is the sum of its bytes 3 through 49,
/// which it stores big-endian in bytes 50 and 51.
#[verifier::spinoff_prover]
pub proof fn lemma_r1_dpi_checksum_is_byte_sum(
    dpis: Seq<u16>,
    active_dpi: u8,
    ripple_control: bool,
    angle_snap: bool,
)
    requires
        dpis.len() == 6,
    ensures
        ({
            let report = r1_dpi_report(dpis, active_dpi, ripple_control, angle_snap);
            &&& r1_dpi_checksum(dpis, active_dpi, ripple_control, angle_snap) == byte_sum(report, 3, 50)
            &&& report[50] * 256 + report[51] == byte_sum(report, 3, 50) % 65536
        }),
{
    let report = r1_dpi_report(dpis, active_dpi, ripple_control, angle_snap);
    lemma_stage_mask_bound(dpis, 6);
    vstd::arithmetic::power2::lemma2_to64();
    reveal_with_fuel(byte_sum, 48);
    reveal_with_fuel(dpi_bytes_sum, 7);
    reveal_with_fuel(stage_mask, 7);
    assert(byte_sum(report, 3, 50) == r1_dpi_checksum(dpis, active_dpi, ripple_control, angle_snap));
}


/// Bit `k` of `x`.
pub open spec fn bit_set(x: int, k: nat) -> bool {
    (x / vstd::arithmetic::power2::pow2(k) as int) % 2 == 1
}

/// Bit `k` of the stage mask is set exactly when profile `k` is above 12000.
pub proof fn lemma_stage_mask_bits(dpis: Seq<u16>, k: nat)
    requires
        dpis.len() == 6,
        k < 6,
    ensures
        bit_set(stage_mask(dpis, 6), k) <==> dpis[k as int] > 12_000,
        0 <= stage_mask(dpis, 6) < 64,
{
    reveal_with_fuel(stage_mask, 7);
    vstd::arithmetic::power2::lemma2_to64();
    let b0: int = if dpis[0] > 12_000 { 1 } else { 0 };
    let b1: int = if dpis[1] > 12_000 { 1 } else { 0 };
    let b2: int = if dpis[2] > 12_000 { 1 } else { 0 };
    let b3: int = if dpis[3] > 12_000 { 1 } else { 0 };
    let b4: int = if dpis[4] > 12_000 { 1 } else { 0 };
    let b5: int = if dpis[5] > 12_000 { 1 } else { 0 };
    let m = stage_mask(dpis, 6);
    assert(m == b0 + 2 * b1 + 4 * b2 + 8 * b3 + 16 * b4 + 32 * b5);
    if k == 0 {
        assert(m / 1 == m);
        assert(m % 2 == b0);
    } else if k == 1 {
        assert(m / 2 == b1 + 2 * b2 + 4 * b3 + 8 * b4 + 16 * b5);
    } else if k == 2 {
        assert(m / 4 == b2 + 2 * b3 + 4 * b4 + 8 * b5);
    } else if k == 3 {
        assert(m / 8 == b3 + 2 * b4 + 4 * b5);
    } else if k == 4 {
        assert(m / 16 == b4 + 2 * b5);
    } else {
        assert(m / 32 == b5);
    }
}

/// The R1 DPI report says, byte by byte, what it was asked to: byte 3 is 1
/// exactly when angle snapping is on, byte 4 exactly when ripple control is
/// on, bytes 8 through 13 are the table bytes of the six profiles, bytes 16
/// through 21 flag the profiles from 10100 to 12000, bytes 6 and 7 both set
/// bit `k` exactly for the profiles above 12000, and byte 24 is the active
/// profile.
pub proof fn lemma_r1_dpi_report_fields(dpis: Seq<u16>, active_dpi: u8, ripple_control: bool, angle_snap: bool)
    requires
        dpis.len() == 6,
    ensures
        ({
            let report = r1_dpi_report(dpis, active_dpi, ripple_control, angle_snap);
            &&& report.len() == 56
            &&& report[0] == 0x04 && report[1] == 0x38 && report[2] == 0x01
            &&& report[3] == (if angle_snap { 1u8 } else { 0u8 })
            &&& report[4] == (if ripple_control { 1u8 } else { 0u8 })
            &&& report[24] == active_dpi
            &&& report[6] == report[7]
            &&& forall|k: nat| k < 6 ==> (bit_set(report[6] as int, k) <==> #[trigger] dpis[k as int] > 12_000)
            &&& forall|k: int| 0 <= k < 6 ==> report[8 + k] == DPI_VALUES@[#[trigger] dpis[k] / 100 - 1]
            &&& forall|k: int| 0 <= k < 6 ==> report[16 + k] == (if 10_100 <= #[trigger] dpis[k] <= 12_000 {
                1u8
            } else {
                0u8
            })
        }),
{
    let report = r1_dpi_report(dpis, active_dpi, ripple_control, angle_snap);
    lemma_stage_mask_bound(dpis, 6);
    vstd::arithmetic::power2::lemma2_to64();
    assert forall|k: nat| k < 6 implies (bit_set(report[6] as int, k) <==> #[trigger] dpis[k as int] > 12_000) by {
        lemma_stage_mask_bits(dpis, k);
    }
}

/// The R1 polling rate report carries the rate's code low byte first:
/// 0xf708 for 125, 0xfb04 for 250, 0xfd02 for 500 and 0xfe01 for 1000
/// reports per second.
pub proof fn lemma_polling_rate_report_codes(rate: PollingRate)
    ensures
        ({
            let report = polling_rate_report(rate);
            &&& report.len() == 9
            &&& rate.hz() == 125 ==> report[3] == 0x08 && report[4] == 0xf7
            &&& rate.hz() == 250 ==> report[3] == 0x04 && report[4] == 0xfb
            &&& rate.hz() == 500 ==> report[3] == 0x02 && report[4] == 0xfd
            &&& rate.hz() == 1000 ==> report[3] == 0x01 && report[4] == 0xfe
        }),
{
}

/// The R1 timer report carries what it was asked to: byte 4 holds the deep
/// sleep time's high nibble over 3, byte 5 its low nibble over 8, byte 9
/// twice the sleep time rounded toward zero (at most 255), and byte 10 half
/// the key response time.
pub proof fn lemma_times_report_fields(sleep_time: SleepTime, deep_sleep: u8, key_response: u8)
    ensures
        ({
            let report = times_report(sleep_time, deep_sleep, key_response);
            &&& report.len() == 15
            &&& report[4] == 3 + 16 * (deep_sleep / 16)
            &&& report[5] == 8 + 16 * (deep_sleep % 16)
            &&& report[9] == (if sleep_time.quarters / 2 > 255 { 255 } else { sleep_time.quarters / 2 })
            &&& report[10] == key_response / 2
        }),
{
}

/// A channel that carries configuration reports to a mouse.
pub trait Transport {
    /// Sends `packet` as the report numbered `value`.
    fn send(&mut self, value: u16, packet: &[u8]) -> Result<()>;
}

} // verus!
