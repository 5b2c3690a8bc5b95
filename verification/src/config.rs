use vstd::prelude::*;

use crate::error::{DriverError, Result};
use crate::text::with_decimal;

verus! {

/// USB polling rates that the mice support.
#[derive(Clone, Copy, Debug, PartialEq, Eq, Structural)]
pub enum PollingRate {
    Hz125,
    Hz250,
    Hz500,
    Hz1000,
}

impl PollingRate {
    /// The rate in reports per second.
    pub open spec fn hz(self) -> u16 {
        match self {
            PollingRate::Hz125 => 125,
            PollingRate::Hz250 => 250,
            PollingRate::Hz500 => 500,
            PollingRate::Hz1000 => 1000,
        }
    }

    /// The 16-bit value that the R1 protocol sends for this rate.
    pub open spec fn protocol_code(self) -> u16 {
        match self {
            PollingRate::Hz125 => 0xf708,
            PollingRate::Hz250 => 0xfb04,
            PollingRate::Hz500 => 0xfd02,
            PollingRate::Hz1000 => 0xfe01,
        }
    }

    /// Looks a rate up by its number of reports per second.
    pub fn from_hz(value: u16) -> (r: Result<Self>)
        ensures
            r is Ok <==> is_supported_hz(value),
            r matches Ok(rate) ==> rate.hz() == value,
            r matches Err(e) ==> crate::error::is_config_error(e, polling_rate_message(value)),
    {
        match value {
            125 => Ok(PollingRate::Hz125),
            250 => Ok(PollingRate::Hz250),
            500 => Ok(PollingRate::Hz500),
            1000 => Ok(PollingRate::Hz1000),
            _ => Err(
                DriverError::InvalidConfig(
                    with_decimal("polling_rate must be 125, 250, 500, or 1000; got ", value as u64),
                ),
            ),
        }
    }

    /// The 16-bit value that the R1 protocol sends for this rate.
    pub fn protocol_value(self) -> (v: u16)
        ensures
            v == self.protocol_code(),
    {
        match self {
            PollingRate::Hz125 => 0xf708,
            PollingRate::Hz250 => 0xfb04,
            PollingRate::Hz500 => 0xfd02,
            PollingRate::Hz1000 => 0xfe01,
        }
    }
}

/// The polling rates, in reports per second, that the mice support.
pub open spec fn is_supported_hz(value: u16) -> bool {
    value == 125 || value == 250 || value == 500 || value == 1000
}

/// The message of the error for an unsupported polling rate.
pub open spec fn polling_rate_message(value: u16) -> Seq<char> {
    "polling_rate must be 125, 250, 500, or 1000; got "@ + crate::text::decimal(value as nat)
}

/// The rate with the given number of reports per second.
pub open spec fn rate_of_hz(value: u16) -> PollingRate {
    if value == 125 {
        PollingRate::Hz125
    } else if value == 250 {
        PollingRate::Hz250
    } else if value == 500 {
        PollingRate::Hz500
    } else {
        PollingRate::Hz1000
    }
}

/// A sleep time in minutes, held as exactly as the device rules need it.
///
/// For a time of `t` minutes, `quarters` is the largest whole number of quarter
/// minutes not above `t` (0 when `t` is negative or not a number, and
/// `u64::MAX` when it does not fit), and `whole` says whether `4 * t` is a
/// whole number.
#[derive(Clone, Copy, Debug, PartialEq, Eq, Structural)]
pub struct SleepTime {
    pub quarters: u64,
    pub whole: bool,
}

impl SleepTime {
    /// The time is between half a minute and 30 minutes, both included.
    pub open spec fn in_range(self) -> bool {
        2 <= self.quarters && (self.quarters < 120 || (self.quarters == 120 && self.whole))
    }

    /// Twice the time, rounded toward zero and saturated to a byte.
    pub open spec fn half_minutes_truncated(self) -> u8 {
        if self.quarters / 2 > 255 {
            255
        } else {
            (self.quarters / 2) as u8
        }
    }

    /// Twice the time, rounded half away from zero and saturated to a byte.
    pub open spec fn half_minutes_rounded(self) -> u8 {
        if (self.quarters as int + 1) / 2 > 255 {
            255
        } else {
            ((self.quarters as int + 1) / 2) as u8
        }
    }

    /// A time of a whole number of quarter minutes.
    pub fn from_quarters(quarters: u64) -> (t: SleepTime)
        ensures
            t.quarters == quarters,
            t.whole,
    {
        SleepTime { quarters, whole: true }
    }

    /// Whether the time is between half a minute and 30 minutes.
    pub fn is_in_range(&self) -> (b: bool)
        ensures
            b == self.in_range(),
    {
        2 <= self.quarters && (self.quarters < 120 || (self.quarters == 120 && self.whole))
    }

    /// Twice the time, rounded toward zero and saturated to a byte.
    pub fn truncated_half_minutes(&self) -> (v: u8)
        ensures
            v == self.half_minutes_truncated(),
    {
        let h = self.quarters / 2;
        if h > 255 {
            255
        } else {
            h as u8
        }
    }

    /// Twice the time, rounded half away from zero and saturated to a byte.
    pub fn rounded_half_minutes(&self) -> (v: u8)
        ensures
            v == self.half_minutes_rounded(),
    {
        let h = self.quarters / 2 + self.quarters % 2;
        if h > 255 {
            255
        } else {
            h as u8
        }
    }
}

/// Lighting effects of the X11.
#[derive(Clone, Copy, Debug, PartialEq, Eq, Structural)]
pub enum LedMode {
    Disabled,
    Static,
    Breathing,
    Neon,
    ColorBreathing,
    StaticDpi,
    BreathingDpi,
}

impl LedMode {
    /// The byte that the X11 protocol sends for this mode.
    pub open spec fn code(self) -> u8 {
        match self {
            LedMode::Disabled => 0,
            LedMode::Static => 0x10,
            LedMode::Breathing => 0x20,
            LedMode::Neon => 0x30,
            LedMode::ColorBreathing => 0x40,
            LedMode::StaticDpi => 0x50,
            LedMode::BreathingDpi => 0x60,
        }
    }
}

/// A DPI step that the R1 table covers: a multiple of 100 from 100 to 18000.
pub open spec fn valid_dpi(value: u16) -> bool {
    100 <= value <= 18_000 && value % 100 == 0
}

/// An even key response time from 4 to 50 milliseconds.
pub open spec fn valid_key_response_time(value: u8) -> bool {
    4 <= value <= 50 && value % 2 == 0
}

/// A one-based DPI profile index.
pub open spec fn valid_active_dpi(value: u8) -> bool {
    1 <= value <= 6
}

/// A deep sleep time from 1 to 60 minutes.
pub open spec fn valid_deep_sleep_time(value: u8) -> bool {
    1 <= value <= 60
}

/// The message of the error for a DPI value outside the R1 table.
pub open spec fn dpi_message(value: u16) -> Seq<char> {
    "DPI must be a multiple of 100 between 100 and 18000; got "@ + crate::text::decimal(value as nat)
}

/// The settings of a mouse.
#[derive(Clone, Debug)]
pub struct Config {
    pub polling_rate: PollingRate,
    pub dpis: [u16; 6],
    /// One-based profile index, as used by the mouse protocol.
    pub active_dpi: u8,
    pub sleep_time: SleepTime,
    pub deep_sleep_time: u8,
    pub key_response_time: u8,
    pub angle_snap: bool,
    pub ripple_control: bool,
    pub led_mode: LedMode,
    pub led_color: [u8; 3],
    pub dpi_colors: [[u8; 3]; 6],
    pub led_speed: u8,
}

/// The settings as a configuration file states them, before they are checked.
#[derive(Clone, Debug)]
pub struct ConfigValues {
    pub polling_rate: u16,
    pub dpis: [u16; 6],
    pub active_dpi: u8,
    pub sleep_time: SleepTime,
    pub deep_sleep_time: u8,
    pub key_response_time: u8,
    pub angle_snap: bool,
    pub ripple_control: bool,
    pub led_mode: LedMode,
    pub led_color: [u8; 3],
    pub dpi_colors: [[u8; 3]; 6],
    pub led_speed: u8,
}

/// The first DPI value of `dpis` that is outside the R1 table.
pub open spec fn first_invalid_dpi(dpis: Seq<u16>) -> Option<u16>
    decreases dpis.len(),
{
    if dpis.len() == 0 {
        None
    } else if !valid_dpi(dpis[0]) {
        Some(dpis[0])
    } else {
        first_invalid_dpi(dpis.drop_first())
    }
}

/// The message of the first check that `v` fails, in the order the checks run.
pub open spec fn values_error(v: ConfigValues) -> Option<Seq<char>> {
    if !is_supported_hz(v.polling_rate) {
        Some(polling_rate_message(v.polling_rate))
    } else if first_invalid_dpi(v.dpis@) is Some {
        Some(dpi_message(first_invalid_dpi(v.dpis@)->0))
    } else if !valid_active_dpi(v.active_dpi) {
        Some("active_dpi must be between 1 and 6"@)
    } else if !v.sleep_time.in_range() {
        Some("sleep_time must be between 0.5 and 30"@)
    } else if !valid_deep_sleep_time(v.deep_sleep_time) {
        Some("deep_sleep_time must be between 1 and 60"@)
    } else if !valid_key_response_time(v.key_response_time) {
        Some("key_response_time must be an even value between 4 and 50"@)
    } else {
        None
    }
}

impl Config {
    /// All settings are within the ranges that the R1 accepts.
    pub open spec fn is_valid(&self) -> bool {
        &&& forall|i: int| 0 <= i < 6 ==> valid_dpi(#[trigger] self.dpis@[i])
        &&& valid_active_dpi(self.active_dpi)
        &&& self.sleep_time.in_range()
        &&& valid_deep_sleep_time(self.deep_sleep_time)
        &&& valid_key_response_time(self.key_response_time)
    }

    /// `self` holds the values of `v`, with the polling rate looked up.
    pub open spec fn holds_values(&self, v: ConfigValues) -> bool {
        &&& self.polling_rate == rate_of_hz(v.polling_rate)
        &&& self.dpis == v.dpis
        &&& self.active_dpi == v.active_dpi
        &&& self.sleep_time == v.sleep_time
        &&& self.deep_sleep_time == v.deep_sleep_time
        &&& self.key_response_time == v.key_response_time
        &&& self.angle_snap == v.angle_snap
        &&& self.ripple_control == v.ripple_control
        &&& self.led_mode == v.led_mode
        &&& self.led_color == v.led_color
        &&& self.dpi_colors == v.dpi_colors
        &&& self.led_speed == v.led_speed
    }

    /// Checks the values of a configuration file, in the order the file lists
    /// them, and builds the configuration from them.
    pub fn from_values(values: ConfigValues) -> (r: Result<Self>)
        ensures
            r is Ok <==> values_error(values) is None,
            r matches Ok(c) ==> c.holds_values(values) && c.is_valid(),
            r matches Err(e) ==> crate::error::is_config_error(e, values_error(values)->0),
            r matches Ok(c) ==> c.polling_rate.hz() == values.polling_rate && c.dpis == values.dpis
                && c.active_dpi == values.active_dpi && c.sleep_time == values.sleep_time
                && c.deep_sleep_time == values.deep_sleep_time && c.key_response_time == values.key_response_time
                && c.angle_snap == values.angle_snap && c.ripple_control == values.ripple_control
                && c.led_mode == values.led_mode && c.led_color == values.led_color
                && c.dpi_colors == values.dpi_colors && c.led_speed == values.led_speed,
            values_in_documented_ranges(values) <==> r is Ok,
    {
        proof {
            lemma_values_error_exactly_out_of_range(values);
        }
        let polling_rate = match PollingRate::from_hz(values.polling_rate) {
            Ok(rate) => rate,
            Err(e) => return Err(e),
        };
        let dpis = values.dpis;
        match Self::validate_dpis(&dpis) {
            Ok(()) => {},
            Err(e) => return Err(e),
        }
        let active_dpi = values.active_dpi;
        if !(1 <= active_dpi && active_dpi <= 6) {
            return Err(DriverError::InvalidConfig(String::from_str("active_dpi must be between 1 and 6")));
        }
        let sleep_time = values.sleep_time;
        if !sleep_time.is_in_range() {
            return Err(DriverError::InvalidConfig(String::from_str("sleep_time must be between 0.5 and 30")));
        }
        let deep_sleep_time = values.deep_sleep_time;
        if !(1 <= deep_sleep_time && deep_sleep_time <= 60) {
            return Err(DriverError::InvalidConfig(String::from_str("deep_sleep_time must be between 1 and 60")));
        }
        let key_response_time = values.key_response_time;
        if !(4 <= key_response_time && key_response_time <= 50) || key_response_time % 2 != 0 {
            return Err(
                DriverError::InvalidConfig(
                    String::from_str("key_response_time must be an even value between 4 and 50"),
                ),
            );
        }
        Ok(Config {
            polling_rate,
            dpis,
            active_dpi,
            sleep_time,
            deep_sleep_time,
            key_response_time,
            angle_snap: values.angle_snap,
            ripple_control: values.ripple_control,
            led_mode: values.led_mode,
            led_color: values.led_color,
            dpi_colors: values.dpi_colors,
            led_speed: values.led_speed,
        })
    }

    /// Checks that all six DPI values are ones that the R1 table covers,
    /// failing on the first that is not.
    pub fn validate_dpis(dpis: &[u16; 6]) -> (r: Result<()>)
        ensures
            r is Ok <==> first_invalid_dpi(dpis@) is None,
            r is Ok ==> forall|j: int| 0 <= j < 6 ==> valid_dpi(#[trigger] dpis@[j]),
            r matches Err(e) ==> crate::error::is_config_error(e, dpi_message(first_invalid_dpi(dpis@)->0)),
    {
        assert(dpis@.subrange(0, 6) == dpis@);
        let mut i: usize = 0;
        while i < 6
            invariant
                0 <= i <= 6,
                first_invalid_dpi(dpis@) == first_invalid_dpi(dpis@.subrange(i as int, 6)),
                forall|j: int| 0 <= j < i ==> valid_dpi(#[trigger] dpis@[j]),
            decreases 6 - i,
        {
            assert(dpis@.subrange(i as int, 6).drop_first() == dpis@.subrange(i + 1, 6));
            if let Err(e) = Self::validate_dpi(dpis[i]) {
                assert(dpis@.subrange(i as int, 6)[0] == dpis@[i as int]);
                return Err(e);
            }
            i = i + 1;
        }
        assert(dpis@.subrange(6, 6).len() == 0);
        Ok(())
    }

    /// Checks that a DPI value is one that the R1 table covers.
    pub fn validate_dpi(value: u16) -> (r: Result<()>)
        ensures
            r is Ok <==> valid_dpi(value),
            r matches Err(e) ==> crate::error::is_config_error(e, dpi_message(value)),
    {
        if !(100 <= value && value <= 18_000) || value % 100 != 0 {
            return Err(
                DriverError::InvalidConfig(
                    with_decimal("DPI must be a multiple of 100 between 100 and 18000; got ", value as u64),
                ),
            );
        }
        Ok(())
    }
}


/// The ranges that the configuration documents, written out: a polling rate
/// of 125, 250, 500 or 1000; six DPI values that are multiples of 100 from
/// 100 to 18000; an active profile from 1 to 6; a sleep time from half a
/// minute to 30 minutes; a deep sleep time from 1 to 60 minutes; and an even
/// key response time from 4 to 50 milliseconds.
pub open spec fn values_in_documented_ranges(v: ConfigValues) -> bool {
    &&& (v.polling_rate == 125 || v.polling_rate == 250 || v.polling_rate == 500 || v.polling_rate == 1000)
    &&& forall|i: int| 0 <= i < 6 ==> 100 <= #[trigger] v.dpis@[i] <= 18_000 && v.dpis@[i] % 100 == 0
    &&& 1 <= v.active_dpi <= 6
    &&& 2 <= v.sleep_time.quarters && (v.sleep_time.quarters < 120 || (v.sleep_time.quarters == 120
        && v.sleep_time.whole))
    &&& 1 <= v.deep_sleep_time <= 60
    &&& 4 <= v.key_response_time <= 50 && v.key_response_time % 2 == 0
}

/// A DPI value outside the table is found exactly when there is one.
pub proof fn lemma_first_invalid_dpi_none(dpis: Seq<u16>)
    ensures
        first_invalid_dpi(dpis) is None <==> forall|i: int| 0 <= i < dpis.len() ==> valid_dpi(#[trigger] dpis[i]),
    decreases dpis.len(),
{
    if dpis.len() > 0 {
        lemma_first_invalid_dpi_none(dpis.drop_first());
        if first_invalid_dpi(dpis) is None {
            assert forall|i: int| 0 <= i < dpis.len() implies valid_dpi(#[trigger] dpis[i]) by {
                if i > 0 {
                    assert(dpis[i] == dpis.drop_first()[i - 1]);
                }
            }
        } else if valid_dpi(dpis[0]) {
            let j = choose|j: int| 0 <= j < dpis.drop_first().len() && !valid_dpi(#[trigger] dpis.drop_first()[j]);
            assert(dpis[j + 1] == dpis.drop_first()[j]);
        }
    }
}

/// The configuration check refuses values exactly when one of them is
/// outside its documented range: every value within the ranges is accepted,
/// and every value outside them is refused.
pub proof fn lemma_values_error_exactly_out_of_range(v: ConfigValues)
    ensures
        values_error(v) is None <==> values_in_documented_ranges(v),
{
    lemma_first_invalid_dpi_none(v.dpis@);
}

} // verus!
