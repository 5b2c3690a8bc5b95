//! The settings that the command line can override, and how it reads them.

use vstd::prelude::*;

use crate::config::{Config, PollingRate, SleepTime};
use crate::error::{DriverError, Result};
use crate::text::{chars_of, find_char, parse_unsigned};

verus! {

/// What the command line accepts for a DPI override, `PROFILE:DPI` or
/// `PROFILE=DPI`: the profile and the DPI value, or the message that
/// explains why the text is refused.
pub open spec fn dpi_override_of(s: Seq<char>) -> core::result::Result<(int, int), Seq<char>> {
    let separator = if crate::text::first_position(s, ':') is Some {
        crate::text::first_position(s, ':')
    } else {
        crate::text::first_position(s, '=')
    };
    if separator is None {
        Err("expected PROFILE:DPI"@)
    } else {
        let profile = crate::text::unsigned_value(s.take(separator->0), usize::MAX as int);
        let dpi = crate::text::unsigned_value(s.skip(separator->0 + 1), u16::MAX as int);
        if profile is None {
            Err("profile must be a number"@)
        } else if dpi is None {
            Err("DPI must be a number"@)
        } else if !(1 <= profile->0 <= 6) {
            Err("profile must be between 1 and 6"@)
        } else if !crate::config::valid_dpi(dpi->0 as u16) {
            Err("invalid configuration: "@ + crate::config::dpi_message(dpi->0 as u16))
        } else {
            Ok((profile->0, dpi->0))
        }
    }
}

/// Reads a DPI override given as `PROFILE:DPI` or `PROFILE=DPI`, for
/// example `3:3200`.
pub fn parse_dpi(value: &str) -> (r: core::result::Result<(usize, u16), String>)
    ensures
        r matches Ok((profile, dpi)) ==> dpi_override_of(value@) == Ok::<(int, int), Seq<char>>((profile as int, dpi as int)),
        r matches Err(m) ==> dpi_override_of(value@) == Err::<(int, int), Seq<char>>(m@),
        r matches Ok((profile, dpi)) ==> 1 <= profile <= 6 && crate::config::valid_dpi(dpi),
{
    let chars = chars_of(value);
    let separator = match find_char(&chars, ':') {
        Some(i) => i,
        None => match find_char(&chars, '=') {
            Some(i) => i,
            None => return Err(String::from_str("expected PROFILE:DPI")),
        },
    };
    proof {
        crate::text::lemma_first_position_found(chars@, ':');
        crate::text::lemma_first_position_found(chars@, '=');
    }
    let ghost s = value@;
    assert(chars@.subrange(0, separator as int) == s.take(separator as int));
    assert(chars@.subrange(separator + 1, chars@.len() as int) == s.skip(separator + 1));
    let profile = match parse_unsigned(&chars, 0, separator, usize::MAX as u64) {
        Some(p) => p as usize,
        None => return Err(String::from_str("profile must be a number")),
    };
    let dpi = match parse_unsigned(&chars, separator + 1, chars.len(), 0xffff) {
        Some(d) => d as u16,
        None => return Err(String::from_str("DPI must be a number")),
    };
    if !(1 <= profile && profile <= 6) {
        return Err(String::from_str("profile must be between 1 and 6"));
    }
    match Config::validate_dpi(dpi) {
        Ok(()) => Ok((profile, dpi)),
        Err(error) => Err(error.message()),
    }
}


/// The settings that the command line overrides.
#[derive(Clone, Debug)]
pub struct Overrides {
    pub polling_rate: Option<u16>,
    pub key_response_time: Option<u8>,
    pub sleep_time: Option<SleepTime>,
    pub deep_sleep_time: Option<u8>,
    pub ripple_control: Option<bool>,
    pub angle_snap: Option<bool>,
    /// DPI values by one-based profile, applied in order.
    pub dpi: Vec<(usize, u16)>,
    pub active_dpi: Option<u8>,
}

/// The first override that is refused, in the order they are checked: its
/// step (1 for the polling rate through 5 for the active profile) and the
/// message of the error.
pub open spec fn override_failure(o: Overrides) -> Option<(int, Seq<char>)> {
    if o.polling_rate is Some && !crate::config::is_supported_hz(o.polling_rate->0) {
        Some((1, crate::config::polling_rate_message(o.polling_rate->0)))
    } else if o.key_response_time is Some && !crate::config::valid_key_response_time(o.key_response_time->0) {
        Some((2, "key_response_time must be an even value between 4 and 50"@))
    } else if o.sleep_time is Some && !o.sleep_time->0.in_range() {
        Some((3, "sleep_time must be between 0.5 and 30"@))
    } else if o.deep_sleep_time is Some && !crate::config::valid_deep_sleep_time(o.deep_sleep_time->0) {
        Some((4, "deep_sleep_time must be between 1 and 60"@))
    } else if o.active_dpi is Some && !crate::config::valid_active_dpi(o.active_dpi->0) {
        Some((5, "active_dpi must be between 1 and 6"@))
    } else {
        None
    }
}

/// The step of the first refused override, or 8 when none is refused.
pub open spec fn failure_step(o: Overrides) -> int {
    match override_failure(o) {
        Some((step, _)) => step,
        None => 8,
    }
}

/// The message of the error for the first refused override.
pub open spec fn failure_message(o: Overrides) -> Seq<char> {
    match override_failure(o) {
        Some((_, message)) => message,
        None => Seq::empty(),
    }
}

/// `c` with the first `steps` overrides other than DPI values applied, in
/// the order polling rate, key response time, sleep time, deep sleep time,
/// active profile, ripple control, angle snapping.
pub open spec fn with_overrides(c: Config, o: Overrides, steps: int) -> Config {
    Config {
        polling_rate: if steps >= 1 && o.polling_rate is Some {
            crate::config::rate_of_hz(o.polling_rate->0)
        } else {
            c.polling_rate
        },
        key_response_time: if steps >= 2 && o.key_response_time is Some {
            o.key_response_time->0
        } else {
            c.key_response_time
        },
        sleep_time: if steps >= 3 && o.sleep_time is Some { o.sleep_time->0 } else { c.sleep_time },
        deep_sleep_time: if steps >= 4 && o.deep_sleep_time is Some {
            o.deep_sleep_time->0
        } else {
            c.deep_sleep_time
        },
        active_dpi: if steps >= 5 && o.active_dpi is Some { o.active_dpi->0 } else { c.active_dpi },
        ripple_control: if steps >= 6 && o.ripple_control is Some {
            o.ripple_control->0
        } else {
            c.ripple_control
        },
        angle_snap: if steps >= 7 && o.angle_snap is Some { o.angle_snap->0 } else { c.angle_snap },
        ..c
    }
}

/// The DPI values after the overrides `list`, applied in order.
pub open spec fn dpis_with_overrides(dpis: Seq<u16>, list: Seq<(usize, u16)>) -> Seq<u16>
    decreases list.len(),
{
    if list.len() == 0 {
        dpis
    } else {
        dpis_with_overrides(dpis, list.drop_last()).update(list.last().0 - 1, list.last().1)
    }
}

/// Two configurations agree on every setting but the DPI values.
pub open spec fn agree_except_dpis(a: Config, b: Config) -> bool {
    &&& a.polling_rate == b.polling_rate
    &&& a.active_dpi == b.active_dpi
    &&& a.sleep_time == b.sleep_time
    &&& a.deep_sleep_time == b.deep_sleep_time
    &&& a.key_response_time == b.key_response_time
    &&& a.angle_snap == b.angle_snap
    &&& a.ripple_control == b.ripple_control
    &&& a.led_mode == b.led_mode
    &&& a.led_color == b.led_color
    &&& a.dpi_colors == b.dpi_colors
    &&& a.led_speed == b.led_speed
}

/// Every DPI override names a profile from 1 to 6.
pub open spec fn profiles_in_range(list: Seq<(usize, u16)>) -> bool {
    forall|i: int| 0 <= i < list.len() ==> 1 <= (#[trigger] list[i]).0 <= 6
}

/// Applies the command line's overrides to `config`, checking each in turn.
/// A refused override stops the others; those before it stay applied.
pub fn apply_overrides(config: &mut Config, overrides: &Overrides) -> (r: Result<()>)
    requires
        profiles_in_range(overrides.dpi@),
    ensures
        r is Ok <==> override_failure(*overrides) is None,
        r matches Err(e) ==> crate::error::is_config_error(e, failure_message(*overrides)),
        agree_except_dpis(*final(config), with_overrides(*old(config), *overrides, failure_step(*overrides) - 1)),
        final(config).dpis@ == (if r is Ok {
            dpis_with_overrides(old(config).dpis@, overrides.dpi@)
        } else {
            old(config).dpis@
        }),
        old(config).is_valid() && dpis_valid(overrides.dpi@) && r is Ok ==> final(config).is_valid(),
        r is Ok ==> final(config).angle_snap == (if overrides.angle_snap is Some {
            overrides.angle_snap->0
        } else {
            old(config).angle_snap
        }) && final(config).ripple_control == (if overrides.ripple_control is Some {
            overrides.ripple_control->0
        } else {
            old(config).ripple_control
        }) && final(config).key_response_time == (if overrides.key_response_time is Some {
            overrides.key_response_time->0
        } else {
            old(config).key_response_time
        }) && final(config).sleep_time == (if overrides.sleep_time is Some {
            overrides.sleep_time->0
        } else {
            old(config).sleep_time
        }) && final(config).deep_sleep_time == (if overrides.deep_sleep_time is Some {
            overrides.deep_sleep_time->0
        } else {
            old(config).deep_sleep_time
        }) && final(config).active_dpi == (if overrides.active_dpi is Some {
            overrides.active_dpi->0
        } else {
            old(config).active_dpi
        }) && final(config).polling_rate.hz() == (if overrides.polling_rate is Some {
            overrides.polling_rate->0
        } else {
            old(config).polling_rate.hz()
        }) && final(config).led_mode == old(config).led_mode && final(config).led_color == old(config).led_color
            && final(config).dpi_colors == old(config).dpi_colors && final(config).led_speed == old(config).led_speed,
        r is Err ==> final(config).angle_snap == old(config).angle_snap && final(config).ripple_control
            == old(config).ripple_control && final(config).dpis == old(config).dpis,
        r is Ok <==> overrides_in_documented_ranges(*overrides),
{
    proof {
        lemma_dpi_overrides_keep_validity(config.dpis@, overrides.dpi@);
        lemma_override_failure_exactly_out_of_range(*config, *overrides);
    }
    match apply_setting_overrides(config, overrides) {
        Ok(()) => {},
        Err(e) => return Err(e),
    }
    apply_dpi_overrides(config, &overrides.dpi);
    Ok(())
}

/// Applies the overrides other than DPI values, checking each in turn.
#[verifier::spinoff_prover]
fn apply_setting_overrides(config: &mut Config, overrides: &Overrides) -> (r: Result<()>)
    ensures
        r is Ok <==> override_failure(*overrides) is None,
        r matches Err(e) ==> crate::error::is_config_error(e, failure_message(*overrides)),
        agree_except_dpis(*final(config), with_overrides(*old(config), *overrides, failure_step(*overrides) - 1)),
        final(config).dpis == old(config).dpis,
{
    if let Some(rate) = overrides.polling_rate {
        match PollingRate::from_hz(rate) {
            Ok(rate) => config.polling_rate = rate,
            Err(e) => return Err(e),
        }
    }
    if let Some(value) = overrides.key_response_time {
        if !(4 <= value && value <= 50) || value % 2 != 0 {
            return Err(
                DriverError::InvalidConfig(
                    String::from_str("key_response_time must be an even value between 4 and 50"),
                ),
            );
        }
        config.key_response_time = value;
    }
    if let Some(value) = overrides.sleep_time {
        if !value.is_in_range() {
            return Err(DriverError::InvalidConfig(String::from_str("sleep_time must be between 0.5 and 30")));
        }
        config.sleep_time = value;
    }
    if let Some(value) = overrides.deep_sleep_time {
        if !(1 <= value && value <= 60) {
            return Err(DriverError::InvalidConfig(String::from_str("deep_sleep_time must be between 1 and 60")));
        }
        config.deep_sleep_time = value;
    }
    if let Some(value) = overrides.active_dpi {
        if !(1 <= value && value <= 6) {
            return Err(DriverError::InvalidConfig(String::from_str("active_dpi must be between 1 and 6")));
        }
        config.active_dpi = value;
    }
    if let Some(value) = overrides.ripple_control {
        config.ripple_control = value;
    }
    if let Some(value) = overrides.angle_snap {
        config.angle_snap = value;
    }
    Ok(())
}

/// Sets the DPI values that `list` names, in order.
fn apply_dpi_overrides(config: &mut Config, list: &Vec<(usize, u16)>)
    requires
        profiles_in_range(list@),
    ensures
        agree_except_dpis(*final(config), *old(config)),
        final(config).dpis@ == dpis_with_overrides(old(config).dpis@, list@),
{
    let ghost start = *config;
    let mut i: usize = 0;
    while i < list.len()
        invariant
            0 <= i <= list@.len(),
            profiles_in_range(list@),
            agree_except_dpis(*config, start),
            config.dpis@ == dpis_with_overrides(start.dpis@, list@.take(i as int)),
        decreases list@.len() - i,
    {
        let (profile, dpi) = list[i];
        assert(list@.take(i + 1).drop_last() == list@.take(i as int));
        assert(list@.take(i + 1).last() == list@[i as int]);
        assert(1 <= list@[i as int].0 <= 6);
        config.dpis[profile - 1] = dpi;
        i += 1;
    }
    assert(list@.take(list@.len() as int) == list@);
}


/// Every DPI override sets a value of the R1 table.
pub open spec fn dpis_valid(list: Seq<(usize, u16)>) -> bool {
    forall|i: int| 0 <= i < list.len() ==> crate::config::valid_dpi((#[trigger] list[i]).1)
}

/// Overriding DPI values of the R1 table with values of the table keeps all
/// six of them in the table.
pub proof fn lemma_dpi_overrides_keep_validity(dpis: Seq<u16>, list: Seq<(usize, u16)>)
    requires
        dpis.len() == 6,
        profiles_in_range(list),
    ensures
        dpis_with_overrides(dpis, list).len() == 6,
        (forall|i: int| 0 <= i < 6 ==> crate::config::valid_dpi(#[trigger] dpis[i])) && dpis_valid(list)
            ==> forall|i: int| 0 <= i < 6 ==> crate::config::valid_dpi(#[trigger] dpis_with_overrides(dpis, list)[i]),
    decreases list.len(),
{
    if list.len() > 0 {
        let rest = list.drop_last();
        assert(profiles_in_range(rest)) by {
            assert forall|i: int| 0 <= i < rest.len() implies 1 <= (#[trigger] rest[i]).0 <= 6 by {
                assert(rest[i] == list[i]);
            }
        }
        assert(1 <= list[list.len() - 1].0 <= 6);
        lemma_dpi_overrides_keep_validity(dpis, rest);
        if dpis_valid(list) {
            assert(dpis_valid(rest)) by {
                assert forall|i: int| 0 <= i < rest.len() implies crate::config::valid_dpi((#[trigger] rest[i]).1) by {
                    assert(rest[i] == list[i]);
                }
            }
            assert(crate::config::valid_dpi(list[list.len() - 1].1));
        }
    }
}

impl Overrides {
    /// The polling rate is overridden.
    pub fn changes_polling_rate(&self) -> (b: bool)
        ensures
            b == self.polling_rate is Some,
    {
        self.polling_rate.is_some()
    }

    /// A timer is overridden: the key response time, the sleep time or the
    /// deep sleep time.
    pub fn changes_timers(&self) -> (b: bool)
        ensures
            b == (self.key_response_time is Some || self.sleep_time is Some || self.deep_sleep_time is Some),
    {
        self.key_response_time.is_some() || self.sleep_time.is_some() || self.deep_sleep_time.is_some()
    }

    /// A DPI setting is overridden: a DPI value, the active profile, ripple
    /// control or angle snapping.
    pub fn changes_dpi_settings(&self) -> (b: bool)
        ensures
            b == (self.dpi@.len() > 0 || self.active_dpi is Some || self.ripple_control is Some
                || self.angle_snap is Some),
    {
        self.dpi.len() > 0 || self.active_dpi.is_some() || self.ripple_control.is_some() || self.angle_snap.is_some()
    }
}


/// The overrides are within the documented ranges, written out: a polling
/// rate of 125, 250, 500 or 1000; an even key response time from 4 to 50; a
/// sleep time from half a minute to 30 minutes; a deep sleep time from 1 to
/// 60; and an active profile from 1 to 6.
pub open spec fn overrides_in_documented_ranges(o: Overrides) -> bool {
    &&& o.polling_rate matches Some(r) ==> (r == 125 || r == 250 || r == 500 || r == 1000)
    &&& o.key_response_time matches Some(k) ==> 4 <= k <= 50 && k % 2 == 0
    &&& o.sleep_time matches Some(t) ==> 2 <= t.quarters && (t.quarters < 120 || (t.quarters == 120 && t.whole))
    &&& o.deep_sleep_time matches Some(d) ==> 1 <= d <= 60
    &&& o.active_dpi matches Some(a) ==> 1 <= a <= 6
}

/// An override is refused exactly when it is outside its documented range;
/// then the settings after it, ripple control and angle snapping among them,
/// are left as they were.
pub proof fn lemma_override_failure_exactly_out_of_range(c: Config, o: Overrides)
    ensures
        override_failure(o) is None <==> overrides_in_documented_ranges(o),
        override_failure(o) is Some ==> failure_step(o) <= 5
            && with_overrides(c, o, failure_step(o) - 1).angle_snap == c.angle_snap
            && with_overrides(c, o, failure_step(o) - 1).ripple_control == c.ripple_control,
        override_failure(o) is None ==> with_overrides(c, o, 7).angle_snap == (if o.angle_snap is Some {
            o.angle_snap->0
        } else {
            c.angle_snap
        }) && with_overrides(c, o, 7).ripple_control == (if o.ripple_control is Some {
            o.ripple_control->0
        } else {
            c.ripple_control
        }),
{
}

} // verus!
