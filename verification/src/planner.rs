//! From a mode's configuration and the registers as read to the register
//! writes that are due.

use crate::codec::{
    critical_temp, decode_units, decode_units_spec, encode_temperature_target,
    encode_time_window, encode_window_field, fold_window, fold_window_spec, is_locked,
    is_locked_spec, time_window_bits, trip_delta, window_field, with_trip_point, EncodingError,
    RegisterUnits, WindowSlot, MAX_POWER_LIMIT, MSR_PKG_POWER_LIMIT, MSR_TEMPERATURE_TARGET,
    WINDOW_FIELD_MASK,
};
use crate::power::PowerState;
use crate::quantizer::{
    lemma_quantize_minimal, pow2_u64, quantize_spec, Seconds, TimeWindowTable,
};
use vstd::arithmetic::power2::*;
use vstd::prelude::*;

verus! {

/// What to enforce in one power mode. Every field is optional on its own;
/// a power-limit window takes part only when both its power and its
/// duration are given.
#[derive(Debug, Clone, Copy)]
pub struct ModeConfig {
    /// How often to apply the configuration again, in seconds.
    pub update_rate_s: Option<u64>,
    /// Package power for window #1, in watts.
    pub pl1_tdp_w: Option<u64>,
    /// Duration of window #1.
    pub pl1_duration_s: Option<Seconds>,
    /// Package power for window #2, in watts.
    pub pl2_tdp_w: Option<u64>,
    /// Duration of window #2.
    pub pl2_duration_s: Option<Seconds>,
    /// Temperature at which throttling is to begin, in degrees Celsius.
    pub maximum_temp_c: Option<u64>,
    /// Whether to hint the hardware towards performance under load.
    pub hwp_mode: Option<bool>,
}

/// The two profiles, one per power source.
#[derive(Debug, Clone, Copy)]
pub struct Config {
    pub battery: ModeConfig,
    pub ac: ModeConfig,
}

impl Config {
    /// The profile that applies in `state`.
    pub fn mode(&self, state: PowerState) -> (m: &ModeConfig)
        ensures
            *m == match state {
                PowerState::Battery => self.battery,
                PowerState::AC => self.ac,
            },
    {
        match state {
            PowerState::Battery => &self.battery,
            PowerState::AC => &self.ac,
        }
    }
}

/// A register and the value it is to receive.
#[derive(Debug, Clone, Copy, PartialEq, Eq, Structural)]
pub struct PendingWrite {
    pub register: u64,
    pub value: u64,
}

/// The registers as last read from the representative CPU.
#[derive(Debug, Clone, Copy)]
pub struct RegisterSnapshot {
    /// The temperature target register; `None` when it was not read.
    pub temperature_target: Option<u64>,
    /// The RAPL unit descriptor register.
    pub rapl_units: u64,
    /// The package power limit register.
    pub power_limit: u64,
}

/// The writes that are due, and what had to be skipped.
pub struct MsrPlan {
    /// The writes, temperature target first.
    pub writes: Vec<PendingWrite>,
    /// Why the temperature target was skipped, if it was.
    pub temperature_error: Option<EncodingError>,
    /// Why window #1 was skipped, if it was.
    pub pl1_error: Option<EncodingError>,
    /// Why window #2 was skipped, if it was.
    pub pl2_error: Option<EncodingError>,
    /// The power limit register is locked, so its write was withheld.
    pub locked: bool,
}

/// The power limit in register units, `tdp_w / 2^-power_exp`, or `Overflow`
/// if that needs more than 15 bits.
pub open spec fn power_limit_spec(power_exp: u32, tdp_w: u64) -> Result<u64, EncodingError> {
    if tdp_w * pow2(power_exp as nat) <= MAX_POWER_LIMIT {
        Ok((tdp_w * pow2(power_exp as nat)) as u64)
    } else {
        Err(EncodingError::Overflow)
    }
}

/// The window field for a power and a duration: the power limit, the
/// enable bit, and the time window of the shortest sufficient duration.
pub open spec fn window_spec(units: RegisterUnits, tdp_w: u64, duration: Seconds) -> Result<
    u64,
    EncodingError,
> {
    match power_limit_spec(units.power_exp, tdp_w) {
        Err(e) => Err(e),
        Ok(pl) => match quantize_spec(units.time_exp, duration.ticks) {
            None => Err(EncodingError::DurationOutOfRange),
            Some((y, z)) => Ok(window_field(pl, time_window_bits(y, z))),
        },
    }
}

/// One step of the fold over the register's value: the value with the
/// window at `slot` applied, and the error if the window is configured but
/// cannot be encoded. An absent or unencodable window leaves the value as
/// it is.
pub open spec fn plan_slot_spec(
    value: u64,
    units: RegisterUnits,
    tdp_w: Option<u64>,
    duration: Option<Seconds>,
    slot: WindowSlot,
) -> (u64, Option<EncodingError>) {
    if tdp_w is Some && duration is Some {
        match window_spec(units, tdp_w.unwrap(), duration.unwrap()) {
            Ok(field) => (fold_window_spec(value, field, slot), None),
            Err(e) => (value, Some(e)),
        }
    } else {
        (value, None)
    }
}

/// The value the power limit register should hold: both windows folded,
/// one after the other, into the value as read.
pub open spec fn planned_power_limit(seed: u64, units: RegisterUnits, conf: ModeConfig) -> u64 {
    let first = plan_slot_spec(seed, units, conf.pl1_tdp_w, conf.pl1_duration_s, WindowSlot::First);
    plan_slot_spec(first.0, units, conf.pl2_tdp_w, conf.pl2_duration_s, WindowSlot::Second).0
}

/// The write for the power limit register: due when the planned value
/// differs from the value as read and the register is not locked.
pub open spec fn power_limit_write(seed: u64, units: RegisterUnits, conf: ModeConfig) -> Option<
    PendingWrite,
> {
    let value = planned_power_limit(seed, units, conf);
    if value != seed && !is_locked_spec(seed) {
        Some(PendingWrite { register: MSR_PKG_POWER_LIMIT, value })
    } else {
        None
    }
}

/// The write for the temperature target register: due when a maximum is
/// configured, the register was read, and the new value differs from it.
pub open spec fn temperature_write(conf: ModeConfig, raw: Option<u64>) -> Option<PendingWrite> {
    if conf.maximum_temp_c is Some && raw is Some && critical_temp(raw.unwrap()) >= 3 {
        let value = with_trip_point(
            raw.unwrap(),
            trip_delta(critical_temp(raw.unwrap()), conf.maximum_temp_c.unwrap()) as u64,
        );
        if value != raw.unwrap() {
            Some(PendingWrite { register: MSR_TEMPERATURE_TARGET, value })
        } else {
            None
        }
    } else {
        None
    }
}

/// The sequence of no write or of one.
pub open spec fn write_seq(w: Option<PendingWrite>) -> Seq<PendingWrite> {
    match w {
        Some(w) => seq![w],
        None => Seq::empty(),
    }
}

/// The power limit in register units.
pub fn power_limit(units: &RegisterUnits, tdp_w: u64) -> (r: Result<u64, EncodingError>)
    requires
        units.wf(),
    ensures
        r == power_limit_spec(units.power_exp, tdp_w),
        r is Ok ==> r.unwrap() <= MAX_POWER_LIMIT,
{
    proof {
        lemma_pow2_pos(units.power_exp as nat);
        lemma2_to64();
        if units.power_exp < 15 {
            lemma_pow2_strictly_increases(units.power_exp as nat, 15);
        }
    }
    let ghost p = pow2(units.power_exp as nat) as int;
    if tdp_w > MAX_POWER_LIMIT {
        assert(tdp_w * p > 0x7FFF) by (nonlinear_arith)
            requires
                tdp_w > 0x7FFF,
                p >= 1,
        ;
        return Err(EncodingError::Overflow);
    }
    let scale: u64 = pow2_u64(units.power_exp);
    assert(tdp_w * scale <= 0x7FFF * 0x8000) by (nonlinear_arith)
        requires
            tdp_w <= 0x7FFF,
            scale <= 0x8000,
    ;
    let pl: u64 = tdp_w * scale;
    if pl > MAX_POWER_LIMIT {
        Err(EncodingError::Overflow)
    } else {
        Ok(pl)
    }
}

/// The window field for a power and a duration. Fails with `Overflow` when
/// the power does not fit, else with `DurationOutOfRange` when no window is
/// long enough.
pub fn encode_window(
    units: &RegisterUnits,
    table: &TimeWindowTable,
    tdp_w: u64,
    duration: Seconds,
) -> (r: Result<u64, EncodingError>)
    requires
        units.wf(),
        table.wf(),
        table.time_exp_spec() == units.time_exp,
    ensures
        r == window_spec(*units, tdp_w, duration),
        r is Ok ==> r.unwrap() & !WINDOW_FIELD_MASK == 0,
{
    let pl = match power_limit(units, tdp_w) {
        Ok(pl) => pl,
        Err(e) => {
            return Err(e);
        },
    };
    match table.quantize(duration) {
        Ok((y, z)) => {
            let tw = encode_time_window(y, z);
            Ok(encode_window_field(pl, tw))
        },
        Err(e) => {
            proof {
                lemma_quantize_minimal(units.time_exp, duration.ticks);
            }
            Err(e)
        },
    }
}

/// Folds one window into the register's value, if it is configured.
pub fn plan_slot(
    value: u64,
    units: &RegisterUnits,
    table: &TimeWindowTable,
    tdp_w: Option<u64>,
    duration: Option<Seconds>,
    slot: WindowSlot,
) -> (r: (u64, Option<EncodingError>))
    requires
        units.wf(),
        table.wf(),
        table.time_exp_spec() == units.time_exp,
    ensures
        r == plan_slot_spec(value, *units, tdp_w, duration, slot),
        (tdp_w is None || duration is None) ==> r == (value, None::<EncodingError>),
        r.0 & !(WINDOW_FIELD_MASK << slot.offset_spec()) == value & !(WINDOW_FIELD_MASK
            << slot.offset_spec()),
{
    match (tdp_w, duration) {
        (Some(t), Some(d)) => match encode_window(units, table, t, d) {
            Ok(field) => (fold_window(value, field, slot), None),
            Err(e) => (value, Some(e)),
        },
        _ => (value, None),
    }
}

/// What lies outside a window's own bits, in terms of the register's
/// halves: window #1 lives in the low half, window #2 in the high half.
proof fn lemma_outside_bits(a: u64, b: u64, offset: u64)
    by (bit_vector)
    requires
        offset == 0 || offset == 32,
        a & !(0xFE_FFFFu64 << offset) == b & !(0xFE_FFFFu64 << offset),
    ensures
        offset == 0 ==> a >> 32 == b >> 32,
        offset == 32 ==> a & 0xFFFF_FFFF == b & 0xFFFF_FFFF,
        (a >> 16) & 1 == (b >> 16) & 1,
        (a >> 48) & 1 == (b >> 48) & 1,
{
}

/// Plans the package power limit register from its value as read. Both
/// windows are folded into that value; an absent window leaves its half of
/// the register as read, and a configured one leaves its clamp bit alone.
/// The result is the planned value, the write if one is due, and the error
/// of each window that could not be encoded.
pub fn plan_power_limit(seed: u64, units: &RegisterUnits, conf: &ModeConfig) -> (r: (
    u64,
    Option<PendingWrite>,
    Option<EncodingError>,
    Option<EncodingError>,
))
    requires
        units.wf(),
    ensures
        r.0 == planned_power_limit(seed, *units, *conf),
        r.1 == power_limit_write(seed, *units, *conf),
        r.2 == plan_slot_spec(
            seed,
            *units,
            conf.pl1_tdp_w,
            conf.pl1_duration_s,
            WindowSlot::First,
        ).1,
        r.3 == plan_slot_spec(
            seed,
            *units,
            conf.pl2_tdp_w,
            conf.pl2_duration_s,
            WindowSlot::Second,
        ).1,
        (conf.pl1_tdp_w is None || conf.pl1_duration_s is None) ==> r.0 & 0xFFFF_FFFF == seed
            & 0xFFFF_FFFF,
        (conf.pl2_tdp_w is None || conf.pl2_duration_s is None) ==> r.0 >> 32 == seed >> 32,
        (conf.pl1_tdp_w is None || conf.pl1_duration_s is None) && (conf.pl2_tdp_w is None
            || conf.pl2_duration_s is None) ==> r.0 == seed && r.1 is None,
        (r.0 >> 16) & 1 == (seed >> 16) & 1,
        (r.0 >> 48) & 1 == (seed >> 48) & 1,
        r.1 is Some ==> r.1.unwrap().value != seed && !is_locked_spec(seed),
{
    let table = TimeWindowTable::new(units.time_exp);
    let (first, e1) = plan_slot(
        seed,
        units,
        &table,
        conf.pl1_tdp_w,
        conf.pl1_duration_s,
        WindowSlot::First,
    );
    let (second, e2) = plan_slot(
        first,
        units,
        &table,
        conf.pl2_tdp_w,
        conf.pl2_duration_s,
        WindowSlot::Second,
    );
    proof {
        lemma_outside_bits(first, seed, 0);
        lemma_outside_bits(second, first, 32);
    }
    let write = if second != seed && !is_locked(seed) {
        Some(PendingWrite { register: MSR_PKG_POWER_LIMIT, value: second })
    } else {
        None
    };
    (second, write, e1, e2)
}

/// Plans the temperature target register. No maximum configured: nothing
/// to do. Otherwise the write is due when the new value differs from the
/// value as read; the error says why no value could be computed.
pub fn plan_temperature(conf: &ModeConfig, raw: Option<u64>) -> (r: (
    Option<PendingWrite>,
    Option<EncodingError>,
))
    ensures
        r.0 == temperature_write(*conf, raw),
        r.1 is Some <==> conf.maximum_temp_c is Some && (raw is None || critical_temp(
            raw.unwrap(),
        ) < 3),
        r.1 is Some ==> r.1 == Some(EncodingError::CriticalTemperature),
{
    match conf.maximum_temp_c {
        None => (None, None),
        Some(max_temp_c) => match encode_temperature_target(raw, max_temp_c) {
            Err(e) => (None, Some(e)),
            Ok(value) => {
                let old_value = raw.unwrap();
                if value != old_value {
                    (Some(PendingWrite { register: MSR_TEMPERATURE_TARGET, value }), None)
                } else {
                    (None, None)
                }
            },
        },
    }
}

/// The register writes that bring the machine to `conf`, given the
/// registers as read: the temperature target first, then the package power
/// limit, each only if its value changes. A field that cannot be encoded is
/// skipped and reported; a locked power limit register is never written.
pub fn build_msr_updates(conf: &ModeConfig, snapshot: &RegisterSnapshot) -> (plan: MsrPlan)
    ensures
        plan.writes@ == write_seq(temperature_write(*conf, snapshot.temperature_target))
            + write_seq(
            power_limit_write(snapshot.power_limit, decode_units_spec(snapshot.rapl_units), *conf),
        ),
        plan.temperature_error is Some <==> conf.maximum_temp_c is Some && (
        snapshot.temperature_target is None || critical_temp(snapshot.temperature_target.unwrap())
            < 3),
        plan.temperature_error is Some ==> plan.temperature_error == Some(
            EncodingError::CriticalTemperature,
        ),
        plan.pl1_error == plan_slot_spec(
            snapshot.power_limit,
            decode_units_spec(snapshot.rapl_units),
            conf.pl1_tdp_w,
            conf.pl1_duration_s,
            WindowSlot::First,
        ).1,
        plan.pl2_error == plan_slot_spec(
            snapshot.power_limit,
            decode_units_spec(snapshot.rapl_units),
            conf.pl2_tdp_w,
            conf.pl2_duration_s,
            WindowSlot::Second,
        ).1,
        plan.locked <==> is_locked_spec(snapshot.power_limit) && planned_power_limit(
            snapshot.power_limit,
            decode_units_spec(snapshot.rapl_units),
            *conf,
        ) != snapshot.power_limit,
{
    let mut writes: Vec<PendingWrite> = Vec::new();
    let (temperature, temperature_error) = plan_temperature(conf, snapshot.temperature_target);
    if let Some(w) = temperature {
        writes.push(w);
    }
    let units = decode_units(snapshot.rapl_units);
    let (value, power, pl1_error, pl2_error) = plan_power_limit(
        snapshot.power_limit,
        &units,
        conf,
    );
    let ghost before = writes@;
    if let Some(w) = power {
        writes.push(w);
    }
    proof {
        assert(writes@ =~= before + write_seq(power));
        assert(before =~= write_seq(temperature));
    }
    let locked = value != snapshot.power_limit && is_locked(snapshot.power_limit);
    MsrPlan { writes, temperature_error, pl1_error, pl2_error, locked }
}

} // verus!
