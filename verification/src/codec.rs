//! Bit-field layouts of the three registers: temperature target, RAPL unit
//! descriptors, package power limit.

use vstd::prelude::*;

verus! {

/// Address of the temperature target register.
pub const MSR_TEMPERATURE_TARGET: u64 = 0x1A2;

/// Address of the RAPL unit descriptor register.
pub const MSR_RAPL_POWER_UNIT: u64 = 0x606;

/// Address of the package power limit register.
pub const MSR_PKG_POWER_LIMIT: u64 = 0x610;

/// Bits [24:29] of the temperature target register: the trip point.
pub const TRIP_POINT_MASK: u64 = 0x3F00_0000;

/// The bits of one power-limit window that the planner owns, before the
/// window's offset is applied: power limit [0:14], enable [15], time window
/// [17:23]. The clamp bit [16] is not among them.
pub const WINDOW_FIELD_MASK: u64 = 0xFE_FFFF;

/// Largest power limit that fits the 15-bit field.
pub const MAX_POWER_LIMIT: u64 = 0x7FFF;

/// Why a configured value could not be turned into register bits.
#[derive(Debug, Clone, Copy, PartialEq, Eq, Structural)]
pub enum EncodingError {
    /// The critical temperature is not available, or leaves no room for a
    /// target three degrees below it.
    CriticalTemperature,
    /// The power limit does not fit in 15 bits.
    Overflow,
    /// The duration is longer than the longest encodable time window.
    DurationOutOfRange,
}

/// Which of the two power-limit windows of the register.
#[derive(Debug, Clone, Copy, PartialEq, Eq, Structural)]
pub enum WindowSlot {
    /// Package Power Limit #1, at bit 0.
    First,
    /// Package Power Limit #2, at bit 32.
    Second,
}

impl WindowSlot {
    /// Bit offset of the window inside the register.
    pub open spec fn offset_spec(self) -> u64 {
        match self {
            WindowSlot::First => 0,
            WindowSlot::Second => 32,
        }
    }

    /// Bit offset of the window inside the register.
    pub fn offset(self) -> (r: u64)
        ensures
            r == self.offset_spec(),
    {
        match self {
            WindowSlot::First => 0,
            WindowSlot::Second => 32,
        }
    }
}

/// The critical temperature held in bits [16:23].
pub open spec fn critical_temp(raw: u64) -> u64 {
    (raw >> 16) & 0xFF
}

/// The target that is in force: the configured maximum, but never closer
/// than three degrees to the critical temperature.
pub open spec fn effective_target(critical: u64, max_temp_c: u64) -> int
    recommends
        critical >= 3,
{
    if max_temp_c <= critical - 3 {
        max_temp_c as int
    } else {
        critical - 3
    }
}

/// Distance of the effective target below the critical temperature.
pub open spec fn trip_delta(critical: u64, max_temp_c: u64) -> int
    recommends
        critical >= 3,
{
    critical - effective_target(critical, max_temp_c)
}

/// `raw` with the low six bits of `delta` in the trip point field.
pub open spec fn with_trip_point(raw: u64, delta: u64) -> u64 {
    (raw & !TRIP_POINT_MASK) | ((delta & 0x3F) << 24)
}

/// New value of the temperature target register for a configured maximum
/// temperature. `raw` is the register as read, `None` when it could not be
/// read. The trip point field receives the trip delta, cut to six bits;
/// every other bit stays as read.
pub fn encode_temperature_target(raw: Option<u64>, max_temp_c: u64) -> (r: Result<
    u64,
    EncodingError,
>)
    ensures
        r is Ok <==> (raw is Some && critical_temp(raw.unwrap()) >= 3),
        r is Err ==> r == Err::<u64, EncodingError>(EncodingError::CriticalTemperature),
        r is Ok ==> {
            let v = r.unwrap();
            let old_value = raw.unwrap();
            let delta = trip_delta(critical_temp(old_value), max_temp_c);
            &&& 3 <= delta <= 255
            &&& v == with_trip_point(old_value, delta as u64)
            &&& (v >> 24) & 0x3F == (delta as u64) & 0x3F
            &&& v & !TRIP_POINT_MASK == old_value & !TRIP_POINT_MASK
        },
{
    let old_value = match raw {
        Some(v) => v,
        None => {
            return Err(EncodingError::CriticalTemperature);
        },
    };
    let critical: u64 = (old_value >> 16) & 0xFF;
    assert(critical <= 255) by (bit_vector)
        requires
            critical == (old_value >> 16) & 0xFF,
    ;
    if critical < 3 {
        return Err(EncodingError::CriticalTemperature);
    }
    let ceiling: u64 = critical - 3;
    let target: u64 = if max_temp_c <= ceiling {
        max_temp_c
    } else {
        ceiling
    };
    let delta: u64 = critical - target;
    let v: u64 = (old_value & !TRIP_POINT_MASK) | ((delta & 0x3F) << 24);
    assert((v >> 24) & 0x3F == delta & 0x3F && v & !0x3F00_0000u64 == old_value & !0x3F00_0000u64)
        by (bit_vector)
        requires
            v == (old_value & !0x3F00_0000u64) | ((delta & 0x3F) << 24),
    ;
    Ok(v)
}

/// The scale factors of the RAPL fields, as exponents: one power LSB is
/// `2^-power_exp` watts, one time LSB is `2^-time_exp` seconds.
#[derive(Debug, Clone, Copy, PartialEq, Eq, Structural)]
pub struct RegisterUnits {
    pub power_exp: u32,
    pub time_exp: u32,
}

impl RegisterUnits {
    /// Both exponents are four-bit values.
    pub open spec fn wf(self) -> bool {
        self.power_exp <= 15 && self.time_exp <= 15
    }
}

/// The units that the descriptor register `raw` holds: the power exponent
/// in bits [0:3], the time exponent in bits [16:19].
pub open spec fn decode_units_spec(raw: u64) -> RegisterUnits {
    RegisterUnits { power_exp: (raw & 0xF) as u32, time_exp: ((raw >> 16) & 0xF) as u32 }
}

/// Decodes the unit descriptor register: power units from bits [0:3], time
/// units from bits [16:19].
pub fn decode_units(raw: u64) -> (u: RegisterUnits)
    ensures
        u == decode_units_spec(raw),
        u.wf(),
        u.power_exp == raw & 0xF,
        u.time_exp == (raw >> 16) & 0xF,
{
    let p: u64 = raw & 0xF;
    let t: u64 = (raw >> 16) & 0xF;
    assert(p <= 15 && t <= 15) by (bit_vector)
        requires
            p == raw & 0xF,
            t == (raw >> 16) & 0xF,
    ;
    RegisterUnits { power_exp: p as u32, time_exp: t as u32 }
}

/// The seven-bit time window field for exponent `y` and fraction `z`.
pub open spec fn time_window_bits(y: u32, z: u32) -> u64 {
    (y as u64) | ((z as u64) << 5)
}

/// The exponent and fraction held in a time window field.
pub open spec fn time_window_parts(tw: u64) -> (u32, u32) {
    ((tw & 0x1F) as u32, ((tw >> 5) & 0x3) as u32)
}

/// Packs exponent `y` and fraction `z` into the time window field.
pub fn encode_time_window(y: u32, z: u32) -> (tw: u64)
    requires
        y <= 31,
        z <= 3,
    ensures
        tw == time_window_bits(y, z),
        tw <= 0x7F,
        time_window_parts(tw) == (y, z),
{
    let tw: u64 = (y as u64) | ((z as u64) << 5);
    proof {
        lemma_time_window_round_trip(y, z);
    }
    tw
}

/// Unpacks a time window field into exponent and fraction.
pub fn decode_time_window(tw: u64) -> (r: (u32, u32))
    ensures
        r == time_window_parts(tw),
        r.0 <= 31,
        r.1 <= 3,
{
    let y: u64 = tw & 0x1F;
    let z: u64 = (tw >> 5) & 0x3;
    assert(y <= 31 && z <= 3) by (bit_vector)
        requires
            y == tw & 0x1F,
            z == (tw >> 5) & 0x3,
    ;
    (y as u32, z as u32)
}

/// Packing an exponent and a fraction and unpacking the field again gives
/// both back, and the field fits in seven bits.
pub proof fn lemma_time_window_round_trip(y: u32, z: u32)
    requires
        y <= 31,
        z <= 3,
    ensures
        time_window_parts(time_window_bits(y, z)) == (y, z),
        time_window_bits(y, z) <= 0x7F,
{
    let a = y as u64;
    let b = z as u64;
    let tw = a | (b << 5);
    assert(tw & 0x1F == a && (tw >> 5) & 0x3 == b && tw <= 0x7F) by (bit_vector)
        requires
            a <= 31,
            b <= 3,
            tw == a | (b << 5),
    ;
}

/// The bits of one window before its offset is applied: the power limit,
/// the enable bit, and the time window.
pub open spec fn window_field(pl: u64, tw: u64) -> u64 {
    pl | (1u64 << 15) | (tw << 17)
}

/// `value` with the window at `slot` replaced by `field`; the clamp bit of
/// that window and all bits of the other window stay.
pub open spec fn fold_window_spec(value: u64, field: u64, slot: WindowSlot) -> u64 {
    (value & !(WINDOW_FIELD_MASK << slot.offset_spec())) | (field << slot.offset_spec())
}

/// Builds the window field from a power limit and a time window.
pub fn encode_window_field(pl: u64, tw: u64) -> (field: u64)
    requires
        pl <= MAX_POWER_LIMIT,
        tw <= 0x7F,
    ensures
        field == window_field(pl, tw),
        field & 0x7FFF == pl,
        (field >> 15) & 1 == 1,
        (field >> 16) & 1 == 0,
        (field >> 17) == tw,
        field & !WINDOW_FIELD_MASK == 0,
{
    let field: u64 = pl | (1u64 << 15) | (tw << 17);
    assert(field & 0x7FFF == pl && (field >> 15) & 1 == 1 && (field >> 16) & 1 == 0 && (field
        >> 17) == tw && field & !0xFE_FFFFu64 == 0) by (bit_vector)
        requires
            pl <= 0x7FFF,
            tw <= 0x7F,
            field == pl | (1u64 << 15) | (tw << 17),
    ;
    field
}

/// Replaces the window at `slot` in `value` by `field`. Every bit outside
/// the window's own bits keeps its value.
pub fn fold_window(value: u64, field: u64, slot: WindowSlot) -> (r: u64)
    requires
        field & !WINDOW_FIELD_MASK == 0,
    ensures
        r == fold_window_spec(value, field, slot),
        (r >> slot.offset_spec()) & WINDOW_FIELD_MASK == field,
        r & !(WINDOW_FIELD_MASK << slot.offset_spec()) == value & !(WINDOW_FIELD_MASK
            << slot.offset_spec()),
{
    let offset: u64 = slot.offset();
    let r: u64 = (value & !(WINDOW_FIELD_MASK << offset)) | (field << offset);
    assert((r >> offset) & 0xFE_FFFFu64 == field && r & !(0xFE_FFFFu64 << offset) == value & !(
    0xFE_FFFFu64 << offset)) by (bit_vector)
        requires
            offset == 0 || offset == 32,
            field & !0xFE_FFFFu64 == 0,
            r == (value & !(0xFE_FFFFu64 << offset)) | (field << offset),
    ;
    r
}

/// The lock bit [63] of the package power limit register.
pub open spec fn is_locked_spec(raw: u64) -> bool {
    (raw >> 63) & 1 == 1
}

/// Whether the lock bit of the package power limit register is set.
pub fn is_locked(raw: u64) -> (r: bool)
    ensures
        r == is_locked_spec(raw),
{
    (raw >> 63) & 1 == 1
}

} // verus!
