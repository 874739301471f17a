use powerlimit::codec::{
    decode_time_window, decode_units, encode_temperature_target, encode_time_window,
    encode_window_field, fold_window, is_locked, EncodingError, RegisterUnits, WindowSlot,
    MSR_PKG_POWER_LIMIT, MSR_RAPL_POWER_UNIT, MSR_TEMPERATURE_TARGET,
};
use powerlimit::quantizer::{Seconds, TimeWindowTable, TICKS_PER_SECOND};

#[test]
fn register_addresses() {
    assert_eq!(MSR_TEMPERATURE_TARGET, 0x1A2);
    assert_eq!(MSR_RAPL_POWER_UNIT, 0x606);
    assert_eq!(MSR_PKG_POWER_LIMIT, 0x610);
}

#[test]
fn time_window_round_trip_all_pairs() {
    for y in 0..32u32 {
        for z in 0..4u32 {
            let tw = encode_time_window(y, z);
            assert!(tw < 128);
            assert_eq!(tw, (y | (z << 5)) as u64);
            assert_eq!(decode_time_window(tw), (y, z));
        }
    }
}

#[test]
fn time_window_known_value() {
    assert_eq!(encode_time_window(14, 3), 110);
    assert_eq!(decode_time_window(110), (14, 3));
    assert_eq!(decode_time_window(0xFFFF_FFFF_FFFF_FFFF), (31, 3));
}

#[test]
fn temperature_trip_delta_ten() {
    let raw: u64 = (100u64 << 16) | 0xC0_0000_ABCD | (0x2Au64 << 24) | (0xDEAD_BEEFu64 << 32);
    let new = encode_temperature_target(Some(raw), 90).unwrap();
    assert_eq!((new >> 24) & 0x3F, 0b001010);
    let outside = !0x3F00_0000u64;
    assert_eq!(new & outside, raw & outside);
}

#[test]
fn temperature_never_within_three_degrees() {
    let raw: u64 = 100u64 << 16;
    let new = encode_temperature_target(Some(raw), 99).unwrap();
    assert_eq!((new >> 24) & 0x3F, 3);
    let new = encode_temperature_target(Some(raw), 97).unwrap();
    assert_eq!((new >> 24) & 0x3F, 3);
    let new = encode_temperature_target(Some(raw), 96).unwrap();
    assert_eq!((new >> 24) & 0x3F, 4);
    let new = encode_temperature_target(Some(raw), u64::MAX).unwrap();
    assert_eq!((new >> 24) & 0x3F, 3);
}

#[test]
fn temperature_delta_is_cut_to_six_bits() {
    let raw: u64 = 100u64 << 16;
    let new = encode_temperature_target(Some(raw), 10).unwrap();
    assert_eq!((new >> 24) & 0x3F, 90 & 0x3F);
    assert_eq!(new & !0x3F00_0000u64, raw);
}

#[test]
fn temperature_without_critical_reading_fails() {
    assert_eq!(encode_temperature_target(None, 90), Err(EncodingError::CriticalTemperature));
    assert_eq!(
        encode_temperature_target(Some(2u64 << 16), 90),
        Err(EncodingError::CriticalTemperature)
    );
    assert_eq!(encode_temperature_target(Some(3u64 << 16), 90), Ok((3u64 << 16) | (3 << 24)));
}

#[test]
fn units_are_decoded_from_their_fields() {
    let u = decode_units(0x000A_1003);
    assert_eq!(u, RegisterUnits { power_exp: 3, time_exp: 10 });
    let u = decode_units(0xFFFF_FFFF_FFF0_FFF0);
    assert_eq!(u, RegisterUnits { power_exp: 0, time_exp: 0 });
    let u = decode_units(0x000F_000F);
    assert_eq!(u, RegisterUnits { power_exp: 15, time_exp: 15 });
}

#[test]
fn window_field_has_enable_bit() {
    let field = encode_window_field(360, 110);
    assert_eq!(field, 360 | (1 << 15) | (110 << 17));
    assert_eq!(field & 0x7FFF, 360);
    assert_eq!((field >> 15) & 1, 1);
    assert_eq!((field >> 16) & 1, 0);
    assert_eq!(field >> 17, 110);
}

#[test]
fn fold_keeps_bits_outside_the_window() {
    let seed: u64 = 0xFFFF_FFFF_FFFF_FFFF;
    let field = encode_window_field(1, 0);
    let first = fold_window(seed, field, WindowSlot::First);
    assert_eq!(first, 0xFFFF_FFFF_FF01_8001);
    let second = fold_window(seed, field, WindowSlot::Second);
    assert_eq!(second, 0xFF01_8001_FFFF_FFFF);
    let zero = fold_window(0, field, WindowSlot::Second);
    assert_eq!(zero, 0x8001u64 << 32);
    assert_eq!(WindowSlot::First.offset(), 0);
    assert_eq!(WindowSlot::Second.offset(), 32);
}

#[test]
fn lock_bit_is_bit_63() {
    assert!(is_locked(1u64 << 63));
    assert!(!is_locked(!(1u64 << 63)));
}

#[test]
fn table_is_ascending_and_complete() {
    let table = TimeWindowTable::new(10);
    assert_eq!(table.time_exp(), 10);
    let mut previous = 0u64;
    for i in 0..128usize {
        let e = table.entry(i).unwrap();
        assert_eq!(e.y as usize, i / 4);
        assert_eq!(e.z as usize, i % 4);
        assert_eq!(e.ticks, (4 + e.z as u64) << (e.y + 5));
        assert!(e.ticks > previous);
        previous = e.ticks;
    }
    assert!(table.entry(128).is_none());
}

#[test]
fn table_entries_exact_values() {
    let table = TimeWindowTable::new(10);
    assert_eq!(table.entry(0).unwrap().ticks, 128);
    assert_eq!(table.entry(127).unwrap().ticks, 7u64 << 36);
    let finest = TimeWindowTable::new(15);
    assert_eq!(finest.entry(0).unwrap().ticks, 4);
    let coarsest = TimeWindowTable::new(0);
    assert_eq!(coarsest.entry(0).unwrap().ticks, 4 * 32768);
    assert_eq!(coarsest.entry(127).unwrap().ticks, 7u64 << 46);
}

#[test]
fn quantize_twenty_eight_seconds() {
    let table = TimeWindowTable::new(10);
    assert_eq!(Seconds::from_whole(28).ticks, 28 * TICKS_PER_SECOND);
    assert_eq!(table.quantize(Seconds::from_whole(28)), Ok((14, 3)));
    assert_eq!(table.quantize(Seconds { ticks: 28 * TICKS_PER_SECOND + 1 }), Ok((15, 0)));
    assert_eq!(table.quantize(Seconds { ticks: 28 * TICKS_PER_SECOND - 1 }), Ok((14, 3)));
}

#[test]
fn quantize_at_or_below_smallest_entry() {
    let table = TimeWindowTable::new(10);
    assert_eq!(table.quantize(Seconds { ticks: 0 }), Ok((0, 0)));
    assert_eq!(table.quantize(Seconds { ticks: 128 }), Ok((0, 0)));
    assert_eq!(table.quantize(Seconds { ticks: 129 }), Ok((0, 1)));
}

#[test]
fn quantize_above_largest_entry_fails() {
    let table = TimeWindowTable::new(10);
    let largest = 7u64 << 36;
    assert_eq!(table.quantize(Seconds { ticks: largest }), Ok((31, 3)));
    assert_eq!(
        table.quantize(Seconds { ticks: largest + 1 }),
        Err(EncodingError::DurationOutOfRange)
    );
    assert_eq!(
        table.quantize(Seconds { ticks: u64::MAX }),
        Err(EncodingError::DurationOutOfRange)
    );
}

#[test]
fn quantize_is_the_minimal_cover() {
    let table = TimeWindowTable::new(7);
    for request in [1u64, 1000, 4097, 65536, 1 << 30, (7u64 << 39) - 5] {
        let (y, z) = table.quantize(Seconds { ticks: request }).unwrap();
        let chosen = (4 + z as u64) << (y + 8);
        assert!(chosen >= request);
        for i in 0..128usize {
            let e = table.entry(i).unwrap();
            if e.ticks >= request {
                assert!(chosen <= e.ticks);
            }
        }
    }
}
