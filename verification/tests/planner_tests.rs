use powerlimit::codec::{decode_units, EncodingError, RegisterUnits, WindowSlot};
use powerlimit::msr::{
    CpuSweep, ReadMsrBuilder, RegisterIoError, RegisterRead, RegisterWrite, WriteMsrBuilder,
};
use powerlimit::orchestrator::BatchSession;
use powerlimit::planner::{
    build_msr_updates, encode_window, plan_power_limit, plan_slot, plan_temperature, power_limit,
    Config, ModeConfig, PendingWrite, RegisterSnapshot,
};
use powerlimit::power::{
    power_state_from_indicator, MonitorAction, MonitorEvent, MonitorPhase, PowerSourceMonitor,
    PowerState,
};
use powerlimit::quantizer::{Seconds, TimeWindowTable};

fn empty_config() -> ModeConfig {
    ModeConfig {
        update_rate_s: None,
        pl1_tdp_w: None,
        pl1_duration_s: None,
        pl2_tdp_w: None,
        pl2_duration_s: None,
        maximum_temp_c: None,
        hwp_mode: None,
    }
}

const UNITS_RAW: u64 = 0x000A_0003;

#[test]
fn power_limit_is_scaled_by_the_unit() {
    let units = decode_units(UNITS_RAW);
    assert_eq!(power_limit(&units, 45), Ok(360));
    assert_eq!(power_limit(&units, 0), Ok(0));
    assert_eq!(power_limit(&units, 4095), Ok(32760));
    let whole = RegisterUnits { power_exp: 0, time_exp: 10 };
    assert_eq!(power_limit(&whole, 0x7FFF), Ok(0x7FFF));
}

#[test]
fn power_limit_over_fifteen_bits_overflows() {
    let units = decode_units(UNITS_RAW);
    assert_eq!(power_limit(&units, 4096), Err(EncodingError::Overflow));
    assert_eq!(power_limit(&units, u64::MAX), Err(EncodingError::Overflow));
    let whole = RegisterUnits { power_exp: 0, time_exp: 10 };
    assert_eq!(power_limit(&whole, 0x8000), Err(EncodingError::Overflow));
}

#[test]
fn window_errors_in_order() {
    let units = decode_units(UNITS_RAW);
    let table = TimeWindowTable::new(units.time_exp);
    let too_long = Seconds { ticks: u64::MAX };
    assert_eq!(encode_window(&units, &table, 4096, too_long), Err(EncodingError::Overflow));
    assert_eq!(
        encode_window(&units, &table, 45, too_long),
        Err(EncodingError::DurationOutOfRange)
    );
    assert_eq!(
        encode_window(&units, &table, 45, Seconds::from_whole(28)),
        Ok(360 | (1 << 15) | (110 << 17))
    );
}

#[test]
fn absent_window_leaves_value_alone() {
    let units = decode_units(UNITS_RAW);
    let table = TimeWindowTable::new(units.time_exp);
    let seed = 0x0123_4567_89AB_CDEFu64;
    let d = Some(Seconds::from_whole(1));
    assert_eq!(plan_slot(seed, &units, &table, None, d, WindowSlot::First), (seed, None));
    assert_eq!(plan_slot(seed, &units, &table, Some(5), None, WindowSlot::Second), (seed, None));
    assert_eq!(plan_slot(seed, &units, &table, None, None, WindowSlot::First), (seed, None));
    assert_eq!(
        plan_slot(seed, &units, &table, Some(4096), d, WindowSlot::First),
        (seed, Some(EncodingError::Overflow))
    );
}

#[test]
fn planner_emits_nothing_without_windows() {
    let units = decode_units(UNITS_RAW);
    let seed = 0x0042_8168_00DD_8258u64;
    let mut conf = empty_config();
    conf.pl1_tdp_w = Some(45);
    conf.pl2_duration_s = Some(Seconds::from_whole(1));
    let (value, write, e1, e2) = plan_power_limit(seed, &units, &conf);
    assert_eq!(value, seed);
    assert_eq!(write, None);
    assert_eq!(e1, None);
    assert_eq!(e2, None);
}

#[test]
fn planner_folds_only_the_configured_window() {
    let units = decode_units(UNITS_RAW);
    let seed = 0x0042_8168_00DD_8258u64;
    let mut conf = empty_config();
    conf.pl2_tdp_w = Some(60);
    conf.pl2_duration_s = Some(Seconds::from_whole(28));
    let (value, write, e1, e2) = plan_power_limit(seed, &units, &conf);
    assert_eq!(value & 0xFFFF_FFFF, seed & 0xFFFF_FFFF);
    assert_eq!((value >> 32) & 0x7FFF, 480);
    assert_eq!((value >> 47) & 1, 1);
    assert_eq!((value >> 48) & 1, (seed >> 48) & 1);
    assert_eq!((value >> 49) & 0x7F, 110);
    assert_eq!(value >> 56, seed >> 56);
    assert_eq!(write, Some(PendingWrite { register: 0x610, value }));
    assert_eq!((e1, e2), (None, None));
}

#[test]
fn planner_seeds_second_window_from_first() {
    let units = decode_units(UNITS_RAW);
    let mut conf = empty_config();
    conf.pl1_tdp_w = Some(45);
    conf.pl1_duration_s = Some(Seconds::from_whole(28));
    conf.pl2_tdp_w = Some(60);
    conf.pl2_duration_s = Some(Seconds { ticks: 320 });
    let (value, write, _, _) = plan_power_limit(1u64 << 16, &units, &conf);
    let low = 360u64 | (1 << 15) | (1 << 16) | (110 << 17);
    let high = 480u64 | (1 << 15) | (33u64 << 17);
    assert_eq!(value, low | (high << 32));
    assert_eq!(write, Some(PendingWrite { register: 0x610, value }));
}

#[test]
fn planner_skips_unencodable_window_and_keeps_the_other() {
    let units = decode_units(UNITS_RAW);
    let mut conf = empty_config();
    conf.pl1_tdp_w = Some(5000);
    conf.pl1_duration_s = Some(Seconds::from_whole(28));
    conf.pl2_tdp_w = Some(60);
    conf.pl2_duration_s = Some(Seconds { ticks: u64::MAX });
    let (value, write, e1, e2) = plan_power_limit(0, &units, &conf);
    assert_eq!(value, 0);
    assert_eq!(write, None);
    assert_eq!(e1, Some(EncodingError::Overflow));
    assert_eq!(e2, Some(EncodingError::DurationOutOfRange));
}

#[test]
fn planner_no_write_when_value_is_unchanged() {
    let units = decode_units(UNITS_RAW);
    let mut conf = empty_config();
    conf.pl1_tdp_w = Some(45);
    conf.pl1_duration_s = Some(Seconds::from_whole(28));
    let seed = 360u64 | (1 << 15) | (110 << 17);
    let (value, write, _, _) = plan_power_limit(seed, &units, &conf);
    assert_eq!(value, seed);
    assert_eq!(write, None);
}

#[test]
fn locked_register_is_not_written() {
    let mut conf = empty_config();
    conf.pl1_tdp_w = Some(45);
    conf.pl1_duration_s = Some(Seconds::from_whole(28));
    let snapshot = RegisterSnapshot {
        temperature_target: None,
        rapl_units: UNITS_RAW,
        power_limit: 1u64 << 63,
    };
    let plan = build_msr_updates(&conf, &snapshot);
    assert!(plan.writes.is_empty());
    assert!(plan.locked);
    assert_eq!(plan.pl1_error, None);
}

#[test]
fn temperature_plan_cases() {
    let mut conf = empty_config();
    assert_eq!(plan_temperature(&conf, Some(100 << 16)), (None, None));
    conf.maximum_temp_c = Some(90);
    assert_eq!(
        plan_temperature(&conf, Some(100 << 16)),
        (Some(PendingWrite { register: 0x1A2, value: (100 << 16) | (10 << 24) }), None)
    );
    assert_eq!(plan_temperature(&conf, Some((100 << 16) | (10 << 24))), (None, None));
    assert_eq!(plan_temperature(&conf, None), (None, Some(EncodingError::CriticalTemperature)));
}

#[test]
fn end_to_end_plan() {
    let mut conf = empty_config();
    conf.pl1_tdp_w = Some(45);
    conf.pl1_duration_s = Some(Seconds::from_whole(28));
    conf.maximum_temp_c = Some(85);
    let snapshot = RegisterSnapshot {
        temperature_target: Some(100u64 << 16),
        rapl_units: UNITS_RAW,
        power_limit: 0,
    };
    let plan = build_msr_updates(&conf, &snapshot);
    assert_eq!(plan.writes.len(), 2);
    assert_eq!(
        plan.writes[0],
        PendingWrite { register: 0x1A2, value: (100u64 << 16) | (15 << 24) }
    );
    let pl = plan.writes[1];
    assert_eq!(pl.register, 0x610);
    assert_eq!(pl.value & 0x7FFF, 360);
    assert_eq!((pl.value >> 15) & 1, 1);
    assert_eq!((pl.value >> 17) & 0x1F, 14);
    assert_eq!((pl.value >> 22) & 0x3, 3);
    assert_eq!(pl.value, 360 | (1 << 15) | (110 << 17));
    assert_eq!(plan.temperature_error, None);
    assert_eq!(plan.pl1_error, None);
    assert_eq!(plan.pl2_error, None);
    assert!(!plan.locked);
}

#[test]
fn config_selects_profile_by_state() {
    let mut battery = empty_config();
    battery.pl1_tdp_w = Some(15);
    let mut ac = empty_config();
    ac.pl1_tdp_w = Some(45);
    let config = Config { battery, ac };
    assert_eq!(config.mode(PowerState::Battery).pl1_tdp_w, Some(15));
    assert_eq!(config.mode(PowerState::AC).pl1_tdp_w, Some(45));
}

#[test]
fn extract_bits_is_inclusive() {
    let mut b = ReadMsrBuilder::new(0x1A2);
    assert_eq!(b.extract_bits(0x1234_5678_9ABC_DEF0), 0x1234_5678_9ABC_DEF0);
    b.mask((16, 23));
    assert_eq!(b.extract_bits(0x0064_0000), 0x64);
    assert_eq!(b.extract_bits(0xFFFF_FFFF_FFFF_FFFF), 0xFF);
    let mut low = ReadMsrBuilder::new(0x606);
    assert_eq!(low.mask((0, 3)).extract_bits(0xAB), 0xB);
    let mut all = ReadMsrBuilder::new(0x606);
    assert_eq!(all.mask((0, 63)).extract_bits(u64::MAX), u64::MAX);
    let mut top = ReadMsrBuilder::new(0x610);
    assert_eq!(top.mask((62, 63)).extract_bits(1u64 << 63), 2);
}

#[test]
fn read_first_maps_value_and_failure() {
    let mut b = ReadMsrBuilder::new(0x1A2);
    b.mask((16, 23));
    assert_eq!(b.first_request(), RegisterRead { cpu: 0, msr: 0x1A2 });
    assert_eq!(b.read_first(Ok(0x0064_1234)), Ok(0x64));
    assert_eq!(b.read_first(Err(13)), Err(RegisterIoError { cpu: 0, cause: 13 }));
}

#[test]
fn read_session_collects_by_cpu() {
    let mut b = ReadMsrBuilder::new(0x606);
    b.mask((0, 3));
    let mut s = b.read_on(3);
    let mut cpu = 0usize;
    while let Some(req) = s.next_read() {
        assert_eq!(req, RegisterRead { cpu, msr: 0x606 });
        s.record(Ok(0x10 + cpu as u64));
        cpu += 1;
    }
    assert_eq!(cpu, 3);
    assert_eq!(s.finish(), Some(Ok(vec![0, 1, 2])));
}

#[test]
fn read_session_stops_at_first_failure() {
    let b = ReadMsrBuilder::new(0x606);
    let mut s = b.read_on(4);
    s.record(Ok(7));
    assert_eq!(s.next_read(), Some(RegisterRead { cpu: 1, msr: 0x606 }));
    s.record(Err(5));
    assert_eq!(s.next_read(), None);
    s.record(Ok(9));
    assert_eq!(s.finish(), Some(Err(RegisterIoError { cpu: 1, cause: 5 })));
    let pending = b.read_on(1);
    assert_eq!(pending.finish(), None);
}

#[test]
fn write_all_stops_at_failing_cpu() {
    let n = 8usize;
    let k = 3usize;
    let mut session = WriteMsrBuilder::new(0x610, 0xABCD).write_on(n);
    let mut written: Vec<usize> = Vec::new();
    while let Some(req) = session.next_write() {
        assert_eq!(req, RegisterWrite { cpu: written.len(), msr: 0x610, val: 0xABCD });
        written.push(req.cpu);
        if req.cpu == k {
            session.record(Err(5));
        } else {
            session.record(Ok(()));
        }
    }
    assert_eq!(written, vec![0, 1, 2, 3]);
    assert_eq!(session.result(), Some(Err(RegisterIoError { cpu: k, cause: 5 })));
    session.record(Ok(()));
    assert_eq!(session.next_write(), None);
    assert_eq!(session.result(), Some(Err(RegisterIoError { cpu: k, cause: 5 })));
}

#[test]
fn batch_continues_after_failed_write() {
    let batch = vec![
        PendingWrite { register: 0x1A2, value: 1 },
        PendingWrite { register: 0x610, value: 2 },
    ];
    let mut attempts: Vec<(u64, usize, u64)> = Vec::new();
    let mut session = BatchSession::apply_on(batch, 3);
    assert!(!session.is_done());
    while let Some(req) = session.next_write() {
        attempts.push((req.msr, req.cpu, req.val));
        if req.msr == 0x1A2 && req.cpu == 1 {
            session.record(Err(1));
        } else {
            session.record(Ok(()));
        }
    }
    assert_eq!(
        attempts,
        vec![(0x1A2, 0, 1), (0x1A2, 1, 1), (0x610, 0, 2), (0x610, 1, 2), (0x610, 2, 2)]
    );
    assert!(session.is_done());
    assert_eq!(session.results, vec![Err(RegisterIoError { cpu: 1, cause: 1 }), Ok(())]);
    session.record(Err(9));
    assert_eq!(session.results.len(), 2);
}

#[test]
fn batch_without_cpus_or_writes_is_done_at_once() {
    let w = PendingWrite { register: 0x610, value: 2 };
    let none = BatchSession::apply_on(vec![w, w], 0);
    assert!(none.is_done());
    assert_eq!(none.next_write(), None);
    assert_eq!(none.results, vec![Ok(()), Ok(())]);
    let empty = BatchSession::apply_on(Vec::new(), 4);
    assert!(empty.is_done());
    assert!(empty.results.is_empty());
    let here = BatchSession::apply(vec![w]);
    if here.cpu_count > 0 {
        assert_eq!(here.next_write(), Some(RegisterWrite { cpu: 0, msr: 0x610, val: 2 }));
    }
}

#[test]
fn write_all_succeeds_on_every_cpu() {
    let mut session = WriteMsrBuilder::new(0x1A2, 7).write_on(2);
    assert_eq!(session.result(), None);
    session.record(Ok(()));
    assert_eq!(session.result(), None);
    session.record(Ok(()));
    assert_eq!(session.result(), Some(Ok(())));
    assert_eq!(session.next_write(), None);
    let empty = WriteMsrBuilder::new(0x1A2, 7).write_on(0);
    assert_eq!(empty.result(), Some(Ok(())));
}

#[test]
fn write_on_this_machine_starts_at_cpu_zero() {
    let session = WriteMsrBuilder::new(0x610, 1).write();
    assert_eq!(session.sweep.next, 0);
    assert_eq!(session.sweep.failure, None);
    if session.sweep.cpu_count > 0 {
        assert_eq!(session.next_write(), Some(RegisterWrite { cpu: 0, msr: 0x610, val: 1 }));
    }
    let reads = ReadMsrBuilder::new(0x606).read();
    assert_eq!(reads.sweep.cpu_count, session.sweep.cpu_count);
}

#[test]
fn write_one_names_the_cpu() {
    let b = WriteMsrBuilder::new(0x610, 99);
    assert_eq!(b.write_one(5), RegisterWrite { cpu: 5, msr: 0x610, val: 99 });
}

#[test]
fn sweep_counts_successes() {
    let mut s = CpuSweep::new(2);
    assert_eq!(s.pending(), Some(0));
    s.advance(Ok(()));
    assert_eq!(s.pending(), Some(1));
    assert_eq!(s.result(), None);
    s.advance(Err(-3));
    assert_eq!(s.pending(), None);
    assert_eq!(s.result(), Some(Err(RegisterIoError { cpu: 1, cause: -3 })));
}

#[test]
fn indicator_contents_to_state() {
    assert_eq!(power_state_from_indicator(Some(b"1\n")), PowerState::AC);
    assert_eq!(power_state_from_indicator(Some(b"0\n")), PowerState::Battery);
    assert_eq!(power_state_from_indicator(Some(b"1")), PowerState::Battery);
    assert_eq!(power_state_from_indicator(Some(b"")), PowerState::Battery);
    assert_eq!(power_state_from_indicator(Some(b"1\n\n")), PowerState::Battery);
    assert_eq!(power_state_from_indicator(None), PowerState::Battery);
}

#[test]
fn monitor_emits_only_changes() {
    let mut m = PowerSourceMonitor::new();
    assert_eq!(m.phase(), MonitorPhase::Initializing);
    assert_eq!(m.step(MonitorEvent::Initial(PowerState::AC)), MonitorAction::Nothing);
    assert_eq!(m.phase(), MonitorPhase::EventSubscribed);
    let mut out = Vec::new();
    for online in [1i64, 0, 0, 7] {
        if let MonitorAction::Emit(s) = m.step(MonitorEvent::Notification(Some(online))) {
            out.push(s);
        }
    }
    assert_eq!(out, vec![PowerState::Battery, PowerState::AC]);
    assert_eq!(m.current(), PowerState::AC);
}

#[test]
fn monitor_polling_sequence() {
    let mut m = PowerSourceMonitor::new();
    m.step(MonitorEvent::Initial(PowerState::AC));
    assert_eq!(m.step(MonitorEvent::Notification(None)), MonitorAction::StartPolling);
    assert_eq!(m.phase(), MonitorPhase::Polling);
    let readings = vec![PowerState::AC, PowerState::Battery, PowerState::Battery, PowerState::AC];
    let out = m.poll_all(&readings);
    assert_eq!(out, vec![PowerState::Battery, PowerState::AC]);
    assert_eq!(m.current(), PowerState::AC);
    assert_eq!(m.step(MonitorEvent::Poll(None)), MonitorAction::Nothing);
    assert_eq!(m.step(MonitorEvent::Notification(Some(0))), MonitorAction::Nothing);
    assert_eq!(m.current(), PowerState::AC);
}

#[test]
fn monitor_falls_back_and_closes() {
    let mut m = PowerSourceMonitor::new();
    assert_eq!(m.step(MonitorEvent::Poll(Some(PowerState::AC))), MonitorAction::Nothing);
    m.step(MonitorEvent::Initial(PowerState::Battery));
    assert_eq!(m.step(MonitorEvent::SubscriptionLost), MonitorAction::StartPolling);
    assert_eq!(m.step(MonitorEvent::Poll(Some(PowerState::AC))), MonitorAction::Emit(PowerState::AC));
    assert_eq!(m.step(MonitorEvent::Disconnected), MonitorAction::Nothing);
    assert_eq!(m.phase(), MonitorPhase::Closed);
    assert_eq!(m.step(MonitorEvent::Poll(Some(PowerState::Battery))), MonitorAction::Nothing);
    assert_eq!(m.current(), PowerState::AC);
    assert_eq!(m.phase(), MonitorPhase::Closed);
}
