use heater_core::{
    tick, CommandInput, Config, CoreState, EffectiveMode, FaultCode, ModeRequest, ProcessState,
    ScheduleEvalInput, SensorInput, TickInput, TimeInput,
};

fn test_cfg() -> Config {
    Config {
        preheat_ms: 100,
        ignition_window_ms: 100,
        flame_stabilise_ms: 100,
        retry_purge_ms: 100,
        cooldown_ms: 100,
        max_hx_temp_mc: 230_000,
        min_supply_mv: 10_000,
        min_run_ms: 200,
        min_off_ms: 200,
        setpoint_hysteresis_mc: 500,
        stage_low_delta_mc: 200,
        stage_medium_delta_mc: 1_000,
        stage_high_delta_mc: 2_000,
        boost_duration_ms: 600,
        has_flame_sensor: true,
        has_overheat_cutoff: false,
        has_fan_tach: false,
        ignition_min_rise_mc: 8_000,
        ignition_min_abs_mc: 45_000,
        run_min_temp_mc: 40_000,
        flame_loss_ms: 10_000,
        fan_stall_min_rpm: 300,
        fan_stall_ms: 3_000,
    }
}

fn input(
    monotonic_ms: u64,
    delta_ms: u32,
    mode_request: Option<ModeRequest>,
    schedule_enabled: bool,
    schedule_target: Option<i32>,
) -> TickInput {
    TickInput {
        time: TimeInput {
            utc: Some(0),
            utc_valid: true,
            monotonic_ms,
            delta_ms,
        },
        sensors: SensorInput {
            room_temp_mc: Some(15_000),
            hx_temp_mc: Some(30_000),
            flame_present: Some(false),
            overheat_cutoff_tripped: None,
            fan_rpm: None,
            supply_mv: Some(12_000),
            sensor_ok: true,
        },
        commands: CommandInput {
            mode_request,
            manual_setpoint_mc: Some(21_000),
            boost_request: false,
            boost_cancel: false,
            fault_reset_request: false,
        },
        schedule: ScheduleEvalInput {
            enabled_now: schedule_enabled,
            target_temp_mc: schedule_target,
        },
    }
}

fn run_to_run_state(state: &mut CoreState, cfg: &Config) {
    // Start command.
    let mut t = 0;
    let mut i = input(t, 100, Some(ModeRequest::Manual), false, None);
    tick(&i, state, cfg);

    // Precheck -> Preheat.
    t += 100;
    i.time.monotonic_ms = t;
    tick(&i, state, cfg);

    // Preheat elapsed.
    t += 100;
    i.time.monotonic_ms = t;
    tick(&i, state, cfg);

    // Ignition with flame present.
    t += 100;
    i.time.monotonic_ms = t;
    i.sensors.flame_present = Some(true);
    tick(&i, state, cfg);

    // Stabilise to Run.
    t += 100;
    i.time.monotonic_ms = t;
    tick(&i, state, cfg);

    assert_eq!(state.process_state, ProcessState::Run);
}

#[test]
fn lib_progression_reaches_run() {
    let cfg = test_cfg();
    let mut state = CoreState::default();
    let mut t = 0;

    let mut i = input(t, 100, Some(ModeRequest::Manual), false, None);
    let out0 = tick(&i, &mut state, &cfg);
    assert_eq!(out0.status.process_state, ProcessState::Precheck);

    t += 100;
    i.time.monotonic_ms = t;
    let out1 = tick(&i, &mut state, &cfg);
    assert_eq!(out1.status.process_state, ProcessState::Preheat);

    t += 100;
    i.time.monotonic_ms = t;
    let out2 = tick(&i, &mut state, &cfg);
    assert_eq!(out2.status.process_state, ProcessState::IgnitionTrial);

    t += 100;
    i.time.monotonic_ms = t;
    i.sensors.flame_present = Some(true);
    let out3 = tick(&i, &mut state, &cfg);
    assert_eq!(out3.status.process_state, ProcessState::FlameStabilise);

    t += 100;
    i.time.monotonic_ms = t;
    let out4 = tick(&i, &mut state, &cfg);
    assert_eq!(out4.status.process_state, ProcessState::Run);
    assert!(out4.actuators.fuel_pump_mhz > 0);
}

#[test]
fn lib_ignition_two_tries_then_lockout() {
    let cfg = test_cfg();
    let mut state = CoreState::default();

    let mut t = 0;
    let mut i = input(t, 100, Some(ModeRequest::Manual), false, None);

    tick(&i, &mut state, &cfg);
    t += 100;
    i.time.monotonic_ms = t;
    tick(&i, &mut state, &cfg);
    t += 100;
    i.time.monotonic_ms = t;
    tick(&i, &mut state, &cfg);
    t += 100;
    i.time.monotonic_ms = t;
    let out_fail_1 = tick(&i, &mut state, &cfg);
    assert_eq!(out_fail_1.status.process_state, ProcessState::Shutdown);

    t += 100;
    i.time.monotonic_ms = t;
    tick(&i, &mut state, &cfg);
    t += 100;
    i.time.monotonic_ms = t;
    let out_retry = tick(&i, &mut state, &cfg);
    assert!(out_retry.events.ignition_retry_started);
    assert_eq!(out_retry.status.process_state, ProcessState::Preheat);

    t += 100;
    i.time.monotonic_ms = t;
    tick(&i, &mut state, &cfg);
    t += 100;
    i.time.monotonic_ms = t;
    let out_fail_2 = tick(&i, &mut state, &cfg);
    assert_eq!(out_fail_2.status.fault, Some(FaultCode::IgnitionFailed));

    t += 100;
    i.time.monotonic_ms = t;
    tick(&i, &mut state, &cfg);
    t += 100;
    i.time.monotonic_ms = t;
    let out_lockout = tick(&i, &mut state, &cfg);
    assert_eq!(out_lockout.status.process_state, ProcessState::Lockout);
    assert_eq!(out_lockout.actuators.fuel_pump_mhz, 0);
    assert!(!out_lockout.actuators.glow_on);
}

#[test]
fn lib_flame_loss_in_run_latches_fault() {
    let cfg = test_cfg();
    let mut state = CoreState::default();
    run_to_run_state(&mut state, &cfg);

    let mut i = input(1_000, 100, None, false, None);
    i.sensors.flame_present = Some(false);
    let out = tick(&i, &mut state, &cfg);

    assert_eq!(out.status.process_state, ProcessState::Shutdown);
    assert_eq!(out.status.fault, Some(FaultCode::FlameLost));
}

#[test]
fn lib_safety_fault_overtemp_forces_safe_outputs() {
    let cfg = test_cfg();
    let mut state = CoreState::default();
    let mut i = input(0, 100, Some(ModeRequest::Manual), false, None);
    i.sensors.hx_temp_mc = Some(300_000);

    let out = tick(&i, &mut state, &cfg);
    assert_eq!(out.status.fault, Some(FaultCode::OverTemp));
    assert_eq!(out.status.process_state, ProcessState::Lockout);
    assert_eq!(out.actuators.fuel_pump_mhz, 0);
    assert!(!out.actuators.glow_on);
}

#[test]
fn lib_schedule_inhibited_without_valid_time_but_manual_works() {
    let cfg = test_cfg();
    let mut state = CoreState::default();

    let mut i = input(0, 100, Some(ModeRequest::Scheduled), true, Some(22_000));
    i.time.utc_valid = false;
    let out_schedule = tick(&i, &mut state, &cfg);
    assert!(out_schedule.status.schedule_inhibited_no_time);
    assert_eq!(out_schedule.status.process_state, ProcessState::Idle);

    i.commands.mode_request = Some(ModeRequest::Manual);
    i.time.utc_valid = false;
    let out_manual = tick(&i, &mut state, &cfg);
    assert_eq!(out_manual.status.process_state, ProcessState::Precheck);
}

#[test]
fn lib_mode_priority_manual_off_overrides_boost_and_schedule() {
    let cfg = test_cfg();
    let mut state = CoreState::default();

    let mut i = input(0, 100, Some(ModeRequest::Scheduled), true, Some(22_000));
    i.commands.boost_request = true;
    tick(&i, &mut state, &cfg);
    assert_eq!(state.effective_mode, EffectiveMode::Boost);

    i.time.monotonic_ms = 100;
    i.commands.mode_request = Some(ModeRequest::Off);
    i.commands.boost_request = false;
    let out = tick(&i, &mut state, &cfg);
    assert_eq!(out.status.effective_mode, EffectiveMode::Off);
    assert!(!out.status.heat_demand);
}

#[test]
fn lib_boost_overrides_schedule() {
    let cfg = test_cfg();
    let mut state = CoreState::default();

    let mut i = input(0, 100, Some(ModeRequest::Scheduled), true, Some(18_000));
    i.sensors.room_temp_mc = Some(17_800);
    tick(&i, &mut state, &cfg);
    assert_eq!(state.effective_mode, EffectiveMode::Scheduled);

    i.time.monotonic_ms = 100;
    i.commands.mode_request = None;
    i.commands.boost_request = true;
    let out = tick(&i, &mut state, &cfg);
    assert_eq!(out.status.effective_mode, EffectiveMode::Boost);
    assert!(out.status.heat_demand);
}

#[test]
fn lib_anti_short_cycle_min_run_and_min_off() {
    let cfg = test_cfg();
    let mut state = CoreState::default();
    run_to_run_state(&mut state, &cfg);

    let mut i = input(2_000, 100, None, false, None);
    i.sensors.room_temp_mc = Some(30_000);
    i.sensors.flame_present = Some(true);
    let out_hold = tick(&i, &mut state, &cfg);
    assert_eq!(out_hold.status.process_state, ProcessState::Run);

    i.time.monotonic_ms = 2_300;
    i.time.delta_ms = 300;
    i.sensors.flame_present = Some(true);
    let out_stop = tick(&i, &mut state, &cfg);
    assert_eq!(out_stop.status.process_state, ProcessState::Shutdown);

    i.time.monotonic_ms = 2_400;
    i.time.delta_ms = 100;
    tick(&i, &mut state, &cfg);
    i.time.monotonic_ms = 2_500;
    tick(&i, &mut state, &cfg);
    assert_eq!(state.process_state, ProcessState::Idle);

    i.time.monotonic_ms = 2_600;
    i.time.delta_ms = 100;
    i.commands.mode_request = Some(ModeRequest::Manual);
    i.sensors.room_temp_mc = Some(10_000);
    let out_blocked = tick(&i, &mut state, &cfg);
    assert_eq!(out_blocked.status.process_state, ProcessState::Idle);

    i.time.monotonic_ms = 2_900;
    i.time.delta_ms = 300;
    let out_start = tick(&i, &mut state, &cfg);
    assert_eq!(out_start.status.process_state, ProcessState::Precheck);
}

#[test]
fn lib_fault_reset_requires_clear_conditions() {
    let cfg = test_cfg();
    let mut state = CoreState::default();

    let mut i = input(0, 100, Some(ModeRequest::Manual), false, None);
    i.sensors.hx_temp_mc = Some(400_000);
    tick(&i, &mut state, &cfg);
    assert_eq!(state.process_state, ProcessState::Lockout);

    i.time.monotonic_ms = 100;
    i.commands.fault_reset_request = true;
    let out_reject = tick(&i, &mut state, &cfg);
    assert_eq!(out_reject.status.process_state, ProcessState::Lockout);

    i.time.monotonic_ms = 200;
    i.sensors.hx_temp_mc = Some(40_000);
    let out_accept = tick(&i, &mut state, &cfg);
    assert!(out_accept.events.fault_cleared);
    assert_eq!(out_accept.status.process_state, ProcessState::Idle);
}

#[test]
fn lib_deterministic_for_identical_input_stream() {
    let cfg = test_cfg();
    let mut a = CoreState::default();
    let mut b = CoreState::default();

    let mut stream = Vec::new();
    let mut t = 0;
    for step in 0..12 {
        let mut i = input(
            t,
            100,
            if step == 0 { Some(ModeRequest::Manual) } else { None },
            false,
            None,
        );
        if step >= 3 {
            i.sensors.flame_present = Some(true);
        }
        if step >= 8 {
            i.sensors.room_temp_mc = Some(30_000);
        }
        stream.push(i);
        t += 100;
    }

    let out_a: Vec<_> = stream.iter().map(|i| tick(i, &mut a, &cfg)).collect();
    let out_b: Vec<_> = stream.iter().map(|i| tick(i, &mut b, &cfg)).collect();

    assert_eq!(out_a, out_b);
    assert_eq!(a, b);
}

#[test]
fn lib_invalid_config_falls_back_to_defaults_flagged() {
    // A limit that is not a number lies outside every accepted range.
    let cfg = Config {
        preheat_ms: 0,
        ignition_window_ms: 0,
        flame_stabilise_ms: 0,
        retry_purge_ms: 999_999,
        cooldown_ms: 1,
        max_hx_temp_mc: i32::MIN,
        min_supply_mv: -3_000,
        min_run_ms: 0,
        min_off_ms: 0,
        setpoint_hysteresis_mc: 0,
        stage_low_delta_mc: 3_000,
        stage_medium_delta_mc: 1_000,
        stage_high_delta_mc: 500,
        boost_duration_ms: 0,
        has_flame_sensor: true,
        has_overheat_cutoff: true,
        has_fan_tach: false,
        ignition_min_rise_mc: 0,
        ignition_min_abs_mc: 500_000,
        run_min_temp_mc: 1_000_000,
        flame_loss_ms: 0,
        fan_stall_min_rpm: 300,
        fan_stall_ms: 3_000,
    };

    let mut state = CoreState::default();
    let i = input(0, 100, Some(ModeRequest::Manual), false, None);
    let out = tick(&i, &mut state, &cfg);

    assert!(out.status.config_defaulted);
}
