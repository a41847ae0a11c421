//! Properties of the controller that hold for every input, state and
//! configuration, stated over the spec of one control step.
use vstd::prelude::*;
use crate::config::Config;
use crate::fsm::{mode_resolved, sat_add, safety_fault, tick_result, timers_advanced};
use crate::types::{CoreState, EffectiveMode, FaultCode, HeatStage, ProcessState, TickInput};

verus! {

/// The fuel pump only runs during ignition trial, flame stabilisation and
/// run; the glow plug only heats from preheat to flame stabilisation; the fan
/// keeps running through shutdown and cooldown; a locked-out heater has all
/// actuators off. The status reports the new state.
pub proof fn lemma_actuator_safety(input: TickInput, state: CoreState, cfg: Config)
    ensures
        ({
            let (s, out) = tick_result(input, state, cfg);
            &&& out.status.process_state == s.process_state
            &&& out.status.fault == s.latched_fault
            &&& out.status.effective_mode == s.effective_mode
            &&& out.status.active_stage == s.last_heat_stage
            &&& out.status.config_defaulted == cfg.sanitised().used_defaults
            &&& (out.actuators.fuel_pump_mhz > 0 <==> (s.process_state is IgnitionTrial
                || s.process_state is FlameStabilise || s.process_state is Run))
            &&& (out.actuators.glow_on <==> (s.process_state is Preheat
                || s.process_state is IgnitionTrial || s.process_state is FlameStabilise))
            &&& (s.process_state is Lockout ==> out.actuators.fan_pct == 0)
            &&& (s.process_state is Shutdown || s.process_state is Cooldown
                ==> out.actuators.fan_pct > 0)
            &&& (s.process_state !is Run ==> s.last_heat_stage is Off)
        }),
{
}


/// A safety fault in the input always leaves a latched fault, no fuel, and
/// the heater locked out, cooling down, or (when a retry purge just ended)
/// preheating with the glow plug only. A fault latched in this tick is the
/// safety fault itself.
pub proof fn lemma_safety_fault_response(input: TickInput, state: CoreState, cfg: Config)
    requires
        safety_fault(input, cfg.sanitised().cfg) is Some,
    ensures
        ({
            let (s, out) = tick_result(input, state, cfg);
            let f = safety_fault(input, cfg.sanitised().cfg);
            &&& s.latched_fault is Some
            &&& out.actuators.fuel_pump_mhz == 0
            &&& (s.process_state is Lockout || s.process_state is Cooldown
                || s.process_state is Preheat)
            &&& (s.process_state is Preheat ==> state.process_state is Cooldown
                && state.pending_restart_after_cooldown)
            &&& (state.latched_fault is None ==> s.latched_fault == f
                && out.events.fault_latched == f)
            &&& !out.events.fault_cleared
        }),
{
}

/// A latched fault stays latched until it is cleared; it is cleared exactly
/// when a locked-out heater gets a reset request while no safety fault is
/// present, and clearing returns the heater to idle.
pub proof fn lemma_fault_latch_and_reset(input: TickInput, state: CoreState, cfg: Config)
    ensures
        ({
            let (s, out) = tick_result(input, state, cfg);
            let c = cfg.sanitised().cfg;
            &&& (out.events.fault_cleared <==> (state.process_state is Lockout
                && input.commands.fault_reset_request && safety_fault(input, c) is None))
            &&& (out.events.fault_cleared ==> s.latched_fault is None
                && s.process_state is Idle)
            &&& (state.latched_fault is Some && !out.events.fault_cleared
                ==> s.latched_fault == state.latched_fault)
            &&& (state.process_state is Lockout && s.process_state !is Lockout
                ==> out.events.fault_cleared)
        }),
{
}

/// Events are edges: a state is reported as entered exactly when the state
/// changed, a fault is reported as latched exactly when none was latched
/// before, and the state timer restarts exactly on a change.
#[verifier::rlimit(50)]
pub proof fn lemma_events_are_edges(input: TickInput, state: CoreState, cfg: Config)
    ensures
        ({
            let (s, out) = tick_result(input, state, cfg);
            &&& out.events.entered_state == if s.process_state != state.process_state {
                Some(s.process_state)
            } else {
                None::<ProcessState>
            }
            &&& out.events.fault_latched == if state.latched_fault is None {
                s.latched_fault
            } else {
                None::<FaultCode>
            }
            &&& s.state_elapsed_ms == if s.process_state != state.process_state {
                0
            } else {
                sat_add(state.state_elapsed_ms, input.time.delta_ms as u64)
            }
        }),
{
    match state.process_state {
        ProcessState::Idle => {},
        ProcessState::Precheck => {},
        ProcessState::Preheat => {},
        ProcessState::IgnitionTrial => {},
        ProcessState::FlameStabilise => {},
        ProcessState::Run => {},
        ProcessState::Shutdown => {},
        ProcessState::Cooldown => {},
        ProcessState::Lockout => {},
    }
}


/// Mode priority: off overrides everything (no demand, and no fuel once the
/// tick is over); manual overrides boost and schedule; a boost in
/// force overrides the schedule, demands heat and runs at the high stage.
#[verifier::rlimit(50)]
pub proof fn lemma_mode_priority(input: TickInput, state: CoreState, cfg: Config)
    ensures
        ({
            let (s, out) = tick_result(input, state, cfg);
            &&& (s.selected_mode is Off ==> s.effective_mode is Off && !out.status.heat_demand
                && out.actuators.fuel_pump_mhz == 0)
            &&& (s.selected_mode is Manual ==> s.effective_mode is Manual)
            &&& (s.selected_mode is Scheduled ==> (s.effective_mode is Boost
                <==> s.boost_expires_at_ms is Some))
            &&& (s.effective_mode is Boost ==> out.status.heat_demand && (s.process_state is Run
                ==> s.last_heat_stage is High))
        }),
{
    match state.process_state {
        ProcessState::Idle => {},
        ProcessState::Precheck => {},
        ProcessState::Preheat => {},
        ProcessState::IgnitionTrial => {},
        ProcessState::FlameStabilise => {},
        ProcessState::Run => {},
        ProcessState::Shutdown => {},
        ProcessState::Cooldown => {},
        ProcessState::Lockout => {},
    }
}

/// A schedule without valid wall-clock time is inhibited and demands no
/// heat; nothing else is ever reported as inhibited.
pub proof fn lemma_schedule_needs_valid_time(input: TickInput, state: CoreState, cfg: Config)
    ensures
        ({
            let (s, out) = tick_result(input, state, cfg);
            &&& (out.status.schedule_inhibited_no_time <==> (s.effective_mode is Scheduled
                && !input.time.utc_valid))
            &&& (out.status.schedule_inhibited_no_time ==> !out.status.heat_demand)
        }),
{
}

/// A combustion session starts only from idle, with heat demand, no latched
/// or present fault, and after the minimum off time; it starts with a fresh
/// ignition attempt count.
pub proof fn lemma_session_start(input: TickInput, state: CoreState, cfg: Config)
    ensures
        ({
            let (s, out) = tick_result(input, state, cfg);
            let c = cfg.sanitised().cfg;
            s.process_state is Precheck && state.process_state !is Precheck ==> {
                &&& state.process_state is Idle
                &&& out.status.heat_demand
                &&& state.latched_fault is None
                &&& safety_fault(input, c) is None
                &&& sat_add(state.off_elapsed_ms, input.time.delta_ms as u64) >= c.min_off_ms
                &&& s.ignition_attempt == 0
            }
        }),
{
    match state.process_state {
        ProcessState::Idle => {},
        ProcessState::Precheck => {},
        ProcessState::Preheat => {},
        ProcessState::IgnitionTrial => {},
        ProcessState::FlameStabilise => {},
        ProcessState::Run => {},
        ProcessState::Shutdown => {},
        ProcessState::Cooldown => {},
        ProcessState::Lockout => {},
    }
}

/// Anti short-cycling: a running heater without a fault stops only when
/// switched off or, without demand, after the minimum run time.
pub proof fn lemma_minimum_run_time(input: TickInput, state: CoreState, cfg: Config)
    ensures
        ({
            let (s, out) = tick_result(input, state, cfg);
            let c = cfg.sanitised().cfg;
            state.process_state is Run && s.process_state !is Run && s.latched_fault is None ==> {
                &&& s.process_state is Shutdown
                &&& (s.selected_mode is Off || (!out.status.heat_demand && sat_add(
                    state.run_elapsed_ms,
                    input.time.delta_ms as u64,
                ) >= c.min_run_ms))
            }
        }),
{
}

/// At most two ignition attempts: the counter never exceeds two once it is
/// within bounds, and the ignition fault is latched only on a failed second
/// trial.
pub proof fn lemma_ignition_attempts(input: TickInput, state: CoreState, cfg: Config)
    ensures
        ({
            let (s, out) = tick_result(input, state, cfg);
            &&& (state.ignition_attempt <= 2 ==> s.ignition_attempt <= 2)
            &&& (out.events.fault_latched == Some(FaultCode::IgnitionFailed) ==> {
                &&& state.process_state is IgnitionTrial
                &&& state.ignition_attempt >= 2
                &&& s.process_state is Shutdown
            })
        }),
{
    match state.process_state {
        ProcessState::Idle => {},
        ProcessState::Precheck => {},
        ProcessState::Preheat => {},
        ProcessState::IgnitionTrial => {},
        ProcessState::FlameStabilise => {},
        ProcessState::Run => {},
        ProcessState::Shutdown => {},
        ProcessState::Cooldown => {},
        ProcessState::Lockout => {},
    }
}

/// A retry after a failed first ignition starts exactly when a cooldown
/// with a pending restart has run for the purge time, and goes to preheat.
pub proof fn lemma_ignition_retry(input: TickInput, state: CoreState, cfg: Config)
    ensures
        ({
            let (s, out) = tick_result(input, state, cfg);
            let c = cfg.sanitised().cfg;
            &&& (out.events.ignition_retry_started <==> (state.process_state is Cooldown
                && state.pending_restart_after_cooldown && sat_add(
                state.state_elapsed_ms,
                input.time.delta_ms as u64,
            ) >= c.retry_purge_ms))
            &&& (out.events.ignition_retry_started ==> s.process_state is Preheat
                && !s.pending_restart_after_cooldown)
        }),
{
    match state.process_state {
        ProcessState::Idle => {},
        ProcessState::Precheck => {},
        ProcessState::Preheat => {},
        ProcessState::IgnitionTrial => {},
        ProcessState::FlameStabilise => {},
        ProcessState::Run => {},
        ProcessState::Shutdown => {},
        ProcessState::Cooldown => {},
        ProcessState::Lockout => {},
    }
}

/// Shutdown always hands over to cooldown on the next tick.
pub proof fn lemma_shutdown_then_cooldown(input: TickInput, state: CoreState, cfg: Config)
    requires
        state.process_state is Shutdown,
    ensures
        tick_result(input, state, cfg).0.process_state is Cooldown,
{
}

/// A step is a function of its input, state and configuration: identical
/// input streams from identical states give identical outputs and states.
pub proof fn lemma_tick_deterministic(
    input: TickInput,
    a: CoreState,
    b: CoreState,
    cfg: Config,
)
    requires
        a == b,
    ensures
        tick_result(input, a, cfg) == tick_result(input, b, cfg),
{
}


/// Sanitisation always yields every bounded field within its range, stage
/// thresholds in ascending order, and an ignition minimum below the
/// overheat limit.
pub proof fn lemma_sanitised_config_bounds(c: Config)
    ensures
        c.sanitised().cfg.fields_in_range(),
        c.sanitised().cfg.stages_ordered(),
        c.sanitised().cfg.ignition_min_abs_mc < c.sanitised().cfg.max_hx_temp_mc,
{
}

/// A configuration is flagged as defaulted exactly when it is not valid, and
/// a valid configuration passes sanitisation unchanged.
pub proof fn lemma_defaulted_iff_invalid(c: Config)
    ensures
        c.sanitised().used_defaults == !c.is_valid(),
        c.is_valid() ==> c.sanitised().cfg == c,
{
}

/// The default configuration is valid.
pub proof fn lemma_default_config_valid()
    ensures
        Config::defaults().is_valid(),
{
}


/// Ignition detection: in an ignition trial without a fault and with heat
/// demand, the heater moves on to flame stabilisation exactly when a flame is
/// seen. With a flame sensor that is the sensor reporting a flame; without
/// one, it is the heat exchanger being at least at the ignition minimum and
/// at least the minimum rise above the baseline captured when the trial
/// began. Without a flame, the trial goes on until the ignition window ends.
pub proof fn lemma_ignition_detection(input: TickInput, state: CoreState, cfg: Config)
    requires
        state.process_state is IgnitionTrial,
        state.latched_fault is None,
        safety_fault(input, cfg.sanitised().cfg) is None,
        tick_result(input, state, cfg).1.status.heat_demand,
    ensures
        ({
            let (s, out) = tick_result(input, state, cfg);
            let c = cfg.sanitised().cfg;
            let flame = if c.has_flame_sensor {
                input.sensors.flame_present == Some(true)
            } else {
                input.sensors.hx_temp_mc matches Some(hx) && hx >= c.ignition_min_abs_mc && hx
                    - state.ignition_baseline_temp_mc >= c.ignition_min_rise_mc
            };
            let sensor_silent = c.has_flame_sensor && input.sensors.flame_present is None;
            &&& (s.process_state is FlameStabilise <==> flame)
            &&& (!flame && !sensor_silent && sat_add(
                state.state_elapsed_ms,
                input.time.delta_ms as u64,
            ) < c.ignition_window_ms ==> s.process_state is IgnitionTrial
                && out.events.entered_state is None)
        }),
{
}

/// Flame supervision: a heater stabilising its flame (with heat demand) or
/// running, without a latched fault, that loses its flame latches
/// `FlameLost`, reports it, and shuts down. The flame is lost when the
/// fitted sensor reports no flame, or, without a sensor, when the heat
/// exchanger stays below the running minimum for the flame-loss time.
pub proof fn lemma_flame_loss_latches_fault(input: TickInput, state: CoreState, cfg: Config)
    requires
        state.process_state is FlameStabilise || state.process_state is Run,
        state.latched_fault is None,
        safety_fault(input, cfg.sanitised().cfg) is None,
        state.process_state is FlameStabilise ==> tick_result(
            input,
            state,
            cfg,
        ).1.status.heat_demand,
        ({
            let c = cfg.sanitised().cfg;
            if c.has_flame_sensor {
                input.sensors.flame_present == Some(false)
            } else {
                &&& input.sensors.hx_temp_mc matches Some(hx) && hx < c.run_min_temp_mc
                &&& sat_add(state.low_temp_elapsed_ms, input.time.delta_ms as u64)
                    >= c.flame_loss_ms
            }
        }),
    ensures
        ({
            let (s, out) = tick_result(input, state, cfg);
            &&& s.latched_fault == Some(FaultCode::FlameLost)
            &&& out.status.fault == Some(FaultCode::FlameLost)
            &&& out.events.fault_latched == Some(FaultCode::FlameLost)
            &&& s.process_state is Shutdown
            &&& out.actuators.fuel_pump_mhz == 0
        }),
{
}

/// The mode fields settled by mode resolution are not changed by the rest
/// of the step, and the reported demand is the resolved one.
proof fn lemma_mode_fields_kept(input: TickInput, state: CoreState, cfg: Config)
    ensures
        ({
            let c = cfg.sanitised().cfg;
            let (s2, demand) = mode_resolved(
                input,
                timers_advanced(state, input.time.delta_ms as u64),
                c,
            );
            let (s, out) = tick_result(input, state, cfg);
            &&& out.status.heat_demand == demand.heat_demand
            &&& out.status.schedule_inhibited_no_time == demand.schedule_inhibited_no_time
            &&& s.effective_mode == s2.effective_mode
            &&& s.manual_setpoint_mc == s2.manual_setpoint_mc
            &&& s.selected_mode == s2.selected_mode
        }),
{
    match state.process_state {
        ProcessState::Idle => {},
        ProcessState::Precheck => {},
        ProcessState::Preheat => {},
        ProcessState::IgnitionTrial => {},
        ProcessState::FlameStabilise => {},
        ProcessState::Run => {},
        ProcessState::Shutdown => {},
        ProcessState::Cooldown => {},
        ProcessState::Lockout => {},
    }
}

/// Heat demand follows a two-point thermostat on the target of the
/// effective mode: the manual setpoint in manual mode, the schedule target
/// in scheduled mode (with valid time and the schedule enabled). At or below
/// target minus hysteresis there is demand, at or above target plus
/// hysteresis there is none, and in between the demand is whether a
/// combustion session was under way.
pub proof fn lemma_thermostat_demand(input: TickInput, state: CoreState, cfg: Config)
    requires
        input.sensors.room_temp_mc is Some,
    ensures
        ({
            let (s, out) = tick_result(input, state, cfg);
            let c = cfg.sanitised().cfg;
            let room = input.sensors.room_temp_mc.unwrap() as int;
            let h = c.setpoint_hysteresis_mc as int;
            let was_heating = state.process_state !is Idle && state.process_state !is Lockout;
            let target: Option<int> = if s.effective_mode is Manual {
                Some(s.manual_setpoint_mc as int)
            } else if s.effective_mode is Scheduled && input.time.utc_valid
                && input.schedule.enabled_now && input.schedule.target_temp_mc is Some {
                Some(input.schedule.target_temp_mc.unwrap() as int)
            } else {
                None
            };
            target matches Some(t) ==> {
                &&& (room <= t - h ==> out.status.heat_demand)
                &&& (room >= t + h && room > t - h ==> !out.status.heat_demand)
                &&& (t - h < room < t + h ==> out.status.heat_demand == was_heating)
            }
        }),
{
    let c = cfg.sanitised().cfg;
    let s1 = timers_advanced(state, input.time.delta_ms as u64);
    let (s2, demand) = mode_resolved(input, s1, c);
    let (s, out) = tick_result(input, state, cfg);
    lemma_mode_fields_kept(input, state, cfg);
    assert(out.status.heat_demand == demand.heat_demand);
    assert(s.effective_mode == s2.effective_mode);
    assert(s.manual_setpoint_mc == s2.manual_setpoint_mc);
}

/// The run stage follows the shortfall of the room below the target of the
/// effective mode: the schedule target in scheduled mode, the manual
/// setpoint in manual mode. A shortfall of at least the high threshold runs
/// high, of at least the medium threshold medium, otherwise low; boost
/// always runs high.
pub proof fn lemma_run_stage(input: TickInput, state: CoreState, cfg: Config)
    requires
        input.sensors.room_temp_mc is Some,
    ensures
        ({
            let (s, out) = tick_result(input, state, cfg);
            let c = cfg.sanitised().cfg;
            let room = input.sensors.room_temp_mc.unwrap() as int;
            let target: Option<int> = if s.effective_mode is Manual {
                Some(s.manual_setpoint_mc as int)
            } else if s.effective_mode is Scheduled && input.schedule.target_temp_mc is Some {
                Some(input.schedule.target_temp_mc.unwrap() as int)
            } else {
                None
            };
            s.process_state is Run ==> {
                &&& (s.effective_mode is Boost ==> out.status.active_stage == HeatStage::High)
                &&& (target matches Some(t) ==> out.status.active_stage == if t - room
                    >= c.stage_high_delta_mc {
                    HeatStage::High
                } else if t - room >= c.stage_medium_delta_mc {
                    HeatStage::Medium
                } else {
                    HeatStage::Low
                })
                &&& (s.effective_mode is Scheduled && input.schedule.target_temp_mc is None
                    ==> out.status.active_stage == HeatStage::Off)
            }
        }),
{
}

/// Cooldown length: without a pending restart the heater stays in cooldown
/// (fan running, no fuel) until the cooldown time has passed, then goes to
/// idle or, with a latched fault, to lockout; with a pending restart the
/// purge time applies instead and the heater preheats again.
pub proof fn lemma_cooldown_duration(input: TickInput, state: CoreState, cfg: Config)
    requires
        state.process_state is Cooldown,
    ensures
        ({
            let (s, out) = tick_result(input, state, cfg);
            let c = cfg.sanitised().cfg;
            let elapsed = sat_add(state.state_elapsed_ms, input.time.delta_ms as u64);
            let wait = if state.pending_restart_after_cooldown {
                c.retry_purge_ms
            } else {
                c.cooldown_ms
            };
            &&& (elapsed < wait ==> s.process_state is Cooldown && out.actuators.fan_pct > 0
                && out.actuators.fuel_pump_mhz == 0)
            &&& (elapsed >= wait && state.pending_restart_after_cooldown
                ==> s.process_state is Preheat)
            &&& (elapsed >= wait && !state.pending_restart_after_cooldown
                ==> (s.process_state is Idle || s.process_state is Lockout)
                && (s.process_state is Lockout <==> s.latched_fault is Some))
            &&& (!state.pending_restart_after_cooldown && elapsed < c.cooldown_ms
                ==> s.process_state is Cooldown)
        }),
{
}


/// Preheat timing: with demand and no fault, the glow plug preheats until
/// the preheat time has passed; then an ignition trial starts, counting one
/// more attempt (at most two) and capturing the heat exchanger reading as
/// the baseline for ignition detection.
pub proof fn lemma_preheat_timing(input: TickInput, state: CoreState, cfg: Config)
    requires
        state.process_state is Preheat,
        state.latched_fault is None,
        safety_fault(input, cfg.sanitised().cfg) is None,
        tick_result(input, state, cfg).1.status.heat_demand,
    ensures
        ({
            let (s, out) = tick_result(input, state, cfg);
            let c = cfg.sanitised().cfg;
            let elapsed = sat_add(state.state_elapsed_ms, input.time.delta_ms as u64);
            &&& (elapsed < c.preheat_ms ==> s.process_state is Preheat && out.actuators.glow_on
                && out.actuators.fuel_pump_mhz == 0)
            &&& (elapsed >= c.preheat_ms ==> {
                &&& s.process_state is IgnitionTrial
                &&& input.sensors.hx_temp_mc == Some(s.ignition_baseline_temp_mc)
                &&& s.ignition_attempt == if state.ignition_attempt == 0 {
                    1u8
                } else {
                    2u8
                }
                &&& s.state_elapsed_ms == 0
            })
        }),
{
}

/// Ignition window: a trial that sees no flame until the window ends shuts
/// down; on the first attempt it schedules a retry after the purge, on the
/// second it latches `IgnitionFailed`.
pub proof fn lemma_ignition_window_expiry(input: TickInput, state: CoreState, cfg: Config)
    requires
        state.process_state is IgnitionTrial,
        state.latched_fault is None,
        safety_fault(input, cfg.sanitised().cfg) is None,
        tick_result(input, state, cfg).1.status.heat_demand,
        sat_add(state.state_elapsed_ms, input.time.delta_ms as u64)
            >= cfg.sanitised().cfg.ignition_window_ms,
        ({
            let c = cfg.sanitised().cfg;
            if c.has_flame_sensor {
                input.sensors.flame_present == Some(false)
            } else {
                !(input.sensors.hx_temp_mc matches Some(hx) && hx >= c.ignition_min_abs_mc && hx
                    - state.ignition_baseline_temp_mc >= c.ignition_min_rise_mc)
            }
        }),
    ensures
        ({
            let (s, out) = tick_result(input, state, cfg);
            &&& s.process_state is Shutdown
            &&& (state.ignition_attempt < 2 ==> s.pending_restart_after_cooldown
                && s.latched_fault is None)
            &&& (state.ignition_attempt >= 2 ==> s.latched_fault == Some(
                FaultCode::IgnitionFailed,
            ) && out.events.fault_latched == Some(FaultCode::IgnitionFailed))
        }),
{
}

/// Flame stabilisation timing: with demand, no fault and the flame held,
/// the heater stays in stabilisation until the stabilisation time has
/// passed, then runs with a fresh run timer.
pub proof fn lemma_stabilise_timing(input: TickInput, state: CoreState, cfg: Config)
    requires
        state.process_state is FlameStabilise,
        state.latched_fault is None,
        safety_fault(input, cfg.sanitised().cfg) is None,
        tick_result(input, state, cfg).1.status.heat_demand,
        ({
            let c = cfg.sanitised().cfg;
            if c.has_flame_sensor {
                input.sensors.flame_present == Some(true)
            } else {
                !(input.sensors.hx_temp_mc matches Some(hx) && hx < c.run_min_temp_mc)
            }
        }),
    ensures
        ({
            let (s, out) = tick_result(input, state, cfg);
            let c = cfg.sanitised().cfg;
            let elapsed = sat_add(state.state_elapsed_ms, input.time.delta_ms as u64);
            &&& (elapsed < c.flame_stabilise_ms ==> s.process_state is FlameStabilise)
            &&& (elapsed >= c.flame_stabilise_ms ==> s.process_state is Run && s.run_elapsed_ms
                == 0)
            &&& s.latched_fault is None
        }),
{
}

} // verus!
