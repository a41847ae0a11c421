//! The controller's finite state machine.
//!
//! One call of [`tick`] is one deterministic control step: it reads a
//! [`TickInput`], updates the [`CoreState`] and produces a [`TickOutput`].
//! Every function here is stated against the spec function of the same
//! step, and [`tick_result`] composes them into the whole step.
use vstd::prelude::*;
use crate::config::{Config, within};
use crate::types::{
    ActuatorIntent, CoreState, EffectiveMode, FaultCode, HeatStage, ModeRequest, ProcessState,
    SensorInput, Status, TickEvents, TickInput, TickOutput,
};

verus! {

// ---------------------------------------------------------------------------
// Arithmetic and readings
// ---------------------------------------------------------------------------

/// `a + b`, saturated at `u64::MAX`.
pub open spec fn sat_add(a: u64, b: u64) -> u64 {
    if a + b > u64::MAX {
        u64::MAX
    } else {
        (a + b) as u64
    }
}

/// The reading is a number below `t` (a missing number compares false).
pub open spec fn reading_below(r: Option<i32>, t: int) -> bool {
    r matches Some(v) && v < t
}

/// The reading is a number of at least `t` (a missing number compares false).
pub open spec fn reading_at_least(r: Option<i32>, t: int) -> bool {
    r matches Some(v) && v >= t
}

/// The reading is a number of at most `t` (a missing number compares false).
pub open spec fn reading_at_most(r: Option<i32>, t: int) -> bool {
    r matches Some(v) && v <= t
}

/// All three analogue readings are finite numbers.
pub open spec fn readings_finite(s: SensorInput) -> bool {
    s.room_temp_mc is Some && s.hx_temp_mc is Some && s.supply_mv is Some
}

// ---------------------------------------------------------------------------
// Safety
// ---------------------------------------------------------------------------

/// The safety fault present in this tick's input, checked in priority order:
/// unusable readings, the overheat cutoff (when fitted), the sensor health
/// flag, heat exchanger overtemperature, supply undervoltage.
pub open spec fn safety_fault(input: TickInput, cfg: Config) -> Option<FaultCode> {
    let s = input.sensors;
    if !readings_finite(s) {
        Some(FaultCode::InvalidState)
    } else if cfg.has_overheat_cutoff && s.overheat_cutoff_tripped == Some(true) {
        Some(FaultCode::OverTemp)
    } else if cfg.has_overheat_cutoff && s.overheat_cutoff_tripped is None {
        Some(FaultCode::SensorFault)
    } else if !s.sensor_ok {
        Some(FaultCode::SensorFault)
    } else if reading_at_least(s.hx_temp_mc, cfg.max_hx_temp_mc as int) {
        Some(FaultCode::OverTemp)
    } else if reading_below(s.supply_mv, cfg.min_supply_mv as int) {
        Some(FaultCode::UnderVoltage)
    } else {
        None
    }
}

fn is_finite_sensors(s: &SensorInput) -> (r: bool)
    ensures
        r == readings_finite(*s),
{
    s.room_temp_mc.is_some() && s.hx_temp_mc.is_some() && s.supply_mv.is_some()
}

fn detect_safety_fault(input: &TickInput, cfg: &Config) -> (r: Option<FaultCode>)
    ensures
        r == safety_fault(*input, *cfg),
{
    if !is_finite_sensors(&input.sensors) {
        return Some(FaultCode::InvalidState);
    }
    if cfg.has_overheat_cutoff {
        match input.sensors.overheat_cutoff_tripped {
            Some(true) => return Some(FaultCode::OverTemp),
            Some(false) => {},
            None => return Some(FaultCode::SensorFault),
        }
    }
    if !input.sensors.sensor_ok {
        return Some(FaultCode::SensorFault);
    }
    match input.sensors.hx_temp_mc {
        Some(hx) => {
            if hx >= cfg.max_hx_temp_mc {
                return Some(FaultCode::OverTemp);
            }
        },
        None => {},
    }
    match input.sensors.supply_mv {
        Some(v) => {
            if v < cfg.min_supply_mv {
                return Some(FaultCode::UnderVoltage);
            }
        },
        None => {},
    }
    None
}

// ---------------------------------------------------------------------------
// State and event bookkeeping
// ---------------------------------------------------------------------------

/// Moving to `next`: a real change restarts the state timer and is reported.
pub open spec fn transitioned(s: CoreState, ev: TickEvents, next: ProcessState) -> (
    CoreState,
    TickEvents,
) {
    if s.process_state != next {
        (
            CoreState { process_state: next, state_elapsed_ms: 0, ..s },
            TickEvents { entered_state: Some(next), ..ev },
        )
    } else {
        (s, ev)
    }
}

/// Latching `fault`: only the first fault is kept and reported.
pub open spec fn latched(s: CoreState, ev: TickEvents, fault: FaultCode) -> (
    CoreState,
    TickEvents,
) {
    if s.latched_fault is None {
        (
            CoreState { latched_fault: Some(fault), ..s },
            TickEvents { fault_latched: Some(fault), ..ev },
        )
    } else {
        (s, ev)
    }
}

/// The safe path after a safety fault: an idle heater locks out, an active
/// combustion session shuts down, a heater already shutting down, cooling
/// down or locked out keeps its state.
pub open spec fn forced_safe(s: CoreState, ev: TickEvents) -> (CoreState, TickEvents) {
    match s.process_state {
        ProcessState::Idle => transitioned(s, ev, ProcessState::Lockout),
        ProcessState::Lockout | ProcessState::Shutdown | ProcessState::Cooldown => (s, ev),
        _ => transitioned(s, ev, ProcessState::Shutdown),
    }
}

fn transition(state: &mut CoreState, events: &mut TickEvents, next: ProcessState)
    ensures
        (*final(state), *final(events)) == transitioned(*old(state), *old(events), next),
{
    if state.process_state != next {
        state.process_state = next;
        state.state_elapsed_ms = 0;
        events.entered_state = Some(next);
    }
}

fn latch_fault(state: &mut CoreState, events: &mut TickEvents, fault: FaultCode)
    ensures
        (*final(state), *final(events)) == latched(*old(state), *old(events), fault),
{
    if state.latched_fault.is_none() {
        state.latched_fault = Some(fault);
        events.fault_latched = Some(fault);
    }
}

fn force_safe_shutdown_path(state: &mut CoreState, events: &mut TickEvents)
    ensures
        (*final(state), *final(events)) == forced_safe(*old(state), *old(events)),
{
    match state.process_state {
        ProcessState::Idle => transition(state, events, ProcessState::Lockout),
        ProcessState::Lockout | ProcessState::Shutdown | ProcessState::Cooldown => {},
        _ => transition(state, events, ProcessState::Shutdown),
    }
}

// ---------------------------------------------------------------------------
// Mode and demand
// ---------------------------------------------------------------------------

/// A combustion session is under way (from precheck to the end of cooldown).
pub open spec fn session_active(ps: ProcessState) -> bool {
    !(ps is Idle || ps is Lockout)
}

/// Whether the process state belongs to a combustion session.
pub fn combustion_session_active(process_state: ProcessState) -> (r: bool)
    ensures
        r == session_active(process_state),
{
    match process_state {
        ProcessState::Precheck
        | ProcessState::Preheat
        | ProcessState::IgnitionTrial
        | ProcessState::FlameStabilise
        | ProcessState::Run
        | ProcessState::Shutdown
        | ProcessState::Cooldown => true,
        ProcessState::Idle | ProcessState::Lockout => false,
    }
}

/// Two-point thermostat: heat at or below `setpoint - hysteresis`, stop at or
/// above `setpoint + hysteresis`, keep the current decision in between (and
/// when the room reading is missing).
pub open spec fn thermostat(room: Option<i32>, setpoint: int, hysteresis: int, heating: bool) -> bool {
    if reading_at_most(room, setpoint - hysteresis) {
        true
    } else if reading_at_least(room, setpoint + hysteresis) {
        false
    } else {
        heating
    }
}

fn thermostat_demand(room: Option<i32>, setpoint: i32, hysteresis: i32, currently_heating: bool) -> (r:
    bool)
    ensures
        r == thermostat(room, setpoint as int, hysteresis as int, currently_heating),
{
    match room {
        Some(t) => {
            let t = t as i64;
            if t <= setpoint as i64 - hysteresis as i64 {
                true
            } else if t >= setpoint as i64 + hysteresis as i64 {
                false
            } else {
                currently_heating
            }
        },
        None => currently_heating,
    }
}

/// What the mode resolution hands to the process logic.
#[derive(Debug, Clone, Copy, PartialEq, Eq, Structural)]
pub struct DemandResult {
    pub heat_demand: bool,
    pub forced_high: bool,
    pub schedule_inhibited_no_time: bool,
}

/// The manual setpoint after this tick's command: accepted within 5..=35 °C.
pub open spec fn setpoint_after(cmd: Option<i32>, current: i32) -> i32 {
    match cmd {
        Some(v) => if within(v as int, 5_000, 35_000) {
            v
        } else {
            current
        },
        None => current,
    }
}

/// The selected mode after this tick's command.
pub open spec fn selection_after(cmd: Option<ModeRequest>, current: ModeRequest) -> ModeRequest {
    match cmd {
        Some(r) => r,
        None => current,
    }
}

/// The boost expiry after this tick's commands, before expiry is checked:
/// turning the heater off or cancelling clears it, a boost request (unless
/// the heater is off) restarts it for the configured duration.
pub open spec fn boost_after_commands(
    input: TickInput,
    selected: ModeRequest,
    current: Option<u64>,
    cfg: Config,
) -> Option<u64> {
    let b1 = if input.commands.mode_request == Some(ModeRequest::Off) {
        None
    } else {
        current
    };
    let b2 = if input.commands.boost_cancel {
        None
    } else {
        b1
    };
    if input.commands.boost_request && selected != ModeRequest::Off {
        Some(sat_add(input.time.monotonic_ms, cfg.boost_duration_ms as u64))
    } else {
        b2
    }
}

/// A boost with this expiry is in force at time `now`.
pub open spec fn boost_in_force(expiry: Option<u64>, now: u64) -> bool {
    expiry matches Some(e) && now < e
}

/// Mode priority: off, then manual, then boost, then schedule.
pub open spec fn effective_mode_of(selected: ModeRequest, boost: bool) -> EffectiveMode {
    match selected {
        ModeRequest::Off => EffectiveMode::Off,
        ModeRequest::Manual => EffectiveMode::Manual,
        ModeRequest::Scheduled => if boost {
            EffectiveMode::Boost
        } else {
            EffectiveMode::Scheduled
        },
    }
}

/// Heat demand in the effective mode. A schedule needs valid wall-clock time;
/// without it, it is inhibited and asks for no heat.
pub open spec fn demand_in_mode(
    mode: EffectiveMode,
    input: TickInput,
    manual_setpoint: i32,
    cfg: Config,
    heating: bool,
) -> DemandResult {
    let room = input.sensors.room_temp_mc;
    let hyst = cfg.setpoint_hysteresis_mc as int;
    let nothing = DemandResult {
        heat_demand: false,
        forced_high: false,
        schedule_inhibited_no_time: false,
    };
    match mode {
        EffectiveMode::Off => nothing,
        EffectiveMode::Manual => DemandResult {
            heat_demand: thermostat(room, manual_setpoint as int, hyst, heating),
            ..nothing
        },
        EffectiveMode::Boost => DemandResult { heat_demand: true, forced_high: true, ..nothing },
        EffectiveMode::Scheduled => if !input.time.utc_valid {
            DemandResult { schedule_inhibited_no_time: true, ..nothing }
        } else if !input.schedule.enabled_now {
            nothing
        } else {
            match input.schedule.target_temp_mc {
                Some(t) => DemandResult {
                    heat_demand: thermostat(room, t as int, hyst, heating),
                    ..nothing
                },
                None => nothing,
            }
        },
    }
}

/// Applies this tick's commands to the mode fields of the state and
/// evaluates heat demand.
pub open spec fn mode_resolved(input: TickInput, s: CoreState, cfg: Config) -> (
    CoreState,
    DemandResult,
) {
    let sp = setpoint_after(input.commands.manual_setpoint_mc, s.manual_setpoint_mc);
    let sel = selection_after(input.commands.mode_request, s.selected_mode);
    let b = boost_after_commands(input, sel, s.boost_expires_at_ms, cfg);
    let active = boost_in_force(b, input.time.monotonic_ms);
    let eff = effective_mode_of(sel, active);
    (
        CoreState {
            manual_setpoint_mc: sp,
            selected_mode: sel,
            boost_expires_at_ms: if active {
                b
            } else {
                None
            },
            effective_mode: eff,
            ..s
        },
        demand_in_mode(eff, input, sp, cfg, session_active(s.process_state)),
    )
}

fn resolve_mode_and_demand(input: &TickInput, state: &mut CoreState, cfg: &Config) -> (d:
    DemandResult)
    ensures
        (*final(state), d) == mode_resolved(*input, *old(state), *cfg),
{
    if let Some(setpoint) = input.commands.manual_setpoint_mc {
        if 5_000 <= setpoint && setpoint <= 35_000 {
            state.manual_setpoint_mc = setpoint;
        }
    }

    if let Some(request) = input.commands.mode_request {
        state.selected_mode = request;
        if request == ModeRequest::Off {
            state.boost_expires_at_ms = None;
        }
    }

    if input.commands.boost_cancel {
        state.boost_expires_at_ms = None;
    }

    if input.commands.boost_request && state.selected_mode != ModeRequest::Off {
        state.boost_expires_at_ms = Some(
            input.time.monotonic_ms.saturating_add(cfg.boost_duration_ms as u64),
        );
    }

    let boost_active = match state.boost_expires_at_ms {
        Some(expires) => input.time.monotonic_ms < expires,
        None => false,
    };
    if !boost_active {
        state.boost_expires_at_ms = None;
    }

    state.effective_mode = match state.selected_mode {
        ModeRequest::Off => EffectiveMode::Off,
        ModeRequest::Manual => EffectiveMode::Manual,
        ModeRequest::Scheduled => if boost_active {
            EffectiveMode::Boost
        } else {
            EffectiveMode::Scheduled
        },
    };

    let currently_heating = combustion_session_active(state.process_state);

    match state.effective_mode {
        EffectiveMode::Off => DemandResult {
            heat_demand: false,
            forced_high: false,
            schedule_inhibited_no_time: false,
        },
        EffectiveMode::Manual => DemandResult {
            heat_demand: thermostat_demand(
                input.sensors.room_temp_mc,
                state.manual_setpoint_mc,
                cfg.setpoint_hysteresis_mc,
                currently_heating,
            ),
            forced_high: false,
            schedule_inhibited_no_time: false,
        },
        EffectiveMode::Boost => DemandResult {
            heat_demand: true,
            forced_high: true,
            schedule_inhibited_no_time: false,
        },
        EffectiveMode::Scheduled => {
            if !input.time.utc_valid {
                DemandResult {
                    heat_demand: false,
                    forced_high: false,
                    schedule_inhibited_no_time: true,
                }
            } else if !input.schedule.enabled_now {
                DemandResult {
                    heat_demand: false,
                    forced_high: false,
                    schedule_inhibited_no_time: false,
                }
            } else if let Some(target_temp_mc) = input.schedule.target_temp_mc {
                DemandResult {
                    heat_demand: thermostat_demand(
                        input.sensors.room_temp_mc,
                        target_temp_mc,
                        cfg.setpoint_hysteresis_mc,
                        currently_heating,
                    ),
                    forced_high: false,
                    schedule_inhibited_no_time: false,
                }
            } else {
                DemandResult {
                    heat_demand: false,
                    forced_high: false,
                    schedule_inhibited_no_time: false,
                }
            }
        },
    }
}


// ---------------------------------------------------------------------------
// Flame detection
// ---------------------------------------------------------------------------

/// The flame signal: the flame sensor when one is fitted (a missing reading
/// is a sensor fault), otherwise the inferred value.
pub open spec fn flame_signal(input: TickInput, cfg: Config, inferred: bool) -> Result<
    bool,
    FaultCode,
> {
    if cfg.has_flame_sensor {
        match input.sensors.flame_present {
            Some(f) => Ok(f),
            None => Err(FaultCode::SensorFault),
        }
    } else {
        Ok(inferred)
    }
}

/// Ignition is inferred when the heat exchanger rose enough above the
/// temperature captured when the trial began and is hot enough in itself.
pub open spec fn ignition_inferred(input: TickInput, s: CoreState, cfg: Config) -> bool {
    match input.sensors.hx_temp_mc {
        Some(hx) => hx - s.ignition_baseline_temp_mc >= cfg.ignition_min_rise_mc && hx
            >= cfg.ignition_min_abs_mc,
        None => false,
    }
}

/// How long the heat exchanger has been below the running minimum, after
/// this tick; without a flame sensor only (with one, the timer stays 0).
pub open spec fn low_temp_timer_after(input: TickInput, s: CoreState, cfg: Config, delta: u64) -> u64 {
    if cfg.has_flame_sensor {
        0
    } else if reading_below(input.sensors.hx_temp_mc, cfg.run_min_temp_mc as int) {
        sat_add(s.low_temp_elapsed_ms, delta)
    } else {
        0
    }
}

fn resolve_flame_signal(input: &TickInput, cfg: &Config, inferred: bool) -> (r: Result<
    bool,
    FaultCode,
>)
    ensures
        r == flame_signal(*input, *cfg, inferred),
{
    if cfg.has_flame_sensor {
        match input.sensors.flame_present {
            Some(f) => Ok(f),
            None => Err(FaultCode::SensorFault),
        }
    } else {
        Ok(inferred)
    }
}

fn infer_ignition_flame(input: &TickInput, state: &CoreState, cfg: &Config) -> (r: bool)
    ensures
        r == ignition_inferred(*input, *state, *cfg),
{
    match input.sensors.hx_temp_mc {
        Some(hx) => {
            let rise = hx as i64 - state.ignition_baseline_temp_mc as i64;
            rise >= cfg.ignition_min_rise_mc as i64 && hx >= cfg.ignition_min_abs_mc
        },
        None => false,
    }
}

fn update_low_temp_timer(state: &mut CoreState, input: &TickInput, cfg: &Config, delta_ms: u64)
    requires
        !cfg.has_flame_sensor,
    ensures
        *final(state) == (CoreState {
            low_temp_elapsed_ms: low_temp_timer_after(*input, *old(state), *cfg, delta_ms),
            ..*old(state)
        }),
{
    let below = match input.sensors.hx_temp_mc {
        Some(hx) => hx < cfg.run_min_temp_mc,
        None => false,
    };
    if below {
        state.low_temp_elapsed_ms = state.low_temp_elapsed_ms.saturating_add(delta_ms);
    } else {
        state.low_temp_elapsed_ms = 0;
    }
}

// ---------------------------------------------------------------------------
// Process steps, one per state
// ---------------------------------------------------------------------------

/// The ignition attempt counter after starting another trial (at most 2).
pub open spec fn next_attempt(a: u8) -> u8 {
    if a + 1 < 2 {
        (a + 1) as u8
    } else {
        2
    }
}

/// Idle: a latched fault locks out; heat demand after the minimum off time
/// starts a session.
pub open spec fn idle_step(s: CoreState, ev: TickEvents, cfg: Config, demand: DemandResult) -> (
    CoreState,
    TickEvents,
) {
    if s.latched_fault is Some {
        transitioned(s, ev, ProcessState::Lockout)
    } else if demand.heat_demand && s.off_elapsed_ms >= cfg.min_off_ms {
        transitioned(
            CoreState { ignition_attempt: 0, run_elapsed_ms: 0, ..s },
            ev,
            ProcessState::Precheck,
        )
    } else {
        (s, ev)
    }
}

/// Precheck: a fault or lost demand shuts down, else preheat begins.
pub open spec fn precheck_step(s: CoreState, ev: TickEvents, demand: DemandResult) -> (
    CoreState,
    TickEvents,
) {
    if s.latched_fault is Some || !demand.heat_demand {
        transitioned(s, ev, ProcessState::Shutdown)
    } else {
        transitioned(s, ev, ProcessState::Preheat)
    }
}

/// Preheat: a fault or lost demand shuts down; once the glow plug has had
/// its preheat time an ignition trial starts, capturing the heat exchanger
/// temperature as baseline.
pub open spec fn preheat_step(
    input: TickInput,
    cfg: Config,
    s: CoreState,
    ev: TickEvents,
    demand: DemandResult,
) -> (CoreState, TickEvents) {
    if s.latched_fault is Some || !demand.heat_demand {
        transitioned(s, ev, ProcessState::Shutdown)
    } else if s.state_elapsed_ms >= cfg.preheat_ms {
        transitioned(
            CoreState {
                ignition_attempt: next_attempt(s.ignition_attempt),
                ignition_baseline_temp_mc: input.sensors.hx_temp_mc.unwrap(),
                low_temp_elapsed_ms: 0,
                ..s
            },
            ev,
            ProcessState::IgnitionTrial,
        )
    } else {
        (s, ev)
    }
}

/// Ignition trial: flame moves on to stabilisation; no flame within the
/// ignition window shuts down, to retry after the purge on the first attempt
/// and with an ignition fault on the second; a missing flame reading latches
/// a sensor fault and shuts down.
pub open spec fn ignition_step(
    input: TickInput,
    cfg: Config,
    s: CoreState,
    ev: TickEvents,
    demand: DemandResult,
) -> (CoreState, TickEvents) {
    if s.latched_fault is Some || !demand.heat_demand {
        transitioned(s, ev, ProcessState::Shutdown)
    } else {
        match flame_signal(input, cfg, ignition_inferred(input, s, cfg)) {
            Ok(true) => transitioned(
                CoreState { low_temp_elapsed_ms: 0, ..s },
                ev,
                ProcessState::FlameStabilise,
            ),
            Ok(false) => if s.state_elapsed_ms >= cfg.ignition_window_ms {
                if s.ignition_attempt < 2 {
                    transitioned(
                        CoreState { pending_restart_after_cooldown: true, ..s },
                        ev,
                        ProcessState::Shutdown,
                    )
                } else {
                    let (s1, e1) = latched(s, ev, FaultCode::IgnitionFailed);
                    transitioned(s1, e1, ProcessState::Shutdown)
                }
            } else {
                (s, ev)
            },
            Err(f) => {
                let (s1, e1) = latched(s, ev, f);
                transitioned(s1, e1, ProcessState::Shutdown)
            },
        }
    }
}

/// Flame stabilisation: a fault or lost demand shuts down; flame held for
/// the stabilisation time moves to run; flame lost latches a fault.
pub open spec fn stabilise_step(
    input: TickInput,
    cfg: Config,
    s: CoreState,
    ev: TickEvents,
    demand: DemandResult,
    delta: u64,
) -> (CoreState, TickEvents) {
    if s.latched_fault is Some || !demand.heat_demand {
        transitioned(s, ev, ProcessState::Shutdown)
    } else {
        let low = low_temp_timer_after(input, s, cfg, delta);
        let s1 = CoreState { low_temp_elapsed_ms: low, ..s };
        match flame_signal(input, cfg, low < cfg.flame_loss_ms) {
            Ok(true) => if s1.state_elapsed_ms >= cfg.flame_stabilise_ms {
                transitioned(
                    CoreState { run_elapsed_ms: 0, low_temp_elapsed_ms: 0, ..s1 },
                    ev,
                    ProcessState::Run,
                )
            } else {
                (s1, ev)
            },
            Ok(false) => {
                let (s2, e2) = latched(s1, ev, FaultCode::FlameLost);
                transitioned(s2, e2, ProcessState::Shutdown)
            },
            Err(f) => {
                let (s2, e2) = latched(s1, ev, f);
                transitioned(s2, e2, ProcessState::Shutdown)
            },
        }
    }
}

/// Run: a latched fault shuts down; flame lost latches a fault and shuts
/// down; switching off shuts down at once; lost demand shuts down only after
/// the minimum run time.
pub open spec fn run_step(
    input: TickInput,
    cfg: Config,
    s: CoreState,
    ev: TickEvents,
    demand: DemandResult,
    manual_off: bool,
    delta: u64,
) -> (CoreState, TickEvents) {
    if s.latched_fault is Some {
        transitioned(s, ev, ProcessState::Shutdown)
    } else {
        let low = low_temp_timer_after(input, s, cfg, delta);
        let s1 = CoreState { low_temp_elapsed_ms: low, ..s };
        match flame_signal(input, cfg, low < cfg.flame_loss_ms) {
            Ok(false) => {
                let (s2, e2) = latched(s1, ev, FaultCode::FlameLost);
                transitioned(s2, e2, ProcessState::Shutdown)
            },
            Err(f) => {
                let (s2, e2) = latched(s1, ev, f);
                transitioned(s2, e2, ProcessState::Shutdown)
            },
            Ok(true) => if manual_off {
                transitioned(s1, ev, ProcessState::Shutdown)
            } else if !demand.heat_demand && s1.run_elapsed_ms >= cfg.min_run_ms {
                transitioned(s1, ev, ProcessState::Shutdown)
            } else {
                (s1, ev)
            },
        }
    }
}

/// Cooldown: after the purge time a pending retry preheats again; after the
/// cooldown time a latched fault locks out, else the heater goes idle.
pub open spec fn cooldown_step(cfg: Config, s: CoreState, ev: TickEvents) -> (
    CoreState,
    TickEvents,
) {
    let target = if s.pending_restart_after_cooldown {
        cfg.retry_purge_ms
    } else {
        cfg.cooldown_ms
    };
    if s.state_elapsed_ms >= target {
        if s.pending_restart_after_cooldown {
            transitioned(
                CoreState { pending_restart_after_cooldown: false, ..s },
                TickEvents { ignition_retry_started: true, ..ev },
                ProcessState::Preheat,
            )
        } else if s.latched_fault is Some {
            transitioned(s, ev, ProcessState::Lockout)
        } else {
            transitioned(
                CoreState {
                    ignition_attempt: 0,
                    run_elapsed_ms: 0,
                    last_heat_stage: HeatStage::Off,
                    off_elapsed_ms: 0,
                    ..s
                },
                ev,
                ProcessState::Idle,
            )
        }
    } else {
        (s, ev)
    }
}

/// Lockout: only a reset request while no safety fault is present clears
/// the latched fault and returns to idle.
pub open spec fn lockout_step(input: TickInput, cfg: Config, s: CoreState, ev: TickEvents) -> (
    CoreState,
    TickEvents,
) {
    if input.commands.fault_reset_request && safety_fault(input, cfg) is None {
        transitioned(
            CoreState {
                latched_fault: None,
                ignition_attempt: 0,
                pending_restart_after_cooldown: false,
                last_heat_stage: HeatStage::Off,
                off_elapsed_ms: 0,
                ..s
            },
            TickEvents { fault_cleared: true, ..ev },
            ProcessState::Idle,
        )
    } else {
        (s, ev)
    }
}

/// The process step for the current state.
pub open spec fn process_step(
    input: TickInput,
    cfg: Config,
    s: CoreState,
    ev: TickEvents,
    demand: DemandResult,
    manual_off: bool,
    delta: u64,
) -> (CoreState, TickEvents) {
    match s.process_state {
        ProcessState::Idle => idle_step(s, ev, cfg, demand),
        ProcessState::Precheck => precheck_step(s, ev, demand),
        ProcessState::Preheat => preheat_step(input, cfg, s, ev, demand),
        ProcessState::IgnitionTrial => ignition_step(input, cfg, s, ev, demand),
        ProcessState::FlameStabilise => stabilise_step(input, cfg, s, ev, demand, delta),
        ProcessState::Run => run_step(input, cfg, s, ev, demand, manual_off, delta),
        ProcessState::Shutdown => transitioned(s, ev, ProcessState::Cooldown),
        ProcessState::Cooldown => cooldown_step(cfg, s, ev),
        ProcessState::Lockout => lockout_step(input, cfg, s, ev),
    }
}

fn step_idle(state: &mut CoreState, events: &mut TickEvents, cfg: &Config, demand: DemandResult)
    ensures
        (*final(state), *final(events)) == idle_step(*old(state), *old(events), *cfg, demand),
{
    if state.latched_fault.is_some() {
        transition(state, events, ProcessState::Lockout);
    } else if demand.heat_demand && state.off_elapsed_ms >= cfg.min_off_ms as u64 {
        state.ignition_attempt = 0;
        state.run_elapsed_ms = 0;
        transition(state, events, ProcessState::Precheck);
    }
}

fn step_precheck(state: &mut CoreState, events: &mut TickEvents, demand: DemandResult)
    ensures
        (*final(state), *final(events)) == precheck_step(*old(state), *old(events), demand),
{
    if state.latched_fault.is_some() || !demand.heat_demand {
        transition(state, events, ProcessState::Shutdown);
    } else {
        transition(state, events, ProcessState::Preheat);
    }
}

fn step_preheat(
    input: &TickInput,
    cfg: &Config,
    state: &mut CoreState,
    events: &mut TickEvents,
    demand: DemandResult,
)
    requires
        input.sensors.hx_temp_mc is Some,
    ensures
        (*final(state), *final(events)) == preheat_step(
            *input,
            *cfg,
            *old(state),
            *old(events),
            demand,
        ),
{
    if state.latched_fault.is_some() || !demand.heat_demand {
        transition(state, events, ProcessState::Shutdown);
    } else if state.state_elapsed_ms >= cfg.preheat_ms as u64 {
        let next = state.ignition_attempt.saturating_add(1);
        state.ignition_attempt = if next < 2 {
            next
        } else {
            2
        };
        state.ignition_baseline_temp_mc = input.sensors.hx_temp_mc.unwrap();
        state.low_temp_elapsed_ms = 0;
        transition(state, events, ProcessState::IgnitionTrial);
    }
}

fn step_ignition_trial(
    input: &TickInput,
    cfg: &Config,
    state: &mut CoreState,
    events: &mut TickEvents,
    demand: DemandResult,
)
    ensures
        (*final(state), *final(events)) == ignition_step(
            *input,
            *cfg,
            *old(state),
            *old(events),
            demand,
        ),
{
    if state.latched_fault.is_some() || !demand.heat_demand {
        transition(state, events, ProcessState::Shutdown);
    } else {
        let inferred = infer_ignition_flame(input, state, cfg);
        match resolve_flame_signal(input, cfg, inferred) {
            Ok(true) => {
                state.low_temp_elapsed_ms = 0;
                transition(state, events, ProcessState::FlameStabilise);
            },
            Ok(false) => {
                if state.state_elapsed_ms >= cfg.ignition_window_ms as u64 {
                    if state.ignition_attempt < 2 {
                        state.pending_restart_after_cooldown = true;
                        transition(state, events, ProcessState::Shutdown);
                    } else {
                        latch_fault(state, events, FaultCode::IgnitionFailed);
                        transition(state, events, ProcessState::Shutdown);
                    }
                }
            },
            Err(fault) => {
                latch_fault(state, events, fault);
                transition(state, events, ProcessState::Shutdown);
            },
        }
    }
}

fn monitor_low_temp(state: &mut CoreState, input: &TickInput, cfg: &Config, delta_ms: u64)
    ensures
        *final(state) == (CoreState {
            low_temp_elapsed_ms: low_temp_timer_after(*input, *old(state), *cfg, delta_ms),
            ..*old(state)
        }),
{
    if !cfg.has_flame_sensor {
        update_low_temp_timer(state, input, cfg, delta_ms);
    } else {
        state.low_temp_elapsed_ms = 0;
    }
}

fn step_flame_stabilise(
    input: &TickInput,
    cfg: &Config,
    state: &mut CoreState,
    events: &mut TickEvents,
    demand: DemandResult,
    delta_ms: u64,
)
    ensures
        (*final(state), *final(events)) == stabilise_step(
            *input,
            *cfg,
            *old(state),
            *old(events),
            demand,
            delta_ms,
        ),
{
    if state.latched_fault.is_some() || !demand.heat_demand {
        transition(state, events, ProcessState::Shutdown);
    } else {
        monitor_low_temp(state, input, cfg, delta_ms);
        let inferred_flame = state.low_temp_elapsed_ms < cfg.flame_loss_ms as u64;
        match resolve_flame_signal(input, cfg, inferred_flame) {
            Ok(true) => {
                if state.state_elapsed_ms >= cfg.flame_stabilise_ms as u64 {
                    state.run_elapsed_ms = 0;
                    state.low_temp_elapsed_ms = 0;
                    transition(state, events, ProcessState::Run);
                }
            },
            Ok(false) => {
                latch_fault(state, events, FaultCode::FlameLost);
                transition(state, events, ProcessState::Shutdown);
            },
            Err(fault) => {
                latch_fault(state, events, fault);
                transition(state, events, ProcessState::Shutdown);
            },
        }
    }
}

fn step_run(
    input: &TickInput,
    cfg: &Config,
    state: &mut CoreState,
    events: &mut TickEvents,
    demand: DemandResult,
    manual_off: bool,
    delta_ms: u64,
)
    ensures
        (*final(state), *final(events)) == run_step(
            *input,
            *cfg,
            *old(state),
            *old(events),
            demand,
            manual_off,
            delta_ms,
        ),
{
    if state.latched_fault.is_some() {
        transition(state, events, ProcessState::Shutdown);
    } else {
        monitor_low_temp(state, input, cfg, delta_ms);
        let inferred_flame = state.low_temp_elapsed_ms < cfg.flame_loss_ms as u64;
        match resolve_flame_signal(input, cfg, inferred_flame) {
            Ok(false) => {
                latch_fault(state, events, FaultCode::FlameLost);
                transition(state, events, ProcessState::Shutdown);
            },
            Err(fault) => {
                latch_fault(state, events, fault);
                transition(state, events, ProcessState::Shutdown);
            },
            Ok(true) => {
                if manual_off {
                    transition(state, events, ProcessState::Shutdown);
                } else if !demand.heat_demand && state.run_elapsed_ms >= cfg.min_run_ms as u64 {
                    transition(state, events, ProcessState::Shutdown);
                }
            },
        }
    }
}

fn step_cooldown(cfg: &Config, state: &mut CoreState, events: &mut TickEvents)
    ensures
        (*final(state), *final(events)) == cooldown_step(*cfg, *old(state), *old(events)),
{
    let cooldown_target = if state.pending_restart_after_cooldown {
        cfg.retry_purge_ms
    } else {
        cfg.cooldown_ms
    };

    if state.state_elapsed_ms >= cooldown_target as u64 {
        if state.pending_restart_after_cooldown {
            state.pending_restart_after_cooldown = false;
            events.ignition_retry_started = true;
            transition(state, events, ProcessState::Preheat);
        } else if state.latched_fault.is_some() {
            transition(state, events, ProcessState::Lockout);
        } else {
            state.ignition_attempt = 0;
            state.run_elapsed_ms = 0;
            state.last_heat_stage = HeatStage::Off;
            state.off_elapsed_ms = 0;
            transition(state, events, ProcessState::Idle);
        }
    }
}

fn step_lockout(input: &TickInput, cfg: &Config, state: &mut CoreState, events: &mut TickEvents)
    ensures
        (*final(state), *final(events)) == lockout_step(*input, *cfg, *old(state), *old(events)),
{
    if input.commands.fault_reset_request && detect_safety_fault(input, cfg).is_none() {
        state.latched_fault = None;
        state.ignition_attempt = 0;
        state.pending_restart_after_cooldown = false;
        state.last_heat_stage = HeatStage::Off;
        state.off_elapsed_ms = 0;
        events.fault_cleared = true;
        transition(state, events, ProcessState::Idle);
    }
}

fn step_process(
    input: &TickInput,
    cfg: &Config,
    state: &mut CoreState,
    events: &mut TickEvents,
    demand: DemandResult,
    manual_off: bool,
    delta_ms: u64,
)
    requires
        old(state).process_state is Preheat ==> input.sensors.hx_temp_mc is Some,
    ensures
        (*final(state), *final(events)) == process_step(
            *input,
            *cfg,
            *old(state),
            *old(events),
            demand,
            manual_off,
            delta_ms,
        ),
{
    match state.process_state {
        ProcessState::Idle => step_idle(state, events, cfg, demand),
        ProcessState::Precheck => step_precheck(state, events, demand),
        ProcessState::Preheat => step_preheat(input, cfg, state, events, demand),
        ProcessState::IgnitionTrial => step_ignition_trial(input, cfg, state, events, demand),
        ProcessState::FlameStabilise => step_flame_stabilise(
            input,
            cfg,
            state,
            events,
            demand,
            delta_ms,
        ),
        ProcessState::Run => step_run(input, cfg, state, events, demand, manual_off, delta_ms),
        ProcessState::Shutdown => transition(state, events, ProcessState::Cooldown),
        ProcessState::Cooldown => step_cooldown(cfg, state, events),
        ProcessState::Lockout => step_lockout(input, cfg, state, events),
    }
}


// ---------------------------------------------------------------------------
// Heat stage and actuators
// ---------------------------------------------------------------------------

/// The stage for a temperature shortfall of `diff` below the target.
pub open spec fn stage_for_difference(diff: int, cfg: Config) -> HeatStage {
    if diff >= cfg.stage_high_delta_mc {
        HeatStage::High
    } else if diff >= cfg.stage_medium_delta_mc {
        HeatStage::Medium
    } else {
        HeatStage::Low
    }
}

/// The stage for heating the room towards `setpoint` (low when the room
/// reading is missing).
pub open spec fn stage_toward(setpoint: int, room: Option<i32>, cfg: Config) -> HeatStage {
    match room {
        Some(r) => stage_for_difference(setpoint - r, cfg),
        None => HeatStage::Low,
    }
}

/// The stage while running: high when boost forces it, otherwise from the
/// target of the effective mode (boost aims at 100 °C), off without one.
pub open spec fn run_stage(input: TickInput, s: CoreState, cfg: Config, forced_high: bool) -> HeatStage {
    if forced_high {
        HeatStage::High
    } else {
        let room = input.sensors.room_temp_mc;
        match s.effective_mode {
            EffectiveMode::Manual => stage_toward(s.manual_setpoint_mc as int, room, cfg),
            EffectiveMode::Scheduled => match input.schedule.target_temp_mc {
                Some(t) => stage_toward(t as int, room, cfg),
                None => HeatStage::Off,
            },
            EffectiveMode::Boost => stage_toward(100_000, room, cfg),
            EffectiveMode::Off => HeatStage::Off,
        }
    }
}

fn stage_from_temp_difference(temp_difference_mc: i64, cfg: &Config) -> (r: HeatStage)
    ensures
        r == stage_for_difference(temp_difference_mc as int, *cfg),
{
    if temp_difference_mc >= cfg.stage_high_delta_mc as i64 {
        HeatStage::High
    } else if temp_difference_mc >= cfg.stage_medium_delta_mc as i64 {
        HeatStage::Medium
    } else {
        HeatStage::Low
    }
}

fn stage_toward_setpoint(setpoint_mc: i32, room: Option<i32>, cfg: &Config) -> (r: HeatStage)
    ensures
        r == stage_toward(setpoint_mc as int, room, *cfg),
{
    match room {
        Some(t) => stage_from_temp_difference(setpoint_mc as i64 - t as i64, cfg),
        None => HeatStage::Low,
    }
}

fn stage_for_run(input: &TickInput, state: &CoreState, cfg: &Config, forced_high: bool) -> (r:
    HeatStage)
    ensures
        r == run_stage(*input, *state, *cfg, forced_high),
{
    if forced_high {
        return HeatStage::High;
    }
    let room = input.sensors.room_temp_mc;
    match state.effective_mode {
        EffectiveMode::Manual => stage_toward_setpoint(state.manual_setpoint_mc, room, cfg),
        EffectiveMode::Scheduled => match input.schedule.target_temp_mc {
            Some(t) => stage_toward_setpoint(t, room, cfg),
            None => HeatStage::Off,
        },
        EffectiveMode::Boost => stage_toward_setpoint(100_000, room, cfg),
        EffectiveMode::Off => HeatStage::Off,
    }
}

/// The actuator intent for a process state (and, while running, a stage).
/// No fuel is pumped outside ignition, stabilisation and run; lockout
/// switches everything off.
pub open spec fn actuators_for(ps: ProcessState, stage: HeatStage) -> ActuatorIntent {
    match ps {
        ProcessState::Idle | ProcessState::Precheck | ProcessState::Lockout => ActuatorIntent {
            fan_pct: 0,
            glow_on: false,
            fuel_pump_mhz: 0,
        },
        ProcessState::Preheat => ActuatorIntent { fan_pct: 25, glow_on: true, fuel_pump_mhz: 0 },
        ProcessState::IgnitionTrial => ActuatorIntent {
            fan_pct: 35,
            glow_on: true,
            fuel_pump_mhz: 1_600,
        },
        ProcessState::FlameStabilise => ActuatorIntent {
            fan_pct: 42,
            glow_on: true,
            fuel_pump_mhz: 1_800,
        },
        ProcessState::Run => match stage {
            HeatStage::Off | HeatStage::Low => ActuatorIntent {
                fan_pct: 50,
                glow_on: false,
                fuel_pump_mhz: 1_700,
            },
            HeatStage::Medium => ActuatorIntent {
                fan_pct: 68,
                glow_on: false,
                fuel_pump_mhz: 2_600,
            },
            HeatStage::High => ActuatorIntent { fan_pct: 92, glow_on: false, fuel_pump_mhz: 3_600 },
        },
        ProcessState::Shutdown => ActuatorIntent { fan_pct: 65, glow_on: false, fuel_pump_mhz: 0 },
        ProcessState::Cooldown => ActuatorIntent { fan_pct: 80, glow_on: false, fuel_pump_mhz: 0 },
    }
}

fn default_actuators_for_state(process_state: ProcessState, run_stage: HeatStage) -> (r:
    ActuatorIntent)
    ensures
        r == actuators_for(process_state, run_stage),
{
    match process_state {
        ProcessState::Idle | ProcessState::Precheck | ProcessState::Lockout => ActuatorIntent {
            fan_pct: 0,
            glow_on: false,
            fuel_pump_mhz: 0,
        },
        ProcessState::Preheat => ActuatorIntent { fan_pct: 25, glow_on: true, fuel_pump_mhz: 0 },
        ProcessState::IgnitionTrial => ActuatorIntent {
            fan_pct: 35,
            glow_on: true,
            fuel_pump_mhz: 1_600,
        },
        ProcessState::FlameStabilise => ActuatorIntent {
            fan_pct: 42,
            glow_on: true,
            fuel_pump_mhz: 1_800,
        },
        ProcessState::Run => match run_stage {
            HeatStage::Off | HeatStage::Low => ActuatorIntent {
                fan_pct: 50,
                glow_on: false,
                fuel_pump_mhz: 1_700,
            },
            HeatStage::Medium => ActuatorIntent {
                fan_pct: 68,
                glow_on: false,
                fuel_pump_mhz: 2_600,
            },
            HeatStage::High => ActuatorIntent { fan_pct: 92, glow_on: false, fuel_pump_mhz: 3_600 },
        },
        ProcessState::Shutdown => ActuatorIntent { fan_pct: 65, glow_on: false, fuel_pump_mhz: 0 },
        ProcessState::Cooldown => ActuatorIntent { fan_pct: 80, glow_on: false, fuel_pump_mhz: 0 },
    }
}

// ---------------------------------------------------------------------------
// The whole step
// ---------------------------------------------------------------------------

/// The state with this tick's elapsed time added to its running timers.
pub open spec fn timers_advanced(s: CoreState, delta: u64) -> CoreState {
    CoreState {
        state_elapsed_ms: sat_add(s.state_elapsed_ms, delta),
        run_elapsed_ms: if s.process_state is Run {
            sat_add(s.run_elapsed_ms, delta)
        } else {
            s.run_elapsed_ms
        },
        off_elapsed_ms: if s.process_state is Idle {
            sat_add(s.off_elapsed_ms, delta)
        } else {
            s.off_elapsed_ms
        },
        ..s
    }
}

/// The safety check of a tick: a present safety fault is latched and
/// forces the safe shutdown path.
pub open spec fn safety_applied(input: TickInput, cfg: Config, s: CoreState, ev: TickEvents) -> (
    CoreState,
    TickEvents,
) {
    match safety_fault(input, cfg) {
        Some(f) => {
            let (s1, e1) = latched(s, ev, f);
            forced_safe(s1, e1)
        },
        None => (s, ev),
    }
}

/// One control step: the new state and the output, for an input, the state
/// before the tick and the configuration as given (it is sanitised first).
pub open spec fn tick_result(input: TickInput, state: CoreState, cfg: Config) -> (
    CoreState,
    TickOutput,
) {
    let sanitised = cfg.sanitised();
    let c = sanitised.cfg;
    let delta = input.time.delta_ms as u64;
    let s1 = timers_advanced(state, delta);
    let (s2, demand) = mode_resolved(input, s1, c);
    let manual_off = s2.selected_mode == ModeRequest::Off;
    let (s3, e3) = safety_applied(input, c, s2, TickEvents::none());
    let (s4, e4) = process_step(input, c, s3, e3, demand, manual_off, delta);
    let stage = if s4.process_state is Run {
        run_stage(input, s4, c, demand.forced_high)
    } else {
        HeatStage::Off
    };
    let s5 = CoreState { last_heat_stage: stage, ..s4 };
    (
        s5,
        TickOutput {
            actuators: actuators_for(s5.process_state, stage),
            status: Status {
                process_state: s5.process_state,
                effective_mode: s5.effective_mode,
                active_stage: stage,
                fault: s5.latched_fault,
                heat_demand: demand.heat_demand,
                schedule_inhibited_no_time: demand.schedule_inhibited_no_time,
                config_defaulted: sanitised.used_defaults,
            },
            events: e4,
        },
    )
}

fn advance_timers(state: &mut CoreState, delta_ms: u64)
    ensures
        *final(state) == timers_advanced(*old(state), delta_ms),
{
    state.state_elapsed_ms = state.state_elapsed_ms.saturating_add(delta_ms);
    if state.process_state == ProcessState::Run {
        state.run_elapsed_ms = state.run_elapsed_ms.saturating_add(delta_ms);
    }
    if state.process_state == ProcessState::Idle {
        state.off_elapsed_ms = state.off_elapsed_ms.saturating_add(delta_ms);
    }
}

/// Single deterministic control step.
pub fn tick(input: &TickInput, state: &mut CoreState, cfg: &Config) -> (out: TickOutput)
    ensures
        (*final(state), out) == tick_result(*input, *old(state), *cfg),
{
    let mut events = TickEvents::default();
    let sanitised = cfg.sanitise();
    let cfg = sanitised.cfg;

    let delta_ms = input.time.delta_ms as u64;
    advance_timers(state, delta_ms);

    let demand = resolve_mode_and_demand(input, state, &cfg);
    let manual_off = state.selected_mode == ModeRequest::Off;

    if let Some(safety_fault) = detect_safety_fault(input, &cfg) {
        latch_fault(state, &mut events, safety_fault);
        force_safe_shutdown_path(state, &mut events);
    }

    step_process(input, &cfg, state, &mut events, demand, manual_off, delta_ms);

    if state.process_state == ProcessState::Run {
        state.last_heat_stage = stage_for_run(input, state, &cfg, demand.forced_high);
    } else {
        state.last_heat_stage = HeatStage::Off;
    }

    let mut actuators = default_actuators_for_state(state.process_state, state.last_heat_stage);

    // Hard safety invariants on actuator intent.
    match state.process_state {
        ProcessState::Idle
        | ProcessState::Precheck
        | ProcessState::Preheat
        | ProcessState::Shutdown
        | ProcessState::Cooldown
        | ProcessState::Lockout => {
            actuators.fuel_pump_mhz = 0;
        },
        ProcessState::IgnitionTrial | ProcessState::FlameStabilise | ProcessState::Run => {},
    }
    if state.process_state == ProcessState::Lockout {
        actuators.glow_on = false;
        actuators.fan_pct = 0;
    }

    TickOutput {
        actuators,
        status: Status {
            process_state: state.process_state,
            effective_mode: state.effective_mode,
            active_stage: state.last_heat_stage,
            fault: state.latched_fault,
            heat_demand: demand.heat_demand,
            schedule_inhibited_no_time: demand.schedule_inhibited_no_time,
            config_defaulted: sanitised.used_defaults,
        },
        events,
    }
}

} // verus!
