//! Public domain types for heater control.
//!
//! Physical quantities are fixed-point integers: temperatures in milli-degrees
//! Celsius (`_mc`), voltages in millivolts (`_mv`) and pump rates in millihertz
//! (`_mhz`). A sensor reading that the runtime could not express as a finite
//! number is `None`.
use vstd::prelude::*;

verus! {

/// Wall-clock timestamp in seconds.
pub type UtcTs = i64;

/// Combustion process state.
#[derive(Debug, Clone, Copy, PartialEq, Eq, Structural)]
pub enum ProcessState {
    Idle,
    Precheck,
    Preheat,
    IgnitionTrial,
    FlameStabilise,
    Run,
    Shutdown,
    Cooldown,
    Lockout,
}

/// Mode in force after boost and schedule have been resolved.
#[derive(Debug, Clone, Copy, PartialEq, Eq, Structural)]
pub enum EffectiveMode {
    Off,
    Manual,
    Scheduled,
    Boost,
}

/// Mode selected by the user.
#[derive(Debug, Clone, Copy, PartialEq, Eq, Structural)]
pub enum ModeRequest {
    Off,
    Manual,
    Scheduled,
}

/// Heat output stage while running.
#[derive(Debug, Clone, Copy, PartialEq, Eq, Structural)]
pub enum HeatStage {
    Off,
    Low,
    Medium,
    High,
}

/// Fault that can be latched by the controller.
#[derive(Debug, Clone, Copy, PartialEq, Eq, Structural)]
pub enum FaultCode {
    IgnitionFailed,
    FlameLost,
    FanStall,
    OverTemp,
    UnderVoltage,
    SensorFault,
    InvalidState,
}

/// Time information for one tick.
#[derive(Debug, Clone, Copy, PartialEq, Eq, Structural)]
pub struct TimeInput {
    pub utc: Option<UtcTs>,
    pub utc_valid: bool,
    pub monotonic_ms: u64,
    pub delta_ms: u32,
}

/// Sensor readings for one tick.
#[derive(Debug, Clone, Copy, PartialEq, Eq, Structural)]
pub struct SensorInput {
    /// Room temperature; `None` when the reading is not a finite number.
    pub room_temp_mc: Option<i32>,
    /// Heat exchanger temperature; `None` when the reading is not a finite number.
    pub hx_temp_mc: Option<i32>,
    pub flame_present: Option<bool>,
    pub overheat_cutoff_tripped: Option<bool>,
    pub fan_rpm: Option<u16>,
    /// Supply voltage; `None` when the reading is not a finite number.
    pub supply_mv: Option<i32>,
    pub sensor_ok: bool,
}

/// User commands for one tick.
#[derive(Debug, Clone, Copy, PartialEq, Eq, Structural)]
pub struct CommandInput {
    pub mode_request: Option<ModeRequest>,
    pub manual_setpoint_mc: Option<i32>,
    pub boost_request: bool,
    pub boost_cancel: bool,
    pub fault_reset_request: bool,
}

/// Result of the schedule evaluation for this tick.
#[derive(Debug, Clone, Copy, PartialEq, Eq, Structural)]
pub struct ScheduleEvalInput {
    pub enabled_now: bool,
    pub target_temp_mc: Option<i32>,
}

/// Everything the controller reads in one tick.
#[derive(Debug, Clone, Copy, PartialEq, Eq, Structural)]
pub struct TickInput {
    pub time: TimeInput,
    pub sensors: SensorInput,
    pub commands: CommandInput,
    pub schedule: ScheduleEvalInput,
}

/// Requested actuator outputs.
#[derive(Debug, Clone, Copy, PartialEq, Eq, Structural)]
pub struct ActuatorIntent {
    pub fan_pct: u8,
    pub glow_on: bool,
    pub fuel_pump_mhz: u32,
}

/// Reported controller status.
#[derive(Debug, Clone, Copy, PartialEq, Eq, Structural)]
pub struct Status {
    pub process_state: ProcessState,
    pub effective_mode: EffectiveMode,
    pub active_stage: HeatStage,
    pub fault: Option<FaultCode>,
    pub heat_demand: bool,
    pub schedule_inhibited_no_time: bool,
    pub config_defaulted: bool,
}

/// Edge events raised during one tick.
#[derive(Debug, Clone, Copy, PartialEq, Eq, Structural)]
pub struct TickEvents {
    pub entered_state: Option<ProcessState>,
    pub fault_latched: Option<FaultCode>,
    pub fault_cleared: bool,
    pub ignition_retry_started: bool,
}

/// Everything the controller produces in one tick.
#[derive(Debug, Clone, Copy, PartialEq, Eq, Structural)]
pub struct TickOutput {
    pub actuators: ActuatorIntent,
    pub status: Status,
    pub events: TickEvents,
}

/// Persistent controller state carried between ticks.
#[derive(Debug, Clone, Copy, PartialEq, Eq, Structural)]
pub struct CoreState {
    pub process_state: ProcessState,
    pub selected_mode: ModeRequest,
    pub effective_mode: EffectiveMode,
    pub latched_fault: Option<FaultCode>,
    pub ignition_attempt: u8,
    pub state_elapsed_ms: u64,
    pub run_elapsed_ms: u64,
    pub off_elapsed_ms: u64,
    pub boost_expires_at_ms: Option<u64>,
    pub last_heat_stage: HeatStage,
    pub pending_restart_after_cooldown: bool,
    pub manual_setpoint_mc: i32,
    pub ignition_baseline_temp_mc: i32,
    pub low_temp_elapsed_ms: u64,
    pub fan_stall_elapsed_ms: u64,
}

impl TickEvents {
    /// The event record of a tick in which nothing happened.
    pub open spec fn none() -> TickEvents {
        TickEvents {
            entered_state: None,
            fault_latched: None,
            fault_cleared: false,
            ignition_retry_started: false,
        }
    }

}

impl Default for TickEvents {
    fn default() -> (ev: TickEvents)
        ensures
            ev == TickEvents::none(),
    {
        TickEvents {
            entered_state: None,
            fault_latched: None,
            fault_cleared: false,
            ignition_retry_started: false,
        }
    }
}

impl CoreState {
    /// The state of a controller that has just been powered up.
    pub open spec fn initial() -> CoreState {
        CoreState {
            process_state: ProcessState::Idle,
            selected_mode: ModeRequest::Off,
            effective_mode: EffectiveMode::Off,
            latched_fault: None,
            ignition_attempt: 0,
            state_elapsed_ms: 0,
            run_elapsed_ms: 0,
            off_elapsed_ms: u64::MAX,
            boost_expires_at_ms: None,
            last_heat_stage: HeatStage::Off,
            pending_restart_after_cooldown: false,
            manual_setpoint_mc: 20_000,
            ignition_baseline_temp_mc: 0,
            low_temp_elapsed_ms: 0,
            fan_stall_elapsed_ms: 0,
        }
    }
}

impl Default for CoreState {
    fn default() -> (s: CoreState)
        ensures
            s == CoreState::initial(),
    {
        CoreState {
            process_state: ProcessState::Idle,
            selected_mode: ModeRequest::Off,
            effective_mode: EffectiveMode::Off,
            latched_fault: None,
            ignition_attempt: 0,
            state_elapsed_ms: 0,
            run_elapsed_ms: 0,
            off_elapsed_ms: u64::MAX,
            boost_expires_at_ms: None,
            last_heat_stage: HeatStage::Off,
            pending_restart_after_cooldown: false,
            manual_setpoint_mc: 20_000,
            ignition_baseline_temp_mc: 0,
            low_temp_elapsed_ms: 0,
            fan_stall_elapsed_ms: 0,
        }
    }
}

} // verus!
