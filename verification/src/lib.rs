//! Deterministic control core for a diesel air heater: a state machine that
//! turns sensor readings, user commands and schedule results into actuator
//! intents, with configuration sanitisation and safety interlocks.
#![allow(unused_imports)]

pub mod config;
pub mod engine;
pub mod fsm;
pub mod laws;
pub mod ports;
pub mod types;

pub use config::{Config, SanitisedConfig};
pub use engine::HeaterEngine;
pub use fsm::tick;
pub use ports::{ActuatorSink, CommandSource, SensorSource, TimeSource};
pub use types::{
    ActuatorIntent, CommandInput, CoreState, EffectiveMode, FaultCode, HeatStage, ModeRequest,
    ProcessState, ScheduleEvalInput, SensorInput, Status, TickEvents, TickInput, TickOutput,
    TimeInput, UtcTs,
};

