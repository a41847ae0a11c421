//! Hardware and runtime abstraction contracts for heater control.
//!
//! A runtime implements these for its clock, sensors, command channel and
//! actuators, and feeds what they sample to the controller.
use vstd::prelude::*;
use crate::types::{ActuatorIntent, CommandInput, ScheduleEvalInput, SensorInput, TimeInput};

verus! {

/// A source of time information.
pub trait TimeSource {
    fn sample_time(&mut self) -> TimeInput;
}

/// A source of sensor readings.
pub trait SensorSource {
    fn sample_sensors(&mut self) -> SensorInput;
}

/// A source of user commands and schedule evaluations.
pub trait CommandSource {
    fn sample_commands(&mut self) -> CommandInput;

    fn sample_schedule(&mut self) -> ScheduleEvalInput;
}

/// A sink that applies actuator intents.
pub trait ActuatorSink {
    fn apply(&mut self, intent: &ActuatorIntent);
}

} // verus!
