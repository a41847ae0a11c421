# heater_core

Deterministic control core for a diesel air heater, verified with Verus.

One call of `tick` (or `HeaterEngine::step`) takes the tick's time, sensor
readings, user commands and schedule result, advances the controller state
and returns the actuator intents (fan, glow plug, fuel pump), a status record
and the edge events of the tick.

Quantities are fixed-point integers: temperatures in milli-degrees Celsius
(`_mc`), voltages in millivolts (`_mv`), the fuel pump rate in millihertz
(`_mhz`). A sensor reading that is not a finite number is `None`; the
runtime converts its physical readings at the edge.

Layout:

- `src/types.rs`: inputs, outputs and the persistent controller state.
- `src/config.rs`: the configuration and its sanitisation.
- `src/fsm.rs`: the state machine, with a spec function for every step.
- `src/engine.rs`: `HeaterEngine`, owning a configuration and a state.
- `src/ports.rs`: traits a runtime implements for its clock, sensors,
  command channel and actuators.
- `src/laws.rs`: properties proved of every step (actuator safety, fault
  latching and reset, edge events, mode priority, anti short-cycling,
  ignition retries, sanitisation bounds).
- `app/main.rs`: a closed-loop simulation with a floating-point thermal model.
