use heater_core::{
    ActuatorIntent, ActuatorSink, CommandInput, CommandSource, ModeRequest, ScheduleEvalInput,
    SensorInput, SensorSource, TimeInput, TimeSource, UtcTs,
};

#[derive(Clone, Copy)]
struct MockTime;

impl TimeSource for MockTime {
    fn sample_time(&mut self) -> TimeInput {
        TimeInput {
            utc: Some(1_700_000_000 as UtcTs),
            utc_valid: true,
            monotonic_ms: 1_000,
            delta_ms: 100,
        }
    }
}

#[derive(Clone, Copy)]
struct MockSensors;

impl SensorSource for MockSensors {
    fn sample_sensors(&mut self) -> SensorInput {
        SensorInput {
            room_temp_mc: Some(19_500),
            hx_temp_mc: Some(45_000),
            flame_present: Some(true),
            overheat_cutoff_tripped: Some(false),
            fan_rpm: None,
            supply_mv: Some(12_200),
            sensor_ok: true,
        }
    }
}

#[derive(Clone, Copy)]
struct MockCommands;

impl CommandSource for MockCommands {
    fn sample_commands(&mut self) -> CommandInput {
        CommandInput {
            mode_request: Some(ModeRequest::Manual),
            manual_setpoint_mc: Some(21_000),
            boost_request: false,
            boost_cancel: false,
            fault_reset_request: false,
        }
    }

    fn sample_schedule(&mut self) -> ScheduleEvalInput {
        ScheduleEvalInput {
            enabled_now: false,
            target_temp_mc: None,
        }
    }
}

#[derive(Default)]
struct MockActuators {
    last: Option<ActuatorIntent>,
}

impl ActuatorSink for MockActuators {
    fn apply(&mut self, intent: &ActuatorIntent) {
        self.last = Some(*intent);
    }
}

fn sample_once<T, S, C, A>(time: &mut T, sensors: &mut S, commands: &mut C, actuators: &mut A)
where
    T: TimeSource,
    S: SensorSource,
    C: CommandSource,
    A: ActuatorSink,
{
    let _time = time.sample_time();
    let _sensors = sensors.sample_sensors();
    let _commands = commands.sample_commands();
    let _schedule = commands.sample_schedule();

    actuators.apply(&ActuatorIntent {
        fan_pct: 10,
        glow_on: false,
        fuel_pump_mhz: 0,
    });
}

#[test]
fn mock_ports_contract_cycle() {
    let mut time = MockTime;
    let mut sensors = MockSensors;
    let mut commands = MockCommands;
    let mut actuators = MockActuators::default();

    sample_once(&mut time, &mut sensors, &mut commands, &mut actuators);

    assert_eq!(
        actuators.last,
        Some(ActuatorIntent {
            fan_pct: 10,
            glow_on: false,
            fuel_pump_mhz: 0,
        })
    );
}
