use vehicle_node::sensor::{
    Event, FlagEvents, SensorAction, SensorInput, SensorState, SensorTask, SAMPLING_PERIOD_SECS,
};

#[test]
fn event_renders_as_text() {
    assert_eq!(Event::TemperatureMeasurement(184).to_bytes(), b"Temp: 184 C".to_vec());
    assert_eq!(Event::TemperatureMeasurement(0).to_bytes(), b"Temp: 0 C".to_vec());
    assert_eq!(Event::TemperatureMeasurement(-40).to_bytes(), b"Temp: -40 C".to_vec());
    assert_eq!(
        Event::TemperatureMeasurement(i32::MIN).to_bytes(),
        b"Temp: -2147483648 C".to_vec()
    );
}

#[test]
fn event_converts_into_bytes() {
    let bytes: Vec<u8> = Event::TemperatureMeasurement(21).into();
    assert_eq!(bytes, b"Temp: 21 C".to_vec());
    assert_eq!(Vec::<u8>::from(Event::TemperatureMeasurement(-7)), b"Temp: -7 C".to_vec());
}

#[test]
fn flag_bits() {
    assert_eq!(FlagEvents::WifiConnected.bits(), 1);
    assert_eq!(FlagEvents::WifiDisconnected.bits(), 2);
}

#[test]
fn sampling_period_is_thirty_seconds() {
    assert_eq!(SAMPLING_PERIOD_SECS, 30);
}

#[test]
fn task_starts_by_waiting_for_the_network() {
    let (task, action) = SensorTask::new();
    assert_eq!(task.state, SensorState::AwaitingNetwork);
    assert_eq!(action, SensorAction::AwaitNetwork);
}

#[test]
fn task_samples_in_a_cycle_once_the_network_is_up() {
    let (mut task, _) = SensorTask::new();
    assert_eq!(
        task.step(SensorInput::Signal(FlagEvents::WifiConnected)),
        SensorAction::ReadSensor
    );
    assert_eq!(task.state, SensorState::Sampling);
    assert_eq!(
        task.step(SensorInput::Reading(-12)),
        SensorAction::Send(Event::TemperatureMeasurement(-12))
    );
    assert_eq!(task.step(SensorInput::Sent(true)), SensorAction::Sleep(30));
    assert_eq!(task.step(SensorInput::Woke), SensorAction::ReadSensor);
    assert_eq!(
        task.step(SensorInput::Reading(i16::MAX)),
        SensorAction::Send(Event::TemperatureMeasurement(32767))
    );
    assert_eq!(task.state, SensorState::Sampling);
}

#[test]
fn failed_send_is_not_retried() {
    let (mut task, _) = SensorTask::new();
    task.step(SensorInput::Signal(FlagEvents::WifiConnected));
    task.step(SensorInput::Reading(5));
    assert_eq!(task.step(SensorInput::Sent(false)), SensorAction::Sleep(30));
    assert_eq!(task.step(SensorInput::Woke), SensorAction::ReadSensor);
}

#[test]
fn nothing_is_sent_before_the_network_is_up() {
    let (mut task, _) = SensorTask::new();
    let inputs = [
        SensorInput::Reading(3),
        SensorInput::Woke,
        SensorInput::Sent(true),
        SensorInput::Signal(FlagEvents::WifiDisconnected),
        SensorInput::Reading(4),
    ];
    for input in inputs {
        assert_eq!(task.step(input), SensorAction::AwaitNetwork);
        assert_eq!(task.state, SensorState::AwaitingNetwork);
    }
}

#[test]
fn sampling_is_terminal() {
    let (mut task, _) = SensorTask::new();
    task.step(SensorInput::Signal(FlagEvents::WifiConnected));
    assert_eq!(task.step(SensorInput::Signal(FlagEvents::WifiDisconnected)), SensorAction::Sleep(30));
    assert_eq!(task.state, SensorState::Sampling);
    assert_eq!(task.step(SensorInput::Signal(FlagEvents::WifiConnected)), SensorAction::Sleep(30));
    assert_eq!(task.state, SensorState::Sampling);
}

#[test]
fn failed_reading_aborts_the_task() {
    let (mut task, _) = SensorTask::new();
    task.step(SensorInput::Signal(FlagEvents::WifiConnected));
    assert_eq!(task.step(SensorInput::ReadFailed), SensorAction::Abort);
    assert_eq!(task.state, SensorState::Aborted);
    assert_eq!(task.step(SensorInput::Woke), SensorAction::Abort);
    assert_eq!(task.step(SensorInput::Reading(1)), SensorAction::Abort);
    assert_eq!(task.step(SensorInput::Signal(FlagEvents::WifiConnected)), SensorAction::Abort);
    assert_eq!(task.state, SensorState::Aborted);
}

#[test]
fn failed_reading_before_the_network_is_up_is_passed_over() {
    let (mut task, _) = SensorTask::new();
    assert_eq!(task.step(SensorInput::ReadFailed), SensorAction::AwaitNetwork);
    assert_eq!(task.state, SensorState::AwaitingNetwork);
}
