//! The sensor-sampling task: it waits until the network is up, then reads
//! the temperature, hands the reading on and sleeps, over and over.

use vstd::prelude::*;
use vstd::string::StringSliceAdditionalSpecFns;
use crate::text::{decimal, push_decimal, push_range};

verus! {

/// The number of seconds between two temperature readings.
pub const SAMPLING_PERIOD_SECS: u64 = 30;

/// A message from the sensor task to the network task.
#[derive(Clone, Copy, Debug, PartialEq, Eq, Structural)]
pub enum Event {
    /// A temperature reading, on the sensor's own fixed-point scale.
    TemperatureMeasurement(i32),
}

impl Event {
    /// The event as text: `Temp: `, the reading in decimal, and ` C`.
    pub open spec fn rendered(self) -> Seq<u8> {
        match self {
            Event::TemperatureMeasurement(measure) => "Temp: ".spec_bytes() + decimal(
                measure as int,
            ) + " C".spec_bytes(),
        }
    }

    /// Renders the event as text.
    pub fn to_bytes(self) -> (bytes: Vec<u8>)
        ensures
            bytes@ == self.rendered(),
    {
        let Event::TemperatureMeasurement(measure) = self;
        let head: &[u8] = "Temp: ".as_bytes();
        let tail: &[u8] = " C".as_bytes();
        let mut bytes: Vec<u8> = Vec::new();
        push_range(&mut bytes, head, 0, head.len());
        push_decimal(&mut bytes, measure);
        push_range(&mut bytes, tail, 0, tail.len());
        proof {
            assert(head@.subrange(0, head@.len() as int) =~= head@);
            assert(tail@.subrange(0, tail@.len() as int) =~= tail@);
            assert(bytes@ =~= self.rendered());
        }
        bytes
    }
}

impl vstd::std_specs::convert::FromSpecImpl<Event> for Vec<u8> {
    open spec fn obeys_from_spec() -> bool {
        false
    }

    open spec fn from_spec(v: Event) -> Vec<u8> {
        arbitrary()
    }
}

impl From<Event> for Vec<u8> {
    /// Renders the event as text.
    fn from(val: Event) -> (bytes: Vec<u8>)
        ensures
            bytes@ == val.rendered(),
    {
        val.to_bytes()
    }
}

/// The signals of the flag group that the two tasks share.
#[derive(Clone, Copy, Debug, PartialEq, Eq, Structural)]
pub enum FlagEvents {
    WifiConnected,
    WifiDisconnected,
}

impl FlagEvents {
    /// The bit of the flag group that stands for the signal.
    pub fn bits(self) -> (mask: u32)
        ensures
            mask == match self {
                FlagEvents::WifiConnected => 1u32,
                FlagEvents::WifiDisconnected => 2u32,
            },
    {
        match self {
            FlagEvents::WifiConnected => 1,
            FlagEvents::WifiDisconnected => 2,
        }
    }
}

/// Where the sensor task stands.
#[derive(Clone, Copy, Debug, PartialEq, Eq, Structural)]
pub enum SensorState {
    /// The network-up signal has not been seen yet.
    AwaitingNetwork,
    /// The network-up signal was seen; the task samples from now on.
    Sampling,
    /// The sensor could not be read: the task has stopped for good.
    Aborted,
}

/// What the sensor task is told after it has done what it was asked to do.
#[derive(Clone, Copy, Debug, PartialEq, Eq, Structural)]
pub enum SensorInput {
    /// The wait on the flag group returned with this signal.
    Signal(FlagEvents),
    /// The sensor was read.
    Reading(i16),
    /// The sensor could not be read.
    ReadFailed,
    /// The event was handed to the queue, or the queue refused it.
    Sent(bool),
    /// The sleep is over.
    Woke,
}

/// What the sensor task asks for next.
#[derive(Clone, Copy, Debug, PartialEq, Eq, Structural)]
pub enum SensorAction {
    /// Wait on the flag group for the network-up signal, clearing it.
    AwaitNetwork,
    /// Read the temperature.
    ReadSensor,
    /// Put the event on the queue.
    Send(Event),
    /// Sleep for this many seconds.
    Sleep(u64),
    /// Stop the task.
    Abort,
}

/// One step of the sensor task. Before the network is up nothing but the
/// network-up signal moves it. From then on a reading is sent, a send is
/// followed by a sleep of `SAMPLING_PERIOD_SECS` seconds whether or not the
/// queue took the event, and the end of a sleep by the next reading; a signal
/// that arrives then is passed over with another sleep. A reading that fails
/// stops the task for good: it is not tried again.
pub open spec fn sensor_step(state: SensorState, input: SensorInput) -> (SensorState, SensorAction) {
    match state {
        SensorState::AwaitingNetwork => match input {
            SensorInput::Signal(FlagEvents::WifiConnected) => (
                SensorState::Sampling,
                SensorAction::ReadSensor,
            ),
            _ => (SensorState::AwaitingNetwork, SensorAction::AwaitNetwork),
        },
        SensorState::Sampling => match input {
            SensorInput::Reading(raw) => (
                SensorState::Sampling,
                SensorAction::Send(Event::TemperatureMeasurement(raw as i32)),
            ),
            SensorInput::ReadFailed => (SensorState::Aborted, SensorAction::Abort),
            SensorInput::Woke => (SensorState::Sampling, SensorAction::ReadSensor),
            SensorInput::Sent(_) => (SensorState::Sampling, SensorAction::Sleep(SAMPLING_PERIOD_SECS)),
            SensorInput::Signal(_) => (SensorState::Sampling, SensorAction::Sleep(SAMPLING_PERIOD_SECS)),
        },
        SensorState::Aborted => (SensorState::Aborted, SensorAction::Abort),
    }
}

/// The state of a task that started out in `AwaitingNetwork` and took
/// `inputs` in order.
pub open spec fn sensor_state_after(inputs: Seq<SensorInput>) -> SensorState
    decreases inputs.len(),
{
    if inputs.len() == 0 {
        SensorState::AwaitingNetwork
    } else {
        sensor_step(sensor_state_after(inputs.drop_last()), inputs.last()).0
    }
}

/// What such a task asks for in answer to input `i` of `inputs`.
pub open spec fn sensor_action_at(inputs: Seq<SensorInput>, i: int) -> SensorAction {
    sensor_step(sensor_state_after(inputs.take(i)), inputs[i]).1
}

/// The sensor task.
#[derive(Clone, Copy, Debug, PartialEq, Eq, Structural)]
pub struct SensorTask {
    pub state: SensorState,
}

impl SensorTask {
    /// The task at boot, together with the first thing it asks for.
    pub fn new() -> (start: (SensorTask, SensorAction))
        ensures
            start.0.state == SensorState::AwaitingNetwork,
            start.1 == SensorAction::AwaitNetwork,
    {
        (SensorTask { state: SensorState::AwaitingNetwork }, SensorAction::AwaitNetwork)
    }

    /// Takes one input and returns what to do next.
    pub fn step(&mut self, input: SensorInput) -> (action: SensorAction)
        ensures
            (final(self).state, action) == sensor_step(old(self).state, input),
    {
        match self.state {
            SensorState::AwaitingNetwork => match input {
                SensorInput::Signal(FlagEvents::WifiConnected) => {
                    self.state = SensorState::Sampling;
                    SensorAction::ReadSensor
                },
                _ => SensorAction::AwaitNetwork,
            },
            SensorState::Sampling => match input {
                SensorInput::Reading(raw) => SensorAction::Send(
                    Event::TemperatureMeasurement(raw as i32),
                ),
                SensorInput::ReadFailed => {
                    self.state = SensorState::Aborted;
                    SensorAction::Abort
                },
                SensorInput::Woke => SensorAction::ReadSensor,
                SensorInput::Sent(_) => SensorAction::Sleep(SAMPLING_PERIOD_SECS),
                SensorInput::Signal(_) => SensorAction::Sleep(SAMPLING_PERIOD_SECS),
            },
            SensorState::Aborted => SensorAction::Abort,
        }
    }
}

/// Whatever the task is told and in whatever order, it asks for an event to
/// be sent only after it has been told that the network is up; and it has
/// left `AwaitingNetwork` exactly when it has been told so.
pub proof fn lemma_no_event_before_network_up(inputs: Seq<SensorInput>)
    ensures
        sensor_state_after(inputs) != SensorState::AwaitingNetwork <==> exists|j: int|
            0 <= j < inputs.len() && inputs[j] == SensorInput::Signal(FlagEvents::WifiConnected),
        forall|i: int|
            0 <= i < inputs.len() && #[trigger] sensor_action_at(inputs, i) is Send ==> exists|
                j: int,
            |
                0 <= j < i && inputs[j] == SensorInput::Signal(FlagEvents::WifiConnected),
    decreases inputs.len(),
{
    let up = SensorInput::Signal(FlagEvents::WifiConnected);
    if inputs.len() > 0 {
        let front = inputs.drop_last();
        lemma_no_event_before_network_up(front);
        if sensor_state_after(inputs) != SensorState::AwaitingNetwork {
            if inputs.last() == up {
                assert(inputs[inputs.len() - 1] == up);
            } else {
                let j = choose|j: int| 0 <= j < front.len() && front[j] == up;
                assert(inputs[j] == up);
            }
        }
        if exists|j: int| 0 <= j < inputs.len() && inputs[j] == up {
            let j = choose|j: int| 0 <= j < inputs.len() && inputs[j] == up;
            if j < front.len() {
                assert(front[j] == up);
            }
        }
    }
    assert forall|i: int|
        0 <= i < inputs.len() && #[trigger] sensor_action_at(inputs, i) is Send implies exists|
        j: int,
    |
        0 <= j < i && inputs[j] == up by {
        let before = inputs.take(i);
        lemma_no_event_before_network_up(before);
        assert(sensor_state_after(before) == SensorState::Sampling);
        let j = choose|j: int| 0 <= j < before.len() && before[j] == up;
        assert(inputs[j] == up);
    }
}

/// Once the task has left `AwaitingNetwork` it never goes back and never asks
/// for the network wait again, whatever it is told.
pub proof fn lemma_network_wait_happens_once(state: SensorState, input: SensorInput)
    requires
        state != SensorState::AwaitingNetwork,
    ensures
        sensor_step(state, input).0 != SensorState::AwaitingNetwork,
        sensor_step(state, input).1 != SensorAction::AwaitNetwork,
        state == SensorState::Sampling && input != SensorInput::ReadFailed ==> sensor_step(
            state,
            input,
        ).0 == SensorState::Sampling,
{
}

} // verus!
