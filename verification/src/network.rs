//! The network task: its start-up sequence, and the bookkeeping of its
//! control loop over received payloads, the two buttons and the display.

use vstd::prelude::*;
use vstd::slice::slice_to_vec;
use vstd::string::StringSliceAdditionalSpecFns;
use crate::button::ButtonState;
use crate::display::{
    frame_ops, lemma_message_visible_for_duration, render_multiple_text, DisplayMessageState,
    DisplayOp, MESSAGE_DISPLAY_DURATION,
};
use crate::parameters::{
    brake_override, cruise_control_requested, cruise_on, kept, override_payload, readable,
    VehicleParameters,
};
use crate::text::{contains, same_text};

verus! {

/// The number of milliseconds that the control loop sleeps in each round.
pub const LOOP_PERIOD_MS: u64 = 100;

/// The number of milliseconds that the task waits after the network came up.
pub const SETTLE_DELAY_MS: u64 = 2000;

/// The port of the broker.
pub const BROKER_PORT: u16 = 1883;

/// The keepalive interval of the session, in seconds.
pub const KEEPALIVE_INTERVAL_SECS: u16 = 60;

/// A topic of the messaging protocol.
#[derive(Clone, Copy, Debug, PartialEq, Eq, Structural)]
pub enum Topic {
    /// `vehicle/parameters`: subscribed to, and published to by the brake
    /// override.
    Parameters,
    /// `vehicle/cruisecontrol`: published to when cruise control is toggled.
    CruiseControl,
}

impl Topic {
    /// The topic's name on the wire.
    pub fn name(self) -> (name: &'static str)
        ensures
            name == match self {
                Topic::Parameters => "vehicle/parameters",
                Topic::CruiseControl => "vehicle/cruisecontrol",
            },
    {
        match self {
            Topic::Parameters => "vehicle/parameters",
            Topic::CruiseControl => "vehicle/cruisecontrol",
        }
    }
}

/// A message for the transport to publish.
#[derive(Clone, Debug, PartialEq, Eq)]
pub struct Publication {
    pub topic: Topic,
    pub payload: Vec<u8>,
}

/// A publication as plain values.
pub open spec fn published(publication: Option<Publication>) -> Option<(Topic, Seq<u8>)> {
    match publication {
        Some(p) => Some((p.topic, p.payload@)),
        None => None,
    }
}

/// The payload that announces a cruise-control state: `true` or `false` as
/// bare text.
pub open spec fn cruise_payload(active: bool) -> Seq<u8> {
    if active {
        "true".spec_bytes()
    } else {
        "false".spec_bytes()
    }
}

/// The message that the display shows for a cruise-control state.
pub open spec fn cruise_banner(active: bool) -> &'static str {
    if active {
        "CruiseControl\nEnabled"
    } else {
        "CruiseControl\nDisabled"
    }
}

/// A diagnostic counter one event later; it stops at its largest value.
pub open spec fn counted(counter: u64) -> u64 {
    if counter < u64::MAX {
        (counter + 1) as u64
    } else {
        counter
    }
}

/// The state of the control loop as plain values.
pub struct NetworkModel {
    pub subscribed: bool,
    pub params: Seq<u8>,
    pub cruise_control_active: bool,
    pub button_a: ButtonState,
    pub button_b: ButtonState,
    pub display: DisplayMessageState,
    pub messages_received: u64,
    pub messages_sent: u64,
}

impl NetworkModel {
    /// The state in which the loop starts: not subscribed, nothing received,
    /// cruise control off, both buttons released, no message armed.
    pub open spec fn initial() -> NetworkModel {
        NetworkModel {
            subscribed: false,
            params: Seq::empty(),
            cruise_control_active: false,
            button_a: ButtonState { last_level: true },
            button_b: ButtonState { last_level: true },
            display: DisplayMessageState::idle(),
            messages_received: 0,
            messages_sent: 0,
        }
    }

    /// The loop asks for the subscription while the transport is connected
    /// and no earlier request was accepted.
    pub open spec fn wants_subscription(self, connected: bool) -> bool {
        connected && !self.subscribed
    }

    /// The state after the transport answered a subscription request.
    pub open spec fn after_subscription(self, accepted: bool) -> NetworkModel {
        NetworkModel { subscribed: self.subscribed || accepted, ..self }
    }

    /// The state after a message was delivered. One on the parameters topic
    /// replaces the stored parameters, decides the cruise-control flag anew
    /// and is counted; one on any other topic changes nothing.
    pub open spec fn after_message(self, topic: Seq<char>, payload: Seq<u8>) -> NetworkModel {
        if topic == "vehicle/parameters"@ {
            NetworkModel {
                params: kept(payload),
                cruise_control_active: contains(readable(payload), cruise_on()),
                messages_received: counted(self.messages_received),
                ..self
            }
        } else {
            self
        }
    }

    /// Button A publishes the brake override when it is pressed while cruise
    /// control is active and parameters are stored.
    pub open spec fn overrides(self, level: bool) -> bool {
        self.button_a.sampled(level).1 && self.cruise_control_active && self.params.len() > 0
    }

    /// The state after a sample of button A, and what is published for it.
    pub open spec fn after_button_a(self, level: bool) -> (NetworkModel, Option<(Topic, Seq<u8>)>) {
        let sampled = NetworkModel { button_a: self.button_a.sampled(level).0, ..self };
        if self.overrides(level) {
            (
                NetworkModel { messages_sent: counted(self.messages_sent), ..sampled },
                Some((Topic::Parameters, brake_override(self.params))),
            )
        } else {
            (sampled, None)
        }
    }

    /// The state after a sample of button B, and what is published for it: a
    /// press flips the cruise-control flag, publishes the new flag and arms
    /// the message that announces it.
    pub open spec fn after_button_b(self, level: bool) -> (NetworkModel, Option<(Topic, Seq<u8>)>) {
        let sampled = NetworkModel { button_b: self.button_b.sampled(level).0, ..self };
        if self.button_b.sampled(level).1 {
            let active = !self.cruise_control_active;
            (
                NetworkModel {
                    cruise_control_active: active,
                    display: DisplayMessageState::armed(cruise_banner(active)),
                    messages_sent: counted(self.messages_sent),
                    ..sampled
                },
                Some((Topic::CruiseControl, cruise_payload(active))),
            )
        } else {
            (sampled, None)
        }
    }

    /// The state after the display was refreshed.
    pub open spec fn after_refresh(self) -> NetworkModel {
        NetworkModel { display: self.display.refreshed(), ..self }
    }
}

/// The state that the control loop carries from round to round.
pub struct NetworkTask {
    pub subscribed: bool,
    pub params: VehicleParameters,
    pub cruise_control_active: bool,
    pub button_a: ButtonState,
    pub button_b: ButtonState,
    pub display: DisplayMessageState,
    pub messages_received: u64,
    pub messages_sent: u64,
}

impl View for NetworkTask {
    type V = NetworkModel;

    open spec fn view(&self) -> NetworkModel {
        NetworkModel {
            subscribed: self.subscribed,
            params: self.params@,
            cruise_control_active: self.cruise_control_active,
            button_a: self.button_a,
            button_b: self.button_b,
            display: self.display,
            messages_received: self.messages_received,
            messages_sent: self.messages_sent,
        }
    }
}

/// Counts one more event on a diagnostic counter.
fn count(counter: u64) -> (next: u64)
    ensures
        next == counted(counter),
{
    if counter < u64::MAX {
        counter + 1
    } else {
        counter
    }
}

impl NetworkTask {
    /// The state in which the loop starts.
    pub fn new() -> (task: NetworkTask)
        ensures
            task@ == NetworkModel::initial(),
    {
        NetworkTask {
            subscribed: false,
            params: VehicleParameters::new(),
            cruise_control_active: false,
            button_a: ButtonState::new(),
            button_b: ButtonState::new(),
            display: DisplayMessageState::new(),
            messages_received: 0,
            messages_sent: 0,
        }
    }

    /// Tells whether this round has to ask the transport for the
    /// subscription.
    pub fn wants_subscription(&self, connected: bool) -> (wanted: bool)
        ensures
            wanted == self@.wants_subscription(connected),
    {
        connected && !self.subscribed
    }

    /// Records the transport's answer to a subscription request. A refused
    /// request is asked again in the next round.
    pub fn subscription_result(&mut self, accepted: bool)
        ensures
            final(self)@ == old(self)@.after_subscription(accepted),
    {
        if accepted {
            self.subscribed = true;
        }
    }

    /// Takes a message that the transport delivered and tells whether it was
    /// on the parameters topic.
    pub fn on_message(&mut self, topic: &str, payload: &[u8]) -> (taken: bool)
        ensures
            taken == (topic@ == "vehicle/parameters"@),
            final(self)@ == old(self)@.after_message(topic@, payload@),
    {
        if !is_parameters_topic(topic) {
            return false;
        }
        self.params.store(payload);
        self.cruise_control_active = cruise_control_requested(payload);
        self.messages_received = count(self.messages_received);
        true
    }

    /// Takes a sample of button A and returns the brake override to publish,
    /// if the sample calls for one.
    pub fn on_button_a(&mut self, level: bool) -> (publication: Option<Publication>)
        ensures
            (final(self)@, published(publication)) == old(self)@.after_button_a(level),
    {
        let pressed = self.button_a.sample(level);
        if pressed && self.cruise_control_active && !self.params.is_empty() {
            let payload = override_payload(self.params.as_bytes());
            self.messages_sent = count(self.messages_sent);
            Some(Publication { topic: Topic::Parameters, payload })
        } else {
            None
        }
    }

    /// Takes a sample of button B and returns the cruise-control state to
    /// publish, if the sample is a press.
    pub fn on_button_b(&mut self, level: bool) -> (publication: Option<Publication>)
        ensures
            (final(self)@, published(publication)) == old(self)@.after_button_b(level),
    {
        let pressed = self.button_b.sample(level);
        if pressed {
            self.cruise_control_active = !self.cruise_control_active;
            let payload = if self.cruise_control_active {
                slice_to_vec("true".as_bytes())
            } else {
                slice_to_vec("false".as_bytes())
            };
            if self.cruise_control_active {
                self.display.arm("CruiseControl\nEnabled");
            } else {
                self.display.arm("CruiseControl\nDisabled");
            }
            self.messages_sent = count(self.messages_sent);
            Some(Publication { topic: Topic::CruiseControl, payload })
        } else {
            None
        }
    }

    /// Refreshes the display: returns the operations that draw this round's
    /// frame and counts the round against an armed message.
    pub fn refresh_display(&mut self) -> (ops: Vec<DisplayOp<'static>>)
        ensures
            ops@ == frame_ops(old(self).display.frame()),
            final(self)@ == old(self)@.after_refresh(),
    {
        let elements = self.display.refresh();
        render_multiple_text(elements.as_slice())
    }
}

/// Tells whether `topic` is the parameters topic.
pub fn is_parameters_topic(topic: &str) -> (same: bool)
    ensures
        same == (topic@ == "vehicle/parameters"@),
{
    same_text(topic, "vehicle/parameters")
}

/// Button B pressed, released and pressed again, from a released button:
/// the cruise-control flag is back where it was, each press publishes on the
/// cruise-control topic, the first the flipped flag and the second the flag
/// as it was at the start, the release publishes nothing, and the two
/// payloads differ.
pub proof fn lemma_two_presses_restore_cruise_control(start: NetworkModel)
    requires
        start.button_b.last_level,
    ensures
        ({
            let (pressed, first) = start.after_button_b(false);
            let (released, between) = pressed.after_button_b(true);
            let (again, second) = released.after_button_b(false);
            &&& pressed.cruise_control_active == !start.cruise_control_active
            &&& again.cruise_control_active == start.cruise_control_active
            &&& first == Some((Topic::CruiseControl, cruise_payload(!start.cruise_control_active)))
            &&& between is None
            &&& second == Some((Topic::CruiseControl, cruise_payload(start.cruise_control_active)))
            &&& first != second
        }),
{
    reveal_strlit("true");
    reveal_strlit("false");
    vstd::string::is_ascii_spec_bytes("true");
    vstd::string::is_ascii_spec_bytes("false");
    assert(cruise_payload(true).len() == 4);
    assert(cruise_payload(false).len() == 5);
}

/// After a press of button B the message that announces the new
/// cruise-control state is visible at each of the next
/// `MESSAGE_DISPLAY_DURATION` refreshes and at none after them.
pub proof fn lemma_toggle_message_shows_for_duration(start: NetworkModel, n: nat)
    requires
        start.button_b.last_level,
    ensures
        start.after_button_b(false).0.display == DisplayMessageState::armed(
            cruise_banner(!start.cruise_control_active),
        ),
        start.after_button_b(false).0.display.after_refreshes(n).visible() <==> n
            < MESSAGE_DISPLAY_DURATION,
{
    reveal_strlit("CruiseControl\nEnabled");
    reveal_strlit("CruiseControl\nDisabled");
    lemma_message_visible_for_duration(cruise_banner(!start.cruise_control_active), n);
}

/// Neither diagnostic counter ever goes down, whatever the loop does next.
pub proof fn lemma_counters_never_decrease(
    state: NetworkModel,
    accepted: bool,
    topic: Seq<char>,
    payload: Seq<u8>,
    level: bool,
)
    ensures
        state.messages_received <= state.after_message(topic, payload).messages_received,
        state.messages_sent <= state.after_button_a(level).0.messages_sent,
        state.messages_sent <= state.after_button_b(level).0.messages_sent,
        state.messages_sent == state.after_message(topic, payload).messages_sent,
        state.messages_received == state.after_button_a(level).0.messages_received,
        state.messages_received == state.after_button_b(level).0.messages_received,
        state.messages_received == state.after_subscription(accepted).messages_received,
        state.messages_sent == state.after_subscription(accepted).messages_sent,
        state.messages_received == state.after_refresh().messages_received,
        state.messages_sent == state.after_refresh().messages_sent,
{
}

/// Where the start-up sequence of the network task stands.
#[derive(Clone, Copy, Debug, PartialEq, Eq, Structural)]
pub enum StartupPhase {
    /// Nothing was done yet.
    Boot,
    /// The network connection is being established.
    ConnectingNetwork,
    /// The protocol configuration is being built.
    ConfiguringBroker,
    /// The clock is being started and the transport session opened.
    OpeningTransport,
    /// The network-up signal is being published.
    Announcing,
    /// The task waits for the connection to settle.
    Settling,
    /// The sequence is through: the control loop runs.
    Running,
    /// A step failed: the task has stopped for good.
    Halted,
}

/// What the start-up sequence asks for next.
#[derive(Clone, Copy, Debug, PartialEq, Eq, Structural)]
pub enum StartupAction {
    /// Connect to the network with the built-in credentials.
    ConnectNetwork,
    /// Build the protocol configuration for the built-in broker.
    ConfigureBroker,
    /// Start the clock and open the transport session.
    OpenTransport,
    /// Publish the network-up signal.
    AnnounceNetworkUp,
    /// Sleep for this many milliseconds.
    Settle(u64),
    /// Enter the control loop.
    RunLoop,
    /// Stop the task.
    Halt,
}

/// One step of the start-up sequence: the phase it leads to, the text to put
/// on the display first, if any, and what to do then.
#[derive(Clone, Copy, Debug, PartialEq, Eq)]
pub struct StartupDirective {
    pub phase: StartupPhase,
    pub banner: Option<&'static str>,
    pub action: StartupAction,
}

/// The step that follows `phase`, given whether the action that `phase`
/// stands for succeeded. The steps run in a fixed order. The failure of any
/// of them halts the task; where the network, the configuration or the
/// transport failed, a diagnostic is shown first.
pub open spec fn startup_next(phase: StartupPhase, succeeded: bool) -> StartupDirective {
    let halt = |banner: Option<&'static str>|
        StartupDirective { phase: StartupPhase::Halted, banner, action: StartupAction::Halt };
    match phase {
        StartupPhase::Boot => StartupDirective {
            phase: StartupPhase::ConnectingNetwork,
            banner: Some("Connecting \nto network..."),
            action: StartupAction::ConnectNetwork,
        },
        StartupPhase::ConnectingNetwork => if succeeded {
            StartupDirective {
                phase: StartupPhase::ConfiguringBroker,
                banner: Some("Connecting \nto MQTT broker..."),
                action: StartupAction::ConfigureBroker,
            }
        } else {
            halt(Some("TCP connect failed!"))
        },
        StartupPhase::ConfiguringBroker => if succeeded {
            StartupDirective {
                phase: StartupPhase::OpeningTransport,
                banner: None,
                action: StartupAction::OpenTransport,
            }
        } else {
            halt(Some("MQTT config failed!"))
        },
        StartupPhase::OpeningTransport => if succeeded {
            StartupDirective {
                phase: StartupPhase::Announcing,
                banner: None,
                action: StartupAction::AnnounceNetworkUp,
            }
        } else {
            halt(Some("MQTT transport failed!"))
        },
        StartupPhase::Announcing => if succeeded {
            StartupDirective {
                phase: StartupPhase::Settling,
                banner: Some("Connected"),
                action: StartupAction::Settle(SETTLE_DELAY_MS),
            }
        } else {
            halt(None)
        },
        StartupPhase::Settling => if succeeded {
            StartupDirective {
                phase: StartupPhase::Running,
                banner: None,
                action: StartupAction::RunLoop,
            }
        } else {
            halt(None)
        },
        StartupPhase::Running => StartupDirective {
            phase: StartupPhase::Running,
            banner: None,
            action: StartupAction::RunLoop,
        },
        StartupPhase::Halted => halt(None),
    }
}

/// Computes the step that follows `phase`.
pub fn startup_step(phase: StartupPhase, succeeded: bool) -> (directive: StartupDirective)
    ensures
        directive == startup_next(phase, succeeded),
{
    let (next, banner, action) = match (phase, succeeded) {
        (StartupPhase::Boot, _) => (
            StartupPhase::ConnectingNetwork,
            Some("Connecting \nto network..."),
            StartupAction::ConnectNetwork,
        ),
        (StartupPhase::ConnectingNetwork, true) => (
            StartupPhase::ConfiguringBroker,
            Some("Connecting \nto MQTT broker..."),
            StartupAction::ConfigureBroker,
        ),
        (StartupPhase::ConnectingNetwork, false) => (
            StartupPhase::Halted,
            Some("TCP connect failed!"),
            StartupAction::Halt,
        ),
        (StartupPhase::ConfiguringBroker, true) => (
            StartupPhase::OpeningTransport,
            None,
            StartupAction::OpenTransport,
        ),
        (StartupPhase::ConfiguringBroker, false) => (
            StartupPhase::Halted,
            Some("MQTT config failed!"),
            StartupAction::Halt,
        ),
        (StartupPhase::OpeningTransport, true) => (
            StartupPhase::Announcing,
            None,
            StartupAction::AnnounceNetworkUp,
        ),
        (StartupPhase::OpeningTransport, false) => (
            StartupPhase::Halted,
            Some("MQTT transport failed!"),
            StartupAction::Halt,
        ),
        (StartupPhase::Announcing, true) => (
            StartupPhase::Settling,
            Some("Connected"),
            StartupAction::Settle(SETTLE_DELAY_MS),
        ),
        (StartupPhase::Settling, true) => (StartupPhase::Running, None, StartupAction::RunLoop),
        (StartupPhase::Running, _) => (StartupPhase::Running, None, StartupAction::RunLoop),
        _ => (StartupPhase::Halted, None, StartupAction::Halt),
    };
    StartupDirective { phase: next, banner, action }
}

/// The control loop is entered only after the network-up signal was
/// published, and the signal is published only after the network, the
/// configuration and the transport all succeeded: from any phase but the
/// last two, a failed step halts the task, and a halted task stays halted.
pub proof fn lemma_startup_halts_on_failure(phase: StartupPhase, succeeded: bool)
    ensures
        startup_next(phase, succeeded).action == StartupAction::RunLoop ==> (phase
            == StartupPhase::Settling && succeeded) || phase == StartupPhase::Running,
        startup_next(phase, succeeded).action == StartupAction::AnnounceNetworkUp ==> phase
            == StartupPhase::OpeningTransport && succeeded,
        !succeeded && phase != StartupPhase::Boot && phase != StartupPhase::Running
            ==> startup_next(phase, succeeded).phase == StartupPhase::Halted,
        startup_next(StartupPhase::Halted, succeeded).phase == StartupPhase::Halted,
{
}

} // verus!
