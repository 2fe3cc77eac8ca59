//! The control loop of the network task as a state machine: each step takes
//! the outcome of the operation that was asked for last and names the next
//! one, so that one round locks the display, looks after the subscription,
//! takes delivered messages, polls the transport, samples both buttons,
//! draws the frame and sleeps, in that order.

use vstd::prelude::*;
use crate::display::{frame_ops, DisplayOp};
use crate::network::{NetworkModel, NetworkTask, Publication, Topic, LOOP_PERIOD_MS};

verus! {

/// Where in its round the control loop stands: the operation that it waits
/// for.
#[derive(Clone, Copy, Debug, PartialEq, Eq, Structural)]
pub enum LoopPhase {
    Locking,
    Connecting,
    Subscribing,
    Delivering,
    Polling,
    SamplingA,
    PublishingA,
    SamplingB,
    PublishingB,
    Drawing,
    Sleeping,
}

/// The outcome of an operation that the control loop asked for.
#[derive(Clone, Copy, Debug, PartialEq, Eq, Structural)]
pub enum LoopEvent {
    /// The display lock is held; the flag tells whether there is a display.
    Locked(bool),
    /// The transport is connected, or it is not.
    Connection(bool),
    /// The transport accepted the subscription, or it did not.
    Subscribed(bool),
    /// Every delivered message was handed to the task.
    Delivered,
    /// The transport was polled.
    Polled,
    /// The level of the button that was sampled; nothing where the board
    /// has no such button.
    Level(Option<bool>),
    /// The publication was handed to the transport, whether or not the
    /// transport took it.
    Published,
    /// The frame was drawn.
    Drawn,
    /// The sleep is over and the display lock released.
    Woke,
}

/// The operation that the control loop asks for next.
#[derive(Clone, Debug, PartialEq, Eq)]
pub enum LoopAction {
    /// Acquire the display lock, waiting for as long as it takes.
    LockDisplay,
    /// Ask the transport whether it is connected.
    CheckConnection,
    /// Ask the transport to subscribe to the topic.
    Subscribe(Topic),
    /// Poll the transport for messages and hand each one to the task.
    DeliverMessages,
    /// Poll the transport once more, to keep the protocol going.
    PollTransport,
    /// Read the level of button A.
    SampleButtonA,
    /// Read the level of button B.
    SampleButtonB,
    /// Publish the message if the transport is connected.
    Publish(Publication),
    /// Carry out the display operations.
    Draw(Vec<DisplayOp<'static>>),
    /// Sleep for this many milliseconds, then release the display lock.
    Sleep(u64),
}

/// An operation as plain values.
pub enum LoopActionModel {
    LockDisplay,
    CheckConnection,
    Subscribe(Topic),
    DeliverMessages,
    PollTransport,
    SampleButtonA,
    SampleButtonB,
    Publish(Topic, Seq<u8>),
    Draw(Seq<DisplayOp<'static>>),
    Sleep(u64),
}

impl View for LoopAction {
    type V = LoopActionModel;

    open spec fn view(&self) -> LoopActionModel {
        match self {
            LoopAction::LockDisplay => LoopActionModel::LockDisplay,
            LoopAction::CheckConnection => LoopActionModel::CheckConnection,
            LoopAction::Subscribe(topic) => LoopActionModel::Subscribe(*topic),
            LoopAction::DeliverMessages => LoopActionModel::DeliverMessages,
            LoopAction::PollTransport => LoopActionModel::PollTransport,
            LoopAction::SampleButtonA => LoopActionModel::SampleButtonA,
            LoopAction::SampleButtonB => LoopActionModel::SampleButtonB,
            LoopAction::Publish(p) => LoopActionModel::Publish(p.topic, p.payload@),
            LoopAction::Draw(ops) => LoopActionModel::Draw(ops@),
            LoopAction::Sleep(millis) => LoopActionModel::Sleep(*millis),
        }
    }
}

/// The control loop as plain values.
pub struct ControlModel {
    pub task: NetworkModel,
    pub phase: LoopPhase,
}

impl ControlModel {
    /// The step into the drawing phase: the frame of this round is drawn and
    /// the round counted against an armed message.
    pub open spec fn draw(task: NetworkModel) -> (ControlModel, LoopActionModel) {
        (
            ControlModel { task: task.after_refresh(), phase: LoopPhase::Drawing },
            LoopActionModel::Draw(frame_ops(task.display.frame())),
        )
    }

    /// The step after a button was sampled: what the sample publishes is
    /// published first; without a publication the loop goes straight on.
    pub open spec fn publish_or(
        task: NetworkModel,
        publication: Option<(Topic, Seq<u8>)>,
        publishing: LoopPhase,
        otherwise: (ControlModel, LoopActionModel),
    ) -> (ControlModel, LoopActionModel) {
        match publication {
            Some((topic, payload)) => (
                ControlModel { task, phase: publishing },
                LoopActionModel::Publish(topic, payload),
            ),
            None => otherwise,
        }
    }

    /// One step of the control loop. An outcome that does not answer the
    /// operation asked for last gives the round up: the loop sleeps and
    /// starts over, or asks for the lock again where it does not hold it.
    pub open spec fn stepped(self, event: LoopEvent) -> (ControlModel, LoopActionModel) {
        let task = self.task;
        let to = |phase: LoopPhase, action: LoopActionModel| (ControlModel { task, phase }, action);
        let poll = to(LoopPhase::Polling, LoopActionModel::PollTransport);
        let deliver = to(LoopPhase::Delivering, LoopActionModel::DeliverMessages);
        let sample_b = to(LoopPhase::SamplingB, LoopActionModel::SampleButtonB);
        match (self.phase, event) {
            (LoopPhase::Locking, LoopEvent::Locked(present)) => if present {
                to(LoopPhase::Connecting, LoopActionModel::CheckConnection)
            } else {
                poll
            },
            (LoopPhase::Connecting, LoopEvent::Connection(connected)) => if task.wants_subscription(
                connected,
            ) {
                to(LoopPhase::Subscribing, LoopActionModel::Subscribe(Topic::Parameters))
            } else if connected {
                deliver
            } else {
                poll
            },
            (LoopPhase::Subscribing, LoopEvent::Subscribed(accepted)) => (
                ControlModel {
                    task: task.after_subscription(accepted),
                    phase: LoopPhase::Delivering,
                },
                LoopActionModel::DeliverMessages,
            ),
            (LoopPhase::Delivering, LoopEvent::Delivered) => poll,
            (LoopPhase::Polling, LoopEvent::Polled) => to(
                LoopPhase::SamplingA,
                LoopActionModel::SampleButtonA,
            ),
            (LoopPhase::SamplingA, LoopEvent::Level(Some(level))) => Self::publish_or(
                task.after_button_a(level).0,
                task.after_button_a(level).1,
                LoopPhase::PublishingA,
                (
                    ControlModel {
                        task: task.after_button_a(level).0,
                        phase: LoopPhase::SamplingB,
                    },
                    LoopActionModel::SampleButtonB,
                ),
            ),
            (LoopPhase::SamplingA, LoopEvent::Level(None)) => sample_b,
            (LoopPhase::PublishingA, LoopEvent::Published) => sample_b,
            (LoopPhase::SamplingB, LoopEvent::Level(Some(level))) => Self::publish_or(
                task.after_button_b(level).0,
                task.after_button_b(level).1,
                LoopPhase::PublishingB,
                Self::draw(task.after_button_b(level).0),
            ),
            (LoopPhase::SamplingB, LoopEvent::Level(None)) => Self::draw(task),
            (LoopPhase::PublishingB, LoopEvent::Published) => Self::draw(task),
            (LoopPhase::Drawing, LoopEvent::Drawn) => to(
                LoopPhase::Sleeping,
                LoopActionModel::Sleep(LOOP_PERIOD_MS),
            ),
            (LoopPhase::Sleeping, LoopEvent::Woke) => to(
                LoopPhase::Locking,
                LoopActionModel::LockDisplay,
            ),
            (LoopPhase::Locking, _) => to(LoopPhase::Locking, LoopActionModel::LockDisplay),
            _ => to(LoopPhase::Sleeping, LoopActionModel::Sleep(LOOP_PERIOD_MS)),
        }
    }

    /// The loop holds the display lock: it does so from the moment the lock
    /// was acquired until the sleep at the end of the round is over.
    pub open spec fn holds_lock(self) -> bool {
        self.phase != LoopPhase::Locking
    }
}

/// The control loop of the network task.
pub struct ControlLoop {
    pub task: NetworkTask,
    pub phase: LoopPhase,
}

impl View for ControlLoop {
    type V = ControlModel;

    open spec fn view(&self) -> ControlModel {
        ControlModel { task: self.task@, phase: self.phase }
    }
}

impl ControlLoop {
    /// The loop before its first round, and the first operation it asks for.
    pub fn start() -> (start: (ControlLoop, LoopAction))
        ensures
            start.0@ == (ControlModel { task: NetworkModel::initial(), phase: LoopPhase::Locking }),
            start.1@ == LoopActionModel::LockDisplay,
    {
        (ControlLoop { task: NetworkTask::new(), phase: LoopPhase::Locking }, LoopAction::LockDisplay)
    }

    /// Takes a message that the transport delivered; see
    /// `NetworkTask::on_message`.
    pub fn on_message(&mut self, topic: &str, payload: &[u8]) -> (taken: bool)
        ensures
            taken == (topic@ == "vehicle/parameters"@),
            final(self)@ == (ControlModel {
                task: old(self)@.task.after_message(topic@, payload@),
                phase: old(self).phase,
            }),
    {
        self.task.on_message(topic, payload)
    }

    /// Enters the drawing phase.
    fn draw(&mut self) -> (action: LoopAction)
        ensures
            (final(self)@, action@) == ControlModel::draw(old(self)@.task),
    {
        self.phase = LoopPhase::Drawing;
        LoopAction::Draw(self.task.refresh_display())
    }

    /// Enters `phase` and asks for `action`.
    fn enter(&mut self, phase: LoopPhase, action: LoopAction) -> (asked: LoopAction)
        ensures
            final(self)@ == (ControlModel { task: old(self)@.task, phase }),
            asked == action,
    {
        self.phase = phase;
        action
    }

    /// Takes the outcome of the operation asked for last and returns the
    /// next operation.
    pub fn next(&mut self, event: LoopEvent) -> (action: LoopAction)
        ensures
            (final(self)@, action@) == old(self)@.stepped(event),
    {
        match (self.phase, event) {
            (LoopPhase::Locking, LoopEvent::Locked(true)) => self.enter(
                LoopPhase::Connecting,
                LoopAction::CheckConnection,
            ),
            (LoopPhase::Locking, LoopEvent::Locked(false)) => self.enter(
                LoopPhase::Polling,
                LoopAction::PollTransport,
            ),
            (LoopPhase::Connecting, LoopEvent::Connection(connected)) => {
                if self.task.wants_subscription(connected) {
                    self.enter(LoopPhase::Subscribing, LoopAction::Subscribe(Topic::Parameters))
                } else if connected {
                    self.enter(LoopPhase::Delivering, LoopAction::DeliverMessages)
                } else {
                    self.enter(LoopPhase::Polling, LoopAction::PollTransport)
                }
            },
            (LoopPhase::Subscribing, LoopEvent::Subscribed(accepted)) => {
                self.task.subscription_result(accepted);
                self.enter(LoopPhase::Delivering, LoopAction::DeliverMessages)
            },
            (LoopPhase::Delivering, LoopEvent::Delivered) => self.enter(
                LoopPhase::Polling,
                LoopAction::PollTransport,
            ),
            (LoopPhase::Polling, LoopEvent::Polled) => self.enter(
                LoopPhase::SamplingA,
                LoopAction::SampleButtonA,
            ),
            (LoopPhase::SamplingA, LoopEvent::Level(Some(level))) => {
                match self.task.on_button_a(level) {
                    Some(publication) => self.enter(
                        LoopPhase::PublishingA,
                        LoopAction::Publish(publication),
                    ),
                    None => self.enter(LoopPhase::SamplingB, LoopAction::SampleButtonB),
                }
            },
            (LoopPhase::SamplingA, LoopEvent::Level(None)) => self.enter(
                LoopPhase::SamplingB,
                LoopAction::SampleButtonB,
            ),
            (LoopPhase::PublishingA, LoopEvent::Published) => self.enter(
                LoopPhase::SamplingB,
                LoopAction::SampleButtonB,
            ),
            (LoopPhase::SamplingB, LoopEvent::Level(Some(level))) => {
                match self.task.on_button_b(level) {
                    Some(publication) => self.enter(
                        LoopPhase::PublishingB,
                        LoopAction::Publish(publication),
                    ),
                    None => self.draw(),
                }
            },
            (LoopPhase::SamplingB, LoopEvent::Level(None)) => self.draw(),
            (LoopPhase::PublishingB, LoopEvent::Published) => self.draw(),
            (LoopPhase::Drawing, LoopEvent::Drawn) => self.enter(
                LoopPhase::Sleeping,
                LoopAction::Sleep(LOOP_PERIOD_MS),
            ),
            (LoopPhase::Sleeping, LoopEvent::Woke) => self.enter(
                LoopPhase::Locking,
                LoopAction::LockDisplay,
            ),
            (LoopPhase::Locking, _) => self.enter(LoopPhase::Locking, LoopAction::LockDisplay),
            _ => self.enter(LoopPhase::Sleeping, LoopAction::Sleep(LOOP_PERIOD_MS)),
        }
    }
}

/// The display lock spans the round. The loop comes to hold the lock only by
/// acquiring it and gives it up only when the sleep at the end of a round is
/// over; it asks for the lock exactly while it does not hold it; and
/// whatever else it asks for, a frame to be drawn included, it asks for
/// while holding the lock.
pub proof fn lemma_lock_spans_the_round(state: ControlModel, event: LoopEvent)
    ensures
        !state.holds_lock() && state.stepped(event).0.holds_lock() ==> event is Locked,
        state.holds_lock() && !state.stepped(event).0.holds_lock() ==> state.phase
            == LoopPhase::Sleeping && event == LoopEvent::Woke,
        state.stepped(event).1 is LockDisplay <==> !state.stepped(event).0.holds_lock(),
        state.stepped(event).1 is Draw ==> state.holds_lock(),
{
}

} // verus!
