//! Uplink task: the reconnecting broker session.
//!
//! The uplink consumes the sensors' channels through a timeout-bounded race
//! and relays each delivered measurement to the broker with at-least-once
//! intent. Its life is a cycle of three states: while `Disconnected` it
//! waits a fixed delay, resolves the broker's address and opens a transport
//! connection; while `Connecting` it performs the application-level
//! handshake, retrying immediately on a transport-classified error and
//! falling back to `Disconnected` on any other; once the session is
//! established it races the channels, serializes each delivered sample and
//! publishes it. A publish result is classified: success and "no matching
//! subscriber" keep the session, anything else abandons it and forces a
//! reconnect. A sample whose payload exceeds the configured buffer capacity
//! is dropped whole — never fragmented, never retried — and the session goes
//! on undisturbed.

use vstd::prelude::*;

use crate::channel::fresh_value;
use crate::channel::lemma_missed_publishes_deliver_latest;
use crate::json::bme680_serializable;
use crate::json::json_bme680;
use crate::json::json_scd41;
use crate::json::scd41_serializable;
use crate::json::serialize_bme680;
use crate::json::serialize_scd41;
use crate::measurement::Bme680Measurement;
use crate::measurement::Scd41Measurement;

verus! {

/// One measurement delivered by the channel race, tagged by its sensor.
#[derive(Clone, Copy, Debug, PartialEq, Eq, Structural)]
pub enum SampleMessage {
    Scd41(Scd41Measurement),
    Bme680(Bme680Measurement),
}

/// The serialized payload a sample publishes.
pub open spec fn json_message(msg: SampleMessage) -> Seq<u8> {
    match msg {
        SampleMessage::Scd41(m) => json_scd41(m),
        SampleMessage::Bme680(m) => json_bme680(m),
    }
}

/// Whether every fixed-point field of the sample is writable.
pub open spec fn message_serializable(msg: SampleMessage) -> bool {
    match msg {
        SampleMessage::Scd41(m) => scd41_serializable(m),
        SampleMessage::Bme680(m) => bme680_serializable(m),
    }
}

/// The topic a sample is published under, derived from its sensor.
pub open spec fn topic_spec(msg: SampleMessage) -> Seq<char> {
    match msg {
        SampleMessage::Scd41(_) => "air/scd41"@,
        SampleMessage::Bme680(_) => "air/bme680"@,
    }
}

/// The topic for one sample.
pub fn topic_for(msg: &SampleMessage) -> (t: &'static str)
    ensures
        t@ == topic_spec(*msg),
{
    match msg {
        SampleMessage::Scd41(_) => "air/scd41",
        SampleMessage::Bme680(_) => "air/bme680",
    }
}

/// Where a disconnected uplink stands in its dial sequence.
#[derive(Clone, Copy, Debug, PartialEq, Eq, Structural)]
pub enum DialStage {
    /// The fixed retry delay is in flight.
    Waiting,
    /// The broker-address lookup is in flight.
    Resolving,
    /// The transport connect is in flight.
    Opening,
}

/// Where an established session stands within one publish cycle.
#[derive(Clone, Copy, Debug, PartialEq, Eq, Structural)]
pub enum SessionStage {
    /// The timeout-bounded race over the channels is in flight.
    Racing,
    /// A publish is in flight.
    Publishing,
}

/// The uplink's state.
#[derive(Clone, Copy, Debug, PartialEq, Eq, Structural)]
pub enum UplinkState {
    /// No transport; dialing from scratch.
    Disconnected { stage: DialStage },
    /// Transport open; the application-level handshake is in flight.
    Connecting,
    /// Session established; relaying samples.
    Session { stage: SessionStage },
}

/// What the network reports back to the machine.
#[derive(Clone, Copy, Debug, PartialEq, Eq, Structural)]
pub enum UplinkEvent {
    /// The fixed retry delay elapsed.
    RetryDelayElapsed,
    /// The address lookup delivered an address.
    ResolveSucceeded,
    /// The address lookup failed.
    ResolveFailed,
    /// The transport connection is open.
    TransportOpened,
    /// The transport connection failed.
    TransportFailed,
    /// The handshake concluded; the session is up.
    HandshakeSucceeded,
    /// The handshake failed with a transport-classified error.
    HandshakeNetworkError,
    /// The handshake failed with any other error.
    HandshakeRejected,
    /// The channel race hit its fixed timeout with no sample.
    RaceTimedOut,
    /// The channel race delivered a sample.
    SampleReady { message: SampleMessage },
    /// The publish was acknowledged.
    PublishSucceeded,
    /// The broker reported no matching subscriber (its condition, not ours).
    PublishNoSubscribers,
    /// The publish failed with any other protocol or transport error.
    PublishRejected,
}

/// What the machine asks the network task to do next.
#[derive(Clone, Debug, PartialEq, Eq)]
pub enum UplinkAction {
    /// Start the fixed retry delay.
    StartRetryDelay,
    /// Resolve the broker's address.
    ResolveBrokerAddress,
    /// Open the transport connection to the resolved address.
    OpenTransport,
    /// Perform the application-level handshake.
    StartHandshake,
    /// Race the channels, bounded by the fixed timeout.
    RaceChannels,
    /// Publish this payload under this topic with at-least-once intent.
    PublishPayload { topic: &'static str, payload: Vec<u8> },
}

/// Whether this event can be the outcome of the work the machine last asked
/// for in this state.
pub open spec fn uplink_event_fits(st: UplinkState, ev: UplinkEvent) -> bool {
    match st {
        UplinkState::Disconnected { stage } => match stage {
            DialStage::Waiting => ev is RetryDelayElapsed,
            DialStage::Resolving => ev is ResolveSucceeded || ev is ResolveFailed,
            DialStage::Opening => ev is TransportOpened || ev is TransportFailed,
        },
        UplinkState::Connecting => ev is HandshakeSucceeded || ev is HandshakeNetworkError
            || ev is HandshakeRejected,
        UplinkState::Session { stage } => match stage {
            SessionStage::Racing => ev is RaceTimedOut || ev is SampleReady,
            SessionStage::Publishing => ev is PublishSucceeded || ev is PublishNoSubscribers
                || ev is PublishRejected,
        },
    }
}

/// The state after one event: dial failures circle back to the delay, a
/// transport-classified handshake error retries the handshake at once, any
/// other handshake error redials; in session, a timeout re-races, a fitting
/// sample moves to publishing, an oversized one is dropped and re-races, and
/// a publish outcome either continues the session or abandons it.
pub open spec fn uplink_next(cap: nat, st: UplinkState, ev: UplinkEvent) -> UplinkState {
    match (st, ev) {
        (UplinkState::Disconnected { stage: DialStage::Waiting }, UplinkEvent::RetryDelayElapsed) => {
            UplinkState::Disconnected { stage: DialStage::Resolving }
        },
        (UplinkState::Disconnected { stage: DialStage::Resolving }, UplinkEvent::ResolveSucceeded) => {
            UplinkState::Disconnected { stage: DialStage::Opening }
        },
        (UplinkState::Disconnected { stage: DialStage::Resolving }, UplinkEvent::ResolveFailed) => {
            UplinkState::Disconnected { stage: DialStage::Waiting }
        },
        (UplinkState::Disconnected { stage: DialStage::Opening }, UplinkEvent::TransportOpened) => {
            UplinkState::Connecting
        },
        (UplinkState::Disconnected { stage: DialStage::Opening }, UplinkEvent::TransportFailed) => {
            UplinkState::Disconnected { stage: DialStage::Waiting }
        },
        (UplinkState::Connecting, UplinkEvent::HandshakeSucceeded) => UplinkState::Session {
            stage: SessionStage::Racing,
        },
        (UplinkState::Connecting, UplinkEvent::HandshakeNetworkError) => UplinkState::Connecting,
        (UplinkState::Connecting, UplinkEvent::HandshakeRejected) => UplinkState::Disconnected {
            stage: DialStage::Waiting,
        },
        (UplinkState::Session { stage: SessionStage::Racing }, UplinkEvent::RaceTimedOut) => {
            UplinkState::Session { stage: SessionStage::Racing }
        },
        (UplinkState::Session { stage: SessionStage::Racing }, UplinkEvent::SampleReady { message }) => {
            if json_message(message).len() <= cap {
                UplinkState::Session { stage: SessionStage::Publishing }
            } else {
                UplinkState::Session { stage: SessionStage::Racing }
            }
        },
        (UplinkState::Session { stage: SessionStage::Publishing }, UplinkEvent::PublishSucceeded) => {
            UplinkState::Session { stage: SessionStage::Racing }
        },
        (
            UplinkState::Session { stage: SessionStage::Publishing },
            UplinkEvent::PublishNoSubscribers,
        ) => UplinkState::Session { stage: SessionStage::Racing },
        (UplinkState::Session { stage: SessionStage::Publishing }, UplinkEvent::PublishRejected) => {
            UplinkState::Disconnected { stage: DialStage::Waiting }
        },
        _ => st,
    }
}

/// The work the machine asks for after any event other than a delivered
/// sample (a sample's action carries the serialized payload, which only the
/// executable step can build).
pub open spec fn uplink_plain_action(st: UplinkState, ev: UplinkEvent) -> UplinkAction {
    match (st, ev) {
        (UplinkState::Disconnected { stage: DialStage::Waiting }, UplinkEvent::RetryDelayElapsed) => {
            UplinkAction::ResolveBrokerAddress
        },
        (UplinkState::Disconnected { stage: DialStage::Resolving }, UplinkEvent::ResolveSucceeded) => {
            UplinkAction::OpenTransport
        },
        (UplinkState::Disconnected { stage: DialStage::Resolving }, UplinkEvent::ResolveFailed) => {
            UplinkAction::StartRetryDelay
        },
        (UplinkState::Disconnected { stage: DialStage::Opening }, UplinkEvent::TransportOpened) => {
            UplinkAction::StartHandshake
        },
        (UplinkState::Disconnected { stage: DialStage::Opening }, UplinkEvent::TransportFailed) => {
            UplinkAction::StartRetryDelay
        },
        (UplinkState::Connecting, UplinkEvent::HandshakeSucceeded) => UplinkAction::RaceChannels,
        (UplinkState::Connecting, UplinkEvent::HandshakeNetworkError) => UplinkAction::StartHandshake,
        (UplinkState::Connecting, UplinkEvent::HandshakeRejected) => UplinkAction::StartRetryDelay,
        (UplinkState::Session { stage: SessionStage::Racing }, UplinkEvent::RaceTimedOut) => {
            UplinkAction::RaceChannels
        },
        (UplinkState::Session { stage: SessionStage::Publishing }, UplinkEvent::PublishSucceeded) => {
            UplinkAction::RaceChannels
        },
        (
            UplinkState::Session { stage: SessionStage::Publishing },
            UplinkEvent::PublishNoSubscribers,
        ) => UplinkAction::RaceChannels,
        (UplinkState::Session { stage: SessionStage::Publishing }, UplinkEvent::PublishRejected) => {
            UplinkAction::StartRetryDelay
        },
        _ => UplinkAction::RaceChannels,
    }
}

/// Whether this state and event are a session race delivering a sample.
pub open spec fn delivers_sample(st: UplinkState, ev: UplinkEvent) -> bool {
    (st matches UplinkState::Session { stage: SessionStage::Racing }) && (ev matches
        UplinkEvent::SampleReady { .. })
}

/// What a correct reaction to a delivered sample is: a publish of exactly
/// the sample's payload under its topic when the payload fits the buffer, a
/// plain re-race — the sample dropped, not retried — when it does not.
pub open spec fn sample_action_ok(cap: nat, ev: UplinkEvent, a: UplinkAction) -> bool {
    match ev {
        UplinkEvent::SampleReady { message } => {
            if json_message(message).len() <= cap {
                a matches UplinkAction::PublishPayload { topic, payload } && topic@ == topic_spec(
                    message,
                ) && payload@ == json_message(message)
            } else {
                a == UplinkAction::RaceChannels
            }
        },
        _ => false,
    }
}

/// The uplink machine: its configured payload buffer capacity and its state.
pub struct UplinkTask {
    capacity: usize,
    state: UplinkState,
}

impl UplinkTask {
    /// The configured payload buffer capacity, in bytes.
    pub closed spec fn capacity(&self) -> nat {
        self.capacity as nat
    }

    /// The state the machine is currently in.
    pub closed spec fn state(&self) -> UplinkState {
        self.state
    }

    /// The state the machine is currently in, readably.
    pub fn current_state(&self) -> (st: UplinkState)
        ensures
            st == self.state(),
    {
        self.state
    }

    /// A fresh uplink: disconnected, about to wait its first retry delay.
    pub fn new(capacity: usize) -> (t: UplinkTask)
        ensures
            t.capacity() == capacity,
            t.state() == (UplinkState::Disconnected { stage: DialStage::Waiting }),
    {
        UplinkTask { capacity, state: UplinkState::Disconnected { stage: DialStage::Waiting } }
    }

    /// The action that starts a freshly created uplink: its first retry
    /// delay.
    pub fn boot_action(&self) -> (a: UplinkAction)
        requires
            self.state() == (UplinkState::Disconnected { stage: DialStage::Waiting }),
        ensures
            a == UplinkAction::StartRetryDelay,
    {
        UplinkAction::StartRetryDelay
    }

    /// Feeds one network outcome back into the machine. The state moves as
    /// `uplink_next` says; the returned action is `uplink_plain_action`,
    /// except that a delivered sample is serialized here and either handed
    /// out as a publish or dropped as `sample_action_ok` says.
    pub fn on_event(&mut self, ev: UplinkEvent) -> (a: UplinkAction)
        requires
            uplink_event_fits(old(self).state(), ev),
            ev matches UplinkEvent::SampleReady { message } ==> message_serializable(message),
        ensures
            final(self).capacity() == old(self).capacity(),
            final(self).state() == uplink_next(old(self).capacity(), old(self).state(), ev),
            !delivers_sample(old(self).state(), ev) ==> a == uplink_plain_action(
                old(self).state(),
                ev,
            ),
            delivers_sample(old(self).state(), ev) ==> sample_action_ok(
                old(self).capacity(),
                ev,
                a,
            ),
    {
        match (self.state, ev) {
            (
                UplinkState::Disconnected { stage: DialStage::Waiting },
                UplinkEvent::RetryDelayElapsed,
            ) => {
                self.state = UplinkState::Disconnected { stage: DialStage::Resolving };
                UplinkAction::ResolveBrokerAddress
            },
            (
                UplinkState::Disconnected { stage: DialStage::Resolving },
                UplinkEvent::ResolveSucceeded,
            ) => {
                self.state = UplinkState::Disconnected { stage: DialStage::Opening };
                UplinkAction::OpenTransport
            },
            (
                UplinkState::Disconnected { stage: DialStage::Resolving },
                UplinkEvent::ResolveFailed,
            ) => {
                self.state = UplinkState::Disconnected { stage: DialStage::Waiting };
                UplinkAction::StartRetryDelay
            },
            (
                UplinkState::Disconnected { stage: DialStage::Opening },
                UplinkEvent::TransportOpened,
            ) => {
                self.state = UplinkState::Connecting;
                UplinkAction::StartHandshake
            },
            (
                UplinkState::Disconnected { stage: DialStage::Opening },
                UplinkEvent::TransportFailed,
            ) => {
                self.state = UplinkState::Disconnected { stage: DialStage::Waiting };
                UplinkAction::StartRetryDelay
            },
            (UplinkState::Connecting, UplinkEvent::HandshakeSucceeded) => {
                self.state = UplinkState::Session { stage: SessionStage::Racing };
                UplinkAction::RaceChannels
            },
            (UplinkState::Connecting, UplinkEvent::HandshakeNetworkError) => {
                UplinkAction::StartHandshake
            },
            (UplinkState::Connecting, UplinkEvent::HandshakeRejected) => {
                self.state = UplinkState::Disconnected { stage: DialStage::Waiting };
                UplinkAction::StartRetryDelay
            },
            (UplinkState::Session { stage: SessionStage::Racing }, UplinkEvent::RaceTimedOut) => {
                UplinkAction::RaceChannels
            },
            (
                UplinkState::Session { stage: SessionStage::Racing },
                UplinkEvent::SampleReady { message },
            ) => {
                let payload = match &message {
                    SampleMessage::Scd41(m) => serialize_scd41(m),
                    SampleMessage::Bme680(m) => serialize_bme680(m),
                };
                if payload.len() <= self.capacity {
                    self.state = UplinkState::Session { stage: SessionStage::Publishing };
                    let topic = topic_for(&message);
                    UplinkAction::PublishPayload { topic, payload }
                } else {
                    UplinkAction::RaceChannels
                }
            },
            (
                UplinkState::Session { stage: SessionStage::Publishing },
                UplinkEvent::PublishSucceeded,
            ) => {
                self.state = UplinkState::Session { stage: SessionStage::Racing };
                UplinkAction::RaceChannels
            },
            (
                UplinkState::Session { stage: SessionStage::Publishing },
                UplinkEvent::PublishNoSubscribers,
            ) => {
                self.state = UplinkState::Session { stage: SessionStage::Racing };
                UplinkAction::RaceChannels
            },
            (
                UplinkState::Session { stage: SessionStage::Publishing },
                UplinkEvent::PublishRejected,
            ) => {
                self.state = UplinkState::Disconnected { stage: DialStage::Waiting };
                UplinkAction::StartRetryDelay
            },
            _ => UplinkAction::RaceChannels,
        }
    }
}

/// The uplink never terminates: whatever a fitting event does to the
/// machine, the resulting state is still waiting for some outcome — there is
/// no state without a next step.
pub proof fn lemma_uplink_always_has_work(cap: nat, st: UplinkState, ev: UplinkEvent)
    requires
        uplink_event_fits(st, ev),
    ensures
        uplink_event_fits(uplink_next(cap, st, ev), UplinkEvent::RetryDelayElapsed)
            || uplink_event_fits(uplink_next(cap, st, ev), UplinkEvent::ResolveSucceeded)
            || uplink_event_fits(uplink_next(cap, st, ev), UplinkEvent::TransportOpened)
            || uplink_event_fits(uplink_next(cap, st, ev), UplinkEvent::HandshakeSucceeded)
            || uplink_event_fits(uplink_next(cap, st, ev), UplinkEvent::RaceTimedOut)
            || uplink_event_fits(uplink_next(cap, st, ev), UplinkEvent::PublishSucceeded),
{
}

/// Uplink freshness: when a channel was updated while the uplink was away,
/// the first race after the reconnect delivers the latest of the missed
/// samples — never a pre-disconnect one — and a correct reaction to it
/// publishes exactly that sample's payload under that sample's topic.
pub proof fn lemma_reconnect_publishes_latest(
    cap: nat,
    history: Seq<SampleMessage>,
    missed: Seq<SampleMessage>,
    cursor: nat,
    a: UplinkAction,
)
    requires
        cursor <= history.len(),
        missed.len() > 0,
        json_message(missed.last()).len() <= cap,
        sample_action_ok(
            cap,
            UplinkEvent::SampleReady { message: (history + missed).last() },
            a,
        ),
    ensures
        fresh_value(history + missed, cursor) == Some(missed.last()),
        a matches UplinkAction::PublishPayload { topic, payload } && topic@ == topic_spec(
            missed.last(),
        ) && payload@ == json_message(missed.last()),
{
    lemma_missed_publishes_deliver_latest(history, missed, cursor);
    assert((history + missed).last() == missed.last());
}

/// Overflow isolation: a sample whose payload exceeds the buffer capacity is
/// dropped and the session keeps racing, so the next cycle's fitting sample
/// is published exactly as if the oversized one had never arrived.
pub proof fn lemma_overflow_isolated(cap: nat, oversized: SampleMessage, fitting: SampleMessage)
    requires
        json_message(oversized).len() > cap,
        json_message(fitting).len() <= cap,
    ensures
        uplink_next(
            cap,
            UplinkState::Session { stage: SessionStage::Racing },
            UplinkEvent::SampleReady { message: oversized },
        ) == (UplinkState::Session { stage: SessionStage::Racing }),
        uplink_next(
            cap,
            UplinkState::Session { stage: SessionStage::Racing },
            UplinkEvent::SampleReady { message: fitting },
        ) == (UplinkState::Session { stage: SessionStage::Publishing }),
{
}

} // verus!
