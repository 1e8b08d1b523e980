//! Connectivity supervisor: link-layer association and the readiness gate.
//!
//! The supervisor applies stored credentials, starts the radio and attempts
//! association; on success it sits connected and watches for the disconnect
//! notification, on failure or disconnect it waits a fixed backoff and tries
//! again, forever. Boot consumes a one-shot readiness gate: it proceeds only
//! once the link is up and an address is assigned; after that handoff the
//! supervisor keeps the link alive on its own and is not consulted again —
//! the uplink only ever observes socket-level failures.

use vstd::prelude::*;

verus! {

/// Link-layer connection state.
#[derive(Clone, Copy, Debug, PartialEq, Eq, Structural)]
pub enum LinkState {
    /// No association; the backoff delay before the next attempt is in
    /// flight (a fresh supervisor starts here with a zero backoff).
    Disconnected,
    /// An association attempt is in flight.
    Connecting,
    /// Associated; the watcher awaits the disconnect notification.
    Connected,
}

/// What the radio reports back to the machine.
#[derive(Clone, Copy, Debug, PartialEq, Eq, Structural)]
pub enum LinkEvent {
    /// The backoff delay elapsed; time for the next attempt.
    BackoffElapsed,
    /// The association attempt succeeded.
    AssociationSucceeded,
    /// The association attempt failed.
    AssociationFailed,
    /// The link dropped while connected.
    DisconnectNotified,
}

/// What the machine asks the radio task to do next.
#[derive(Clone, Copy, Debug, PartialEq, Eq, Structural)]
pub enum LinkAction {
    /// Apply the stored credentials, start the radio if it is not running,
    /// and attempt association.
    AttemptAssociation,
    /// Await the disconnect notification.
    WatchForDisconnect,
    /// Start the fixed backoff delay.
    StartBackoff,
}

/// Whether this event can be the outcome of the work the machine last asked
/// for in this state.
pub open spec fn link_event_fits(st: LinkState, ev: LinkEvent) -> bool {
    match st {
        LinkState::Disconnected => ev is BackoffElapsed,
        LinkState::Connecting => ev is AssociationSucceeded || ev is AssociationFailed,
        LinkState::Connected => ev is DisconnectNotified,
    }
}

/// The state after one event.
pub open spec fn link_next(st: LinkState, ev: LinkEvent) -> LinkState {
    match (st, ev) {
        (LinkState::Disconnected, LinkEvent::BackoffElapsed) => LinkState::Connecting,
        (LinkState::Connecting, LinkEvent::AssociationSucceeded) => LinkState::Connected,
        (LinkState::Connecting, LinkEvent::AssociationFailed) => LinkState::Disconnected,
        (LinkState::Connected, LinkEvent::DisconnectNotified) => LinkState::Disconnected,
        _ => st,
    }
}

/// The work the machine asks for after one event.
pub open spec fn link_action(st: LinkState, ev: LinkEvent) -> LinkAction {
    match (st, ev) {
        (LinkState::Disconnected, LinkEvent::BackoffElapsed) => LinkAction::AttemptAssociation,
        (LinkState::Connecting, LinkEvent::AssociationSucceeded) => LinkAction::WatchForDisconnect,
        (LinkState::Connecting, LinkEvent::AssociationFailed) => LinkAction::StartBackoff,
        (LinkState::Connected, LinkEvent::DisconnectNotified) => LinkAction::StartBackoff,
        _ => LinkAction::StartBackoff,
    }
}

/// The connectivity supervisor's machine.
pub struct LinkSupervisor {
    state: LinkState,
}

impl LinkSupervisor {
    /// The state the machine is currently in.
    pub closed spec fn state(&self) -> LinkState {
        self.state
    }

    /// The state the machine is currently in, readably.
    pub fn current_state(&self) -> (st: LinkState)
        ensures
            st == self.state(),
    {
        self.state
    }

    /// A fresh supervisor: not associated, about to make its first attempt
    /// (its initial backoff is zero-length).
    pub fn new() -> (s: LinkSupervisor)
        ensures
            s.state() == LinkState::Disconnected,
    {
        LinkSupervisor { state: LinkState::Disconnected }
    }

    /// Feeds one radio outcome back into the machine.
    pub fn on_event(&mut self, ev: LinkEvent) -> (a: LinkAction)
        requires
            link_event_fits(old(self).state(), ev),
        ensures
            final(self).state() == link_next(old(self).state(), ev),
            a == link_action(old(self).state(), ev),
    {
        match (self.state, ev) {
            (LinkState::Disconnected, LinkEvent::BackoffElapsed) => {
                self.state = LinkState::Connecting;
                LinkAction::AttemptAssociation
            },
            (LinkState::Connecting, LinkEvent::AssociationSucceeded) => {
                self.state = LinkState::Connected;
                LinkAction::WatchForDisconnect
            },
            (LinkState::Connecting, LinkEvent::AssociationFailed) => {
                self.state = LinkState::Disconnected;
                LinkAction::StartBackoff
            },
            (LinkState::Connected, LinkEvent::DisconnectNotified) => {
                self.state = LinkState::Disconnected;
                LinkAction::StartBackoff
            },
            _ => LinkAction::StartBackoff,
        }
    }
}

/// An association failure always leads back to another attempt: the machine
/// has no terminal state, so the supervisor keeps the link alive forever.
pub proof fn lemma_link_always_retries(st: LinkState, ev: LinkEvent)
    requires
        link_event_fits(st, ev),
    ensures
        link_event_fits(link_next(st, ev), LinkEvent::BackoffElapsed) || link_event_fits(
            link_next(st, ev),
            LinkEvent::AssociationSucceeded,
        ) || link_event_fits(link_next(st, ev), LinkEvent::DisconnectNotified),
{
}

/// The boot sequence's one-shot readiness gate: proceed exactly when the
/// link is up and an address has been assigned; keep waiting otherwise.
pub fn gate_ready(link_up: bool, address_assigned: bool) -> (r: bool)
    ensures
        r == (link_up && address_assigned),
{
    link_up && address_assigned
}

/// The network stack's seed, combined from two hardware random words: the
/// first fills the upper half, the second the lower half.
pub fn network_seed(high: u32, low: u32) -> (seed: u64)
    ensures
        seed == high * 0x1_0000_0000u64 + low,
{
    let seed: u64 = ((high as u64) << 32u64) | (low as u64);
    proof {
        let h = high as u64;
        let l = low as u64;
        assert((h << 32u64) | l == h * 0x1_0000_0000 + l) by (bit_vector)
            requires
                h < 0x1_0000_0000,
                l < 0x1_0000_0000,
        ;
    }
    seed
}

} // verus!
