//! Bus arbiter: mutual exclusion over the one shared hardware bus.
//!
//! Two sensor sessions share one physical bus; each multi-step transaction
//! (set a parameter, trigger, read back) must run under an exclusive guard,
//! released before any unrelated suspension point. The arbiter makes no
//! fairness promise among waiters: with two low-frequency periodic users
//! that is an accepted limitation, not fixed here.
//!
//! The executable arbiter hands out a linear `BusGuard`: it cannot be copied,
//! and `release` consumes it, so a caller cannot hold a transaction open with
//! a stale guard. On top of that, a ghost model of two sessions contending
//! under an arbitrary schedule carries the proof that no interleaving ever
//! leaves two guards live at once.

use vstd::prelude::*;

verus! {

/// Witness of exclusive bus access; not copyable, surrendered on release.
pub struct BusGuard {
    granted: bool,
}

/// The arbiter itself: whether a guard is currently outstanding.
pub struct BusArbiter {
    held: bool,
}

impl BusArbiter {
    /// Whether a guard is currently live.
    pub closed spec fn is_held(&self) -> bool {
        self.held
    }

    /// A fresh arbiter with no guard outstanding.
    pub fn new() -> (a: BusArbiter)
        ensures
            !a.is_held(),
    {
        BusArbiter { held: false }
    }

    /// One acquisition attempt: grants a guard exactly when none is live.
    /// In the running system a refused caller suspends and retries at its
    /// next scheduling; here the refusal is the explicit `None`.
    pub fn try_acquire(&mut self) -> (g: Option<BusGuard>)
        ensures
            g is Some <==> !old(self).is_held(),
            final(self).is_held(),
    {
        if self.held {
            None
        } else {
            self.held = true;
            Some(BusGuard { granted: true })
        }
    }

    /// Ends the transaction: consumes the guard and frees the bus.
    pub fn release(&mut self, guard: BusGuard)
        requires
            old(self).is_held(),
        ensures
            !final(self).is_held(),
    {
        let BusGuard { granted: _ } = guard;
        self.held = false;
    }
}

/// One contending session's position in its acquire/release cycle.
pub enum SessionPhase {
    /// Between transactions; its next step is to request the bus.
    Idle,
    /// Requesting; its next step succeeds only if the bus is free.
    Waiting,
    /// Holding the guard; its next step releases.
    Holding,
}

/// The ghost model of the arbiter with its two sensor sessions.
pub struct ArbiterModel {
    pub bus_held: bool,
    pub first: SessionPhase,
    pub second: SessionPhase,
}

/// Boot state: bus free, both sessions between transactions.
pub open spec fn arbiter_boot() -> ArbiterModel {
    ArbiterModel { bus_held: false, first: SessionPhase::Idle, second: SessionPhase::Idle }
}

/// One session's move: request when idle, acquire when waiting and the bus
/// is free (keep waiting otherwise), release when holding.
pub open spec fn session_move(phase: SessionPhase, bus_held: bool) -> (SessionPhase, bool) {
    match phase {
        SessionPhase::Idle => (SessionPhase::Waiting, bus_held),
        SessionPhase::Waiting => {
            if bus_held {
                (SessionPhase::Waiting, bus_held)
            } else {
                (SessionPhase::Holding, true)
            }
        },
        SessionPhase::Holding => (SessionPhase::Idle, false),
    }
}

/// One scheduler step: the chosen session moves, the other stands still.
/// Between suspension points a task runs atomically, so an arbitrary
/// interleaving is exactly an arbitrary sequence of these choices.
pub open spec fn arbiter_step(m: ArbiterModel, second_moves: bool) -> ArbiterModel {
    if second_moves {
        let (phase, bus_held) = session_move(m.second, m.bus_held);
        ArbiterModel { bus_held, first: m.first, second: phase }
    } else {
        let (phase, bus_held) = session_move(m.first, m.bus_held);
        ArbiterModel { bus_held, first: phase, second: m.second }
    }
}

/// The model after a whole schedule has run, one choice per step.
pub open spec fn arbiter_run(m: ArbiterModel, schedule: Seq<bool>) -> ArbiterModel
    decreases schedule.len(),
{
    if schedule.len() == 0 {
        m
    } else {
        arbiter_run(arbiter_step(m, schedule.first()), schedule.drop_first())
    }
}

/// No two guards live at once.
pub open spec fn mutual_exclusion(m: ArbiterModel) -> bool {
    !(m.first is Holding && m.second is Holding)
}

/// The inductive invariant: the bus is marked held exactly when some session
/// holds it, and never both.
pub open spec fn arbiter_inv(m: ArbiterModel) -> bool {
    &&& m.bus_held <==> (m.first is Holding || m.second is Holding)
    &&& mutual_exclusion(m)
}

proof fn lemma_arbiter_step_preserves_inv(m: ArbiterModel, second_moves: bool)
    requires
        arbiter_inv(m),
    ensures
        arbiter_inv(arbiter_step(m, second_moves)),
{
}

proof fn lemma_arbiter_run_preserves_inv(m: ArbiterModel, schedule: Seq<bool>)
    requires
        arbiter_inv(m),
    ensures
        arbiter_inv(arbiter_run(m, schedule)),
    decreases schedule.len(),
{
    if schedule.len() > 0 {
        lemma_arbiter_step_preserves_inv(m, schedule.first());
        lemma_arbiter_run_preserves_inv(arbiter_step(m, schedule.first()), schedule.drop_first());
    }
}

/// Mutual exclusion: under any interleaving of the two sessions' acquire and
/// release sequences — any schedule of moves from boot — no two guards are
/// ever simultaneously live.
pub proof fn lemma_mutual_exclusion(schedule: Seq<bool>)
    ensures
        mutual_exclusion(arbiter_run(arbiter_boot(), schedule)),
{
    lemma_arbiter_run_preserves_inv(arbiter_boot(), schedule);
}

} // verus!
