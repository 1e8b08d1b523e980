//! Sensor supervisor: init, periodic sampling, crash-only restart.
//!
//! One supervisor owns one sensor session. It walks a fixed sequence of
//! fallible handshake steps (stop any in-flight mode, read identification,
//! start continuous sampling — each an opaque bus transaction; a best-effort
//! unacknowledged wake-up may precede them and is the driving task's
//! business, since it cannot fail), then samples on a fixed period: it may first pull the other sensor's
//! latest pressure and apply it as compensation, then fetches a measurement
//! and publishes it. Any failing transaction moves the machine to `Failed`
//! with the failing step recorded; after a fixed backoff it restarts the
//! full handshake from the beginning, discarding all partial state. The
//! machine has no terminal state: it retries forever.
//!
//! Both sensor kinds run this one machine; they differ only in the length of
//! their handshake sequence, in whether a cycle applies compensation, and in
//! the measurement type that flows through (the type parameter `M`). The
//! task driving the loop performs each returned action — a bus transaction,
//! a timer wait, a publish — and feeds the outcome back as the next event.

use vstd::prelude::*;

use crate::calibration::compensation_spec;
use crate::calibration::validate_compensation;
use crate::measurement::PressureHpa;

verus! {

/// What distinguishes one sensor's supervisor from the other's.
#[derive(Clone, Copy, Debug, PartialEq, Eq, Structural)]
pub struct SensorConfig {
    /// How many handshake steps the sensor's init sequence has.
    pub handshake_len: usize,
    /// Whether a sampling cycle applies the cross-sensor compensation
    /// transaction before fetching.
    pub uses_compensation: bool,
}

/// Which transaction a session died on, kept for diagnostics.
#[derive(Clone, Copy, Debug, PartialEq, Eq, Structural)]
pub enum FailureKind {
    /// A handshake step failed; which one.
    Handshake { step: usize },
    /// The compensation-set transaction failed.
    Compensation,
    /// The measurement fetch failed.
    Measurement,
}

/// Where a running session stands within one sampling cycle.
#[derive(Clone, Copy, Debug, PartialEq, Eq, Structural)]
pub enum CycleStage {
    /// Between cycles, waiting for the next period tick.
    AwaitingTick,
    /// The compensation-set transaction is in flight.
    SettingCompensation,
    /// The measurement fetch is in flight.
    Fetching,
}

/// The supervisor's state: initializing, running, or failed and backing off.
#[derive(Clone, Copy, Debug, PartialEq, Eq, Structural)]
pub enum SensorState {
    /// The handshake step `next_step` is in flight.
    Init { next_step: usize },
    /// Handshake done; sampling periodically.
    Running { stage: CycleStage },
    /// A transaction failed; the backoff delay is in flight.
    Failed { reason: FailureKind },
}

/// What the outside world reports back to the machine.
#[derive(Clone, Copy, Debug, PartialEq, Eq, Structural)]
pub enum SensorEvent<M> {
    /// The handshake step in flight completed.
    StepCompleted,
    /// The handshake step in flight failed.
    StepFailed,
    /// The sampling period elapsed; carries the other sensor's latest
    /// pressure, pulled without waiting, or `None` if it never published.
    Tick { compensation: Option<PressureHpa> },
    /// The compensation-set transaction completed.
    CompensationApplied,
    /// The compensation-set transaction failed.
    CompensationFailed,
    /// The measurement fetch delivered a value.
    Fetched { measurement: M },
    /// The measurement fetch failed.
    FetchFailed,
    /// The backoff delay elapsed.
    BackoffElapsed,
}

/// What the machine asks the outside world to do next.
#[derive(Clone, Copy, Debug, PartialEq, Eq, Structural)]
pub enum SensorAction<M> {
    /// Issue handshake step `step` as one exclusive bus transaction.
    IssueHandshakeStep { step: usize },
    /// Wait for the next period tick, then pull the compensation input.
    AwaitTick,
    /// Issue the compensation-set transaction with this value, in whole hPa.
    ApplyCompensation { hpa: u16 },
    /// Issue the measurement-fetch transaction.
    FetchMeasurement,
    /// Publish this measurement to the sensor's channel (which never fails),
    /// then wait for the next period tick.
    PublishAndAwaitTick { measurement: M },
    /// Start the fixed restart backoff delay.
    StartBackoff,
}

/// A meaningful configuration has at least one handshake step.
pub open spec fn config_wf(cfg: SensorConfig) -> bool {
    cfg.handshake_len > 0
}

/// A state the machine can actually be in under this configuration.
pub open spec fn state_wf(cfg: SensorConfig, st: SensorState) -> bool {
    match st {
        SensorState::Init { next_step } => next_step < cfg.handshake_len,
        SensorState::Running { stage } => cfg.uses_compensation || !(stage is SettingCompensation),
        SensorState::Failed { reason } => match reason {
            FailureKind::Handshake { step } => step < cfg.handshake_len,
            FailureKind::Compensation => cfg.uses_compensation,
            FailureKind::Measurement => true,
        },
    }
}

/// The state a restarted or just-created session begins in.
pub open spec fn boot_state() -> SensorState {
    SensorState::Init { next_step: 0 }
}

/// Whether this event can be the outcome of the work the machine last asked
/// for in this state.
pub open spec fn event_fits<M>(st: SensorState, ev: SensorEvent<M>) -> bool {
    match st {
        SensorState::Init { .. } => ev is StepCompleted || ev is StepFailed,
        SensorState::Running { stage } => match stage {
            CycleStage::AwaitingTick => ev is Tick,
            CycleStage::SettingCompensation => ev is CompensationApplied || ev is CompensationFailed,
            CycleStage::Fetching => ev is Fetched || ev is FetchFailed,
        },
        SensorState::Failed { .. } => ev is BackoffElapsed,
    }
}

/// The state after one event.
pub open spec fn sensor_next<M>(cfg: SensorConfig, st: SensorState, ev: SensorEvent<M>) -> SensorState {
    match (st, ev) {
        (SensorState::Init { next_step }, SensorEvent::StepCompleted) => {
            if next_step + 1 < cfg.handshake_len {
                SensorState::Init { next_step: (next_step + 1) as usize }
            } else {
                SensorState::Running { stage: CycleStage::AwaitingTick }
            }
        },
        (SensorState::Init { next_step }, SensorEvent::StepFailed) => SensorState::Failed {
            reason: FailureKind::Handshake { step: next_step },
        },
        (SensorState::Running { stage: CycleStage::AwaitingTick }, SensorEvent::Tick { .. }) => {
            if cfg.uses_compensation {
                SensorState::Running { stage: CycleStage::SettingCompensation }
            } else {
                SensorState::Running { stage: CycleStage::Fetching }
            }
        },
        (
            SensorState::Running { stage: CycleStage::SettingCompensation },
            SensorEvent::CompensationApplied,
        ) => SensorState::Running { stage: CycleStage::Fetching },
        (
            SensorState::Running { stage: CycleStage::SettingCompensation },
            SensorEvent::CompensationFailed,
        ) => SensorState::Failed { reason: FailureKind::Compensation },
        (SensorState::Running { stage: CycleStage::Fetching }, SensorEvent::Fetched { .. }) => {
            SensorState::Running { stage: CycleStage::AwaitingTick }
        },
        (SensorState::Running { stage: CycleStage::Fetching }, SensorEvent::FetchFailed) => {
            SensorState::Failed { reason: FailureKind::Measurement }
        },
        (SensorState::Failed { .. }, SensorEvent::BackoffElapsed) => boot_state(),
        _ => st,
    }
}

/// The work the machine asks for after one event.
pub open spec fn sensor_action<M>(cfg: SensorConfig, st: SensorState, ev: SensorEvent<M>) -> SensorAction<M> {
    match (st, ev) {
        (SensorState::Init { next_step }, SensorEvent::StepCompleted) => {
            if next_step + 1 < cfg.handshake_len {
                SensorAction::IssueHandshakeStep { step: (next_step + 1) as usize }
            } else {
                SensorAction::AwaitTick
            }
        },
        (SensorState::Init { .. }, SensorEvent::StepFailed) => SensorAction::StartBackoff,
        (
            SensorState::Running { stage: CycleStage::AwaitingTick },
            SensorEvent::Tick { compensation },
        ) => {
            if cfg.uses_compensation {
                SensorAction::ApplyCompensation { hpa: compensation_spec(compensation) as u16 }
            } else {
                SensorAction::FetchMeasurement
            }
        },
        (
            SensorState::Running { stage: CycleStage::SettingCompensation },
            SensorEvent::CompensationApplied,
        ) => SensorAction::FetchMeasurement,
        (
            SensorState::Running { stage: CycleStage::SettingCompensation },
            SensorEvent::CompensationFailed,
        ) => SensorAction::StartBackoff,
        (
            SensorState::Running { stage: CycleStage::Fetching },
            SensorEvent::Fetched { measurement },
        ) => SensorAction::PublishAndAwaitTick { measurement },
        (SensorState::Running { stage: CycleStage::Fetching }, SensorEvent::FetchFailed) => {
            SensorAction::StartBackoff
        },
        (SensorState::Failed { .. }, SensorEvent::BackoffElapsed) => SensorAction::IssueHandshakeStep {
            step: 0,
        },
        _ => SensorAction::AwaitTick,
    }
}

/// One sensor supervisor: its fixed configuration and its current state.
pub struct SensorSupervisor {
    config: SensorConfig,
    state: SensorState,
}

impl SensorSupervisor {
    /// The fixed configuration this supervisor was created with.
    pub closed spec fn config(&self) -> SensorConfig {
        self.config
    }

    /// The state the machine is currently in.
    pub closed spec fn state(&self) -> SensorState {
        self.state
    }

    /// The configuration is meaningful and the state is one the machine can
    /// actually reach under it.
    pub open spec fn wf(&self) -> bool {
        config_wf(self.config()) && state_wf(self.config(), self.state())
    }

    /// The state the machine is currently in, readably.
    pub fn current_state(&self) -> (st: SensorState)
        ensures
            st == self.state(),
    {
        self.state
    }

    /// A supervisor about to issue the first handshake step.
    pub fn new(handshake_len: usize, uses_compensation: bool) -> (s: SensorSupervisor)
        requires
            handshake_len > 0,
        ensures
            s.wf(),
            s.config() == (SensorConfig { handshake_len, uses_compensation }),
            s.state() == boot_state(),
    {
        SensorSupervisor {
            config: SensorConfig { handshake_len, uses_compensation },
            state: SensorState::Init { next_step: 0 },
        }
    }

    /// The action that starts a freshly created session: issuing the first
    /// handshake step.
    pub fn boot_action<M>(&self) -> (a: SensorAction<M>)
        requires
            self.state() == boot_state(),
        ensures
            a == (SensorAction::<M>::IssueHandshakeStep { step: 0 }),
    {
        SensorAction::IssueHandshakeStep { step: 0 }
    }

    /// Feeds one outcome back into the machine: the state moves as
    /// `sensor_next` says and the returned action is what `sensor_action`
    /// says, including the validated compensation value on a period tick.
    pub fn on_event<M: Copy>(&mut self, ev: SensorEvent<M>) -> (a: SensorAction<M>)
        requires
            old(self).wf(),
            event_fits(old(self).state(), ev),
        ensures
            final(self).wf(),
            final(self).config() == old(self).config(),
            final(self).state() == sensor_next(old(self).config(), old(self).state(), ev),
            a == sensor_action(old(self).config(), old(self).state(), ev),
    {
        match (self.state, ev) {
            (SensorState::Init { next_step }, SensorEvent::StepCompleted) => {
                if next_step + 1 < self.config.handshake_len {
                    self.state = SensorState::Init { next_step: next_step + 1 };
                    SensorAction::IssueHandshakeStep { step: next_step + 1 }
                } else {
                    self.state = SensorState::Running { stage: CycleStage::AwaitingTick };
                    SensorAction::AwaitTick
                }
            },
            (SensorState::Init { next_step }, SensorEvent::StepFailed) => {
                self.state = SensorState::Failed {
                    reason: FailureKind::Handshake { step: next_step },
                };
                SensorAction::StartBackoff
            },
            (
                SensorState::Running { stage: CycleStage::AwaitingTick },
                SensorEvent::Tick { compensation },
            ) => {
                if self.config.uses_compensation {
                    self.state = SensorState::Running { stage: CycleStage::SettingCompensation };
                    SensorAction::ApplyCompensation { hpa: validate_compensation(compensation) }
                } else {
                    self.state = SensorState::Running { stage: CycleStage::Fetching };
                    SensorAction::FetchMeasurement
                }
            },
            (
                SensorState::Running { stage: CycleStage::SettingCompensation },
                SensorEvent::CompensationApplied,
            ) => {
                self.state = SensorState::Running { stage: CycleStage::Fetching };
                SensorAction::FetchMeasurement
            },
            (
                SensorState::Running { stage: CycleStage::SettingCompensation },
                SensorEvent::CompensationFailed,
            ) => {
                self.state = SensorState::Failed { reason: FailureKind::Compensation };
                SensorAction::StartBackoff
            },
            (
                SensorState::Running { stage: CycleStage::Fetching },
                SensorEvent::Fetched { measurement },
            ) => {
                self.state = SensorState::Running { stage: CycleStage::AwaitingTick };
                SensorAction::PublishAndAwaitTick { measurement }
            },
            (SensorState::Running { stage: CycleStage::Fetching }, SensorEvent::FetchFailed) => {
                self.state = SensorState::Failed { reason: FailureKind::Measurement };
                SensorAction::StartBackoff
            },
            (SensorState::Failed { .. }, SensorEvent::BackoffElapsed) => {
                self.state = SensorState::Init { next_step: 0 };
                SensorAction::IssueHandshakeStep { step: 0 }
            },
            _ => SensorAction::AwaitTick,
        }
    }
}

/// Any fitting event leaves the machine in a reachable state: there is no
/// way out of the init-run-fail-retry cycle and no terminal state.
pub proof fn lemma_step_preserves_wf<M>(cfg: SensorConfig, st: SensorState, ev: SensorEvent<M>)
    requires
        config_wf(cfg),
        state_wf(cfg, st),
        event_fits(st, ev),
    ensures
        state_wf(cfg, sensor_next(cfg, st, ev)),
{
}

/// The state after a whole sequence of events has been fed in.
pub open spec fn sensor_run<M>(cfg: SensorConfig, st: SensorState, evs: Seq<SensorEvent<M>>) -> SensorState
    decreases evs.len(),
{
    if evs.len() == 0 {
        st
    } else {
        sensor_run(cfg, sensor_next(cfg, st, evs.first()), evs.drop_first())
    }
}

/// Running a concatenation is running the two halves in turn.
proof fn lemma_sensor_run_concat<M>(cfg: SensorConfig, st: SensorState, a: Seq<SensorEvent<M>>, b: Seq<SensorEvent<M>>)
    ensures
        sensor_run(cfg, st, a + b) == sensor_run(cfg, sensor_run(cfg, st, a), b),
    decreases a.len(),
{
    if a.len() == 0 {
        assert(a + b =~= b);
    } else {
        assert((a + b).first() == a.first());
        assert((a + b).drop_first() =~= a.drop_first() + b);
        lemma_sensor_run_concat(cfg, sensor_next(cfg, st, a.first()), a.drop_first(), b);
    }
}

/// Crash-only recovery: whatever transaction a session died on, the elapsed
/// backoff puts the machine at the start of a fresh handshake — no partial
/// state survives, and the next action is the first handshake step.
pub proof fn lemma_crash_only_recovery<M>(cfg: SensorConfig, reason: FailureKind)
    ensures
        sensor_next::<M>(
            cfg,
            SensorState::Failed { reason },
            SensorEvent::BackoffElapsed,
        ) == boot_state(),
        sensor_action::<M>(
            cfg,
            SensorState::Failed { reason },
            SensorEvent::BackoffElapsed,
        ) == (SensorAction::<M>::IssueHandshakeStep { step: 0 }),
{
}

/// One full failed attempt, as the machine sees it: the handshake step in
/// flight fails, then the backoff elapses.
pub open spec fn failed_attempt<M>() -> Seq<SensorEvent<M>> {
    seq![SensorEvent::StepFailed, SensorEvent::BackoffElapsed]
}

/// `n` consecutive failed attempts.
pub open spec fn repeated_failures<M>(n: nat) -> Seq<SensorEvent<M>>
    decreases n,
{
    if n == 0 {
        Seq::empty()
    } else {
        failed_attempt::<M>() + repeated_failures::<M>((n - 1) as nat)
    }
}

/// An attempt that completes `k` handshake steps and dies on the next one:
/// `k` completions, a failure, the backoff.
pub open spec fn partial_attempt<M>(k: nat) -> Seq<SensorEvent<M>> {
    Seq::new(k, |j: int| SensorEvent::StepCompleted) + failed_attempt::<M>()
}

/// `k` successful handshake steps walk the init sequence forward by `k`.
proof fn lemma_completions_reach_step<M>(cfg: SensorConfig, i: nat, k: nat)
    requires
        i + k < cfg.handshake_len,
    ensures
        sensor_run(
            cfg,
            SensorState::Init { next_step: i as usize },
            Seq::new(k, |j: int| SensorEvent::<M>::StepCompleted),
        ) == (SensorState::Init { next_step: (i + k) as usize }),
    decreases k,
{
    let evs = Seq::new(k, |j: int| SensorEvent::<M>::StepCompleted);
    if k > 0 {
        assert(evs.first() == SensorEvent::<M>::StepCompleted);
        assert(evs.drop_first() =~= Seq::new((k - 1) as nat, |j: int| SensorEvent::<M>::StepCompleted));
        assert(sensor_next(cfg, SensorState::Init { next_step: i as usize }, evs.first())
            == (SensorState::Init { next_step: (i + 1) as usize }));
        lemma_completions_reach_step::<M>(cfg, i + 1, (k - 1) as nat);
    }
}

/// A handshake failure at step `i`, followed by the backoff, lands back at
/// the boot state.
proof fn lemma_failed_attempt_from<M>(cfg: SensorConfig, i: nat)
    requires
        i < cfg.handshake_len,
    ensures
        sensor_run(cfg, SensorState::Init { next_step: i as usize }, failed_attempt::<M>())
            == boot_state(),
{
    let evs = failed_attempt::<M>();
    let start = SensorState::Init { next_step: i as usize };
    let down = sensor_next(cfg, start, SensorEvent::<M>::StepFailed);
    assert(evs.first() == SensorEvent::<M>::StepFailed);
    assert(evs.drop_first() =~= seq![SensorEvent::<M>::BackoffElapsed]);
    assert(evs.drop_first().first() == SensorEvent::<M>::BackoffElapsed);
    assert(evs.drop_first().drop_first() =~= Seq::<SensorEvent<M>>::empty());
    assert(sensor_run(cfg, start, evs) == sensor_run(cfg, down, evs.drop_first()));
    assert(sensor_run(cfg, down, evs.drop_first()) == sensor_run(
        cfg,
        sensor_next(cfg, down, SensorEvent::<M>::BackoffElapsed),
        evs.drop_first().drop_first(),
    ));
    assert(sensor_next(cfg, down, SensorEvent::<M>::BackoffElapsed) == boot_state());
}

/// Supervisor resilience, wherever the handshake dies: an attempt that
/// completes any number of steps and fails on the next one stands, after the
/// backoff, at the start of a fresh handshake again.
pub proof fn lemma_failed_attempt_restarts<M>(cfg: SensorConfig, k: nat)
    requires
        config_wf(cfg),
        k < cfg.handshake_len,
    ensures
        sensor_run(cfg, boot_state(), partial_attempt::<M>(k)) == boot_state(),
{
    let completions = Seq::new(k, |j: int| SensorEvent::<M>::StepCompleted);
    lemma_sensor_run_concat(cfg, boot_state(), completions, failed_attempt::<M>());
    lemma_completions_reach_step::<M>(cfg, 0, k);
    lemma_failed_attempt_from::<M>(cfg, k);
}

/// Supervisor resilience: after any number of consecutive initialization
/// failures the machine stands at the start of a fresh handshake again —
/// it retries indefinitely and never terminates. Each failed attempt asks
/// for exactly the fixed backoff and then for the first handshake step.
pub proof fn lemma_supervisor_retries_forever<M>(cfg: SensorConfig, n: nat)
    requires
        config_wf(cfg),
    ensures
        sensor_run(cfg, boot_state(), repeated_failures::<M>(n)) == boot_state(),
        sensor_action::<M>(cfg, boot_state(), SensorEvent::StepFailed) == SensorAction::<M>::StartBackoff,
        sensor_action::<M>(
            cfg,
            sensor_next::<M>(cfg, boot_state(), SensorEvent::StepFailed),
            SensorEvent::BackoffElapsed,
        ) == (SensorAction::<M>::IssueHandshakeStep { step: 0 }),
    decreases n,
{
    if n == 0 {
        assert(repeated_failures::<M>(0) =~= Seq::<SensorEvent<M>>::empty());
    } else {
        lemma_sensor_run_concat(cfg, boot_state(), failed_attempt::<M>(), repeated_failures::<M>((n - 1) as nat));
        lemma_failed_attempt_from::<M>(cfg, 0);
        lemma_supervisor_retries_forever::<M>(cfg, (n - 1) as nat);
    }
}

} // verus!
