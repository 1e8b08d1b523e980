use air::measurement::PressureHpa;
use air::supervisor::{CycleStage, SensorAction, SensorEvent, SensorState, SensorSupervisor};

type Sample = u16;

/// The CO2 sensor's shape: four fallible handshake steps (stop any in-flight
/// mode, read the serial number, read the temperature offset, start periodic
/// measurement) and a compensation transaction each cycle.
fn co2_supervisor() -> SensorSupervisor {
    SensorSupervisor::new(4, true)
}

/// The environmental sensor's shape: one combined initialization step, no
/// compensation.
fn env_supervisor() -> SensorSupervisor {
    SensorSupervisor::new(1, false)
}

#[test]
fn boot_issues_the_first_handshake_step() {
    let s = co2_supervisor();
    assert_eq!(
        s.boot_action::<Sample>(),
        SensorAction::IssueHandshakeStep { step: 0 }
    );
}

#[test]
fn handshake_walks_every_step_then_awaits_the_period() {
    let mut s = co2_supervisor();
    assert_eq!(
        s.on_event::<Sample>(SensorEvent::StepCompleted),
        SensorAction::IssueHandshakeStep { step: 1 }
    );
    assert_eq!(
        s.on_event::<Sample>(SensorEvent::StepCompleted),
        SensorAction::IssueHandshakeStep { step: 2 }
    );
    assert_eq!(
        s.on_event::<Sample>(SensorEvent::StepCompleted),
        SensorAction::IssueHandshakeStep { step: 3 }
    );
    assert_eq!(
        s.on_event::<Sample>(SensorEvent::StepCompleted),
        SensorAction::AwaitTick
    );
}

#[test]
fn a_cycle_applies_validated_compensation_then_fetches_then_publishes() {
    let mut s = co2_supervisor();
    for _ in 0..4 {
        s.on_event::<Sample>(SensorEvent::StepCompleted);
    }
    // The other sensor's latest pressure, 985.13 hPa, arrives with the tick;
    // the machine asks for the compensation transaction with 985 hPa.
    assert_eq!(
        s.on_event::<Sample>(SensorEvent::Tick {
            compensation: Some(PressureHpa::Finite(98513))
        }),
        SensorAction::ApplyCompensation { hpa: 985 }
    );
    assert_eq!(
        s.on_event::<Sample>(SensorEvent::CompensationApplied),
        SensorAction::FetchMeasurement
    );
    assert_eq!(
        s.on_event::<Sample>(SensorEvent::Fetched { measurement: 640 }),
        SensorAction::PublishAndAwaitTick { measurement: 640 }
    );
}

#[test]
fn a_cycle_without_compensation_fetches_directly() {
    let mut s = env_supervisor();
    assert_eq!(
        s.on_event::<Sample>(SensorEvent::StepCompleted),
        SensorAction::AwaitTick
    );
    assert_eq!(
        s.on_event::<Sample>(SensorEvent::Tick { compensation: None }),
        SensorAction::FetchMeasurement
    );
}

#[test]
fn a_tick_without_pressure_data_applies_the_fallback() {
    let mut s = co2_supervisor();
    for _ in 0..4 {
        s.on_event::<Sample>(SensorEvent::StepCompleted);
    }
    assert_eq!(
        s.on_event::<Sample>(SensorEvent::Tick { compensation: None }),
        SensorAction::ApplyCompensation { hpa: 1015 }
    );
}

#[test]
fn a_failed_handshake_step_backs_off_and_restarts_from_scratch() {
    let mut s = co2_supervisor();
    s.on_event::<Sample>(SensorEvent::StepCompleted);
    s.on_event::<Sample>(SensorEvent::StepCompleted);
    // Step 2 fails: back off, then re-run the whole handshake.
    assert_eq!(
        s.on_event::<Sample>(SensorEvent::StepFailed),
        SensorAction::StartBackoff
    );
    assert_eq!(
        s.on_event::<Sample>(SensorEvent::BackoffElapsed),
        SensorAction::IssueHandshakeStep { step: 0 }
    );
}

#[test]
fn repeated_initialization_failures_keep_retrying() {
    let mut s = co2_supervisor();
    for _ in 0..100 {
        assert_eq!(
            s.on_event::<Sample>(SensorEvent::StepFailed),
            SensorAction::StartBackoff
        );
        assert_eq!(
            s.on_event::<Sample>(SensorEvent::BackoffElapsed),
            SensorAction::IssueHandshakeStep { step: 0 }
        );
    }
    assert_eq!(s.current_state(), SensorState::Init { next_step: 0 });
}

#[test]
fn a_failed_compensation_transaction_restarts_the_session() {
    let mut s = co2_supervisor();
    for _ in 0..4 {
        s.on_event::<Sample>(SensorEvent::StepCompleted);
    }
    s.on_event::<Sample>(SensorEvent::Tick { compensation: None });
    assert_eq!(
        s.on_event::<Sample>(SensorEvent::CompensationFailed),
        SensorAction::StartBackoff
    );
    assert_eq!(
        s.on_event::<Sample>(SensorEvent::BackoffElapsed),
        SensorAction::IssueHandshakeStep { step: 0 }
    );
}

#[test]
fn a_failed_fetch_restarts_the_session() {
    let mut s = env_supervisor();
    s.on_event::<Sample>(SensorEvent::StepCompleted);
    s.on_event::<Sample>(SensorEvent::Tick { compensation: None });
    assert_eq!(
        s.on_event::<Sample>(SensorEvent::FetchFailed),
        SensorAction::StartBackoff
    );
    assert_eq!(
        s.on_event::<Sample>(SensorEvent::BackoffElapsed),
        SensorAction::IssueHandshakeStep { step: 0 }
    );
    assert_eq!(s.current_state(), SensorState::Init { next_step: 0 });
}

#[test]
fn a_running_supervisor_cycles_back_to_awaiting_the_period() {
    let mut s = env_supervisor();
    s.on_event::<Sample>(SensorEvent::StepCompleted);
    s.on_event::<Sample>(SensorEvent::Tick { compensation: None });
    s.on_event::<Sample>(SensorEvent::Fetched { measurement: 7 });
    assert_eq!(
        s.current_state(),
        SensorState::Running {
            stage: CycleStage::AwaitingTick
        }
    );
}
