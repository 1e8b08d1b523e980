use air::channel::Channel;
use air::measurement::{Bme680Measurement, PressureHpa, Scd41Measurement};
use air::uplink::{
    topic_for, DialStage, SampleMessage, SessionStage, UplinkAction, UplinkEvent, UplinkState,
    UplinkTask,
};

fn co2_sample() -> SampleMessage {
    SampleMessage::Scd41(Scd41Measurement {
        co2: 640,
        temperature_centi_c: 2153,
        humidity_centi_pct: 4500,
    })
}

fn env_sample() -> SampleMessage {
    SampleMessage::Bme680(Bme680Measurement {
        temperature_centi_c: 1998,
        humidity_centi_pct: 5342,
        pressure: PressureHpa::Finite(101325),
        gas_resistance_centi_ohm: None,
    })
}

/// Walks a fresh uplink to an established session.
fn established(capacity: usize) -> UplinkTask {
    let mut t = UplinkTask::new(capacity);
    t.on_event(UplinkEvent::RetryDelayElapsed);
    t.on_event(UplinkEvent::ResolveSucceeded);
    t.on_event(UplinkEvent::TransportOpened);
    t.on_event(UplinkEvent::HandshakeSucceeded);
    t
}

#[test]
fn boot_waits_the_retry_delay_first() {
    let t = UplinkTask::new(512);
    assert_eq!(t.boot_action(), UplinkAction::StartRetryDelay);
}

#[test]
fn dialing_resolves_then_opens_then_handshakes() {
    let mut t = UplinkTask::new(512);
    assert_eq!(
        t.on_event(UplinkEvent::RetryDelayElapsed),
        UplinkAction::ResolveBrokerAddress
    );
    assert_eq!(
        t.on_event(UplinkEvent::ResolveSucceeded),
        UplinkAction::OpenTransport
    );
    assert_eq!(
        t.on_event(UplinkEvent::TransportOpened),
        UplinkAction::StartHandshake
    );
    assert_eq!(
        t.on_event(UplinkEvent::HandshakeSucceeded),
        UplinkAction::RaceChannels
    );
    assert_eq!(
        t.current_state(),
        UplinkState::Session {
            stage: SessionStage::Racing
        }
    );
}

#[test]
fn resolution_failure_returns_to_the_delay() {
    let mut t = UplinkTask::new(512);
    t.on_event(UplinkEvent::RetryDelayElapsed);
    assert_eq!(
        t.on_event(UplinkEvent::ResolveFailed),
        UplinkAction::StartRetryDelay
    );
    assert_eq!(
        t.current_state(),
        UplinkState::Disconnected {
            stage: DialStage::Waiting
        }
    );
}

#[test]
fn connect_failure_returns_to_the_delay() {
    let mut t = UplinkTask::new(512);
    t.on_event(UplinkEvent::RetryDelayElapsed);
    t.on_event(UplinkEvent::ResolveSucceeded);
    assert_eq!(
        t.on_event(UplinkEvent::TransportFailed),
        UplinkAction::StartRetryDelay
    );
    assert_eq!(
        t.current_state(),
        UplinkState::Disconnected {
            stage: DialStage::Waiting
        }
    );
}

#[test]
fn network_classified_handshake_error_retries_immediately() {
    let mut t = UplinkTask::new(512);
    t.on_event(UplinkEvent::RetryDelayElapsed);
    t.on_event(UplinkEvent::ResolveSucceeded);
    t.on_event(UplinkEvent::TransportOpened);
    assert_eq!(
        t.on_event(UplinkEvent::HandshakeNetworkError),
        UplinkAction::StartHandshake
    );
    assert_eq!(t.current_state(), UplinkState::Connecting);
}

#[test]
fn other_handshake_errors_redial_after_the_delay() {
    let mut t = UplinkTask::new(512);
    t.on_event(UplinkEvent::RetryDelayElapsed);
    t.on_event(UplinkEvent::ResolveSucceeded);
    t.on_event(UplinkEvent::TransportOpened);
    assert_eq!(
        t.on_event(UplinkEvent::HandshakeRejected),
        UplinkAction::StartRetryDelay
    );
    assert_eq!(
        t.current_state(),
        UplinkState::Disconnected {
            stage: DialStage::Waiting
        }
    );
}

#[test]
fn race_timeout_re_races() {
    let mut t = established(512);
    assert_eq!(t.on_event(UplinkEvent::RaceTimedOut), UplinkAction::RaceChannels);
    assert_eq!(
        t.current_state(),
        UplinkState::Session {
            stage: SessionStage::Racing
        }
    );
}

#[test]
fn a_delivered_sample_is_published_under_its_topic() {
    let mut t = established(512);
    let a = t.on_event(UplinkEvent::SampleReady {
        message: co2_sample(),
    });
    match a {
        UplinkAction::PublishPayload { topic, payload } => {
            assert_eq!(topic, "air/scd41");
            assert_eq!(
                String::from_utf8(payload).unwrap(),
                "{\"co2\":640,\"temperature\":21.53,\"humidity\":45.00}"
            );
        }
        other => panic!("expected a publish, got {:?}", other),
    }
    assert_eq!(
        t.current_state(),
        UplinkState::Session {
            stage: SessionStage::Publishing
        }
    );
}

#[test]
fn environmental_samples_use_the_environment_topic() {
    let mut t = established(512);
    let a = t.on_event(UplinkEvent::SampleReady {
        message: env_sample(),
    });
    match a {
        UplinkAction::PublishPayload { topic, .. } => assert_eq!(topic, "air/bme680"),
        other => panic!("expected a publish, got {:?}", other),
    }
    assert_eq!(topic_for(&env_sample()), "air/bme680");
    assert_eq!(topic_for(&co2_sample()), "air/scd41");
}

#[test]
fn publish_success_continues_the_session() {
    let mut t = established(512);
    t.on_event(UplinkEvent::SampleReady {
        message: co2_sample(),
    });
    assert_eq!(
        t.on_event(UplinkEvent::PublishSucceeded),
        UplinkAction::RaceChannels
    );
    assert_eq!(
        t.current_state(),
        UplinkState::Session {
            stage: SessionStage::Racing
        }
    );
}

#[test]
fn no_matching_subscribers_is_non_fatal() {
    let mut t = established(512);
    t.on_event(UplinkEvent::SampleReady {
        message: co2_sample(),
    });
    assert_eq!(
        t.on_event(UplinkEvent::PublishNoSubscribers),
        UplinkAction::RaceChannels
    );
    assert_eq!(
        t.current_state(),
        UplinkState::Session {
            stage: SessionStage::Racing
        }
    );
}

#[test]
fn any_other_publish_error_abandons_the_session() {
    let mut t = established(512);
    t.on_event(UplinkEvent::SampleReady {
        message: co2_sample(),
    });
    assert_eq!(
        t.on_event(UplinkEvent::PublishRejected),
        UplinkAction::StartRetryDelay
    );
    assert_eq!(
        t.current_state(),
        UplinkState::Disconnected {
            stage: DialStage::Waiting
        }
    );
}

#[test]
fn an_oversized_sample_is_dropped_and_the_next_one_still_publishes() {
    // The CO2 payload above is 48 bytes; a 45-byte buffer rejects it.
    let mut t = established(45);
    assert_eq!(
        t.on_event(UplinkEvent::SampleReady {
            message: co2_sample(),
        }),
        UplinkAction::RaceChannels
    );
    // The session is undisturbed and keeps racing.
    assert_eq!(
        t.current_state(),
        UplinkState::Session {
            stage: SessionStage::Racing
        }
    );
    // A small enough sample on the next cycle (44 bytes) publishes normally.
    let small = SampleMessage::Scd41(Scd41Measurement {
        co2: 1,
        temperature_centi_c: 0,
        humidity_centi_pct: 0,
    });
    match t.on_event(UplinkEvent::SampleReady { message: small }) {
        UplinkAction::PublishPayload { payload, .. } => {
            assert!(payload.len() <= 45);
            assert_eq!(
                String::from_utf8(payload).unwrap(),
                "{\"co2\":1,\"temperature\":0.00,\"humidity\":0.00}"
            );
        }
        other => panic!("expected a publish, got {:?}", other),
    }
}

#[test]
fn a_value_published_while_disconnected_is_relayed_fresh_after_reconnect() {
    // The sensor keeps publishing while the uplink is down; after the
    // reconnect the first race delivers the latest value only, and that is
    // what goes out.
    let mut ch: Channel<u16> = Channel::new();
    let mut reader = ch.add_reader().unwrap();
    let mut t = established(512);
    t.on_event(UplinkEvent::SampleReady {
        message: co2_sample(),
    });
    ch.publish(601);
    assert_eq!(ch.poll_change(&mut reader), Some(601));

    // The broker rejects the publish: session abandoned.
    t.on_event(UplinkEvent::PublishRejected);

    // Two samples arrive while the uplink redials.
    ch.publish(640);
    ch.publish(655);

    t.on_event(UplinkEvent::RetryDelayElapsed);
    t.on_event(UplinkEvent::ResolveSucceeded);
    t.on_event(UplinkEvent::TransportOpened);
    t.on_event(UplinkEvent::HandshakeSucceeded);

    // The re-established race reads the channel: only the latest value.
    let fresh = ch.poll_change(&mut reader);
    assert_eq!(fresh, Some(655));
    let message = SampleMessage::Scd41(Scd41Measurement {
        co2: fresh.unwrap(),
        temperature_centi_c: 2100,
        humidity_centi_pct: 4000,
    });
    match t.on_event(UplinkEvent::SampleReady { message }) {
        UplinkAction::PublishPayload { payload, .. } => {
            assert_eq!(
                String::from_utf8(payload).unwrap(),
                "{\"co2\":655,\"temperature\":21.00,\"humidity\":40.00}"
            );
        }
        other => panic!("expected a publish, got {:?}", other),
    }
}
