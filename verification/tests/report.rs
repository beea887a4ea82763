use sensor_node::average::Mean;
use sensor_node::report::{
    classify, Action, AttemptOutcome, ConnectFailure, Event, Phase, ADDRESS_POLL_GAP_MS,
    CONNECT_ATTEMPTS, CONNECT_RETRY_GAP_MS, CONNECT_TIMEOUT_MS, ITERATION_GAP_MS, LINK_POLLS,
    LINK_POLL_GAP_MS, SAMPLES_PER_REPORT, SENSOR_TIMEOUT_MS,
};

const VALUE: Mean = Mean { sum: 200, count: 4 };

fn every_event() -> Vec<Event> {
    vec![
        Event::Link(true),
        Event::Link(false),
        Event::Address(true),
        Event::Address(false),
        Event::Elapsed,
        Event::Sample(Some(VALUE)),
        Event::Sample(None),
        Event::Connect(Ok(())),
        Event::Connect(Err(ConnectFailure::TimedOut)),
        Event::Connect(Err(ConnectFailure::ConnectionReset)),
        Event::Connect(Err(ConnectFailure::InvalidState)),
        Event::Connect(Err(ConnectFailure::NoRoute)),
        Event::Written(true),
        Event::Written(false),
        Event::Flushed(true),
        Event::Flushed(false),
        Event::Read(Some(0)),
        Event::Read(Some(17)),
        Event::Read(None),
    ]
}

/// Carries out the cycle from `phase` with scripted events and returns the
/// phases gone through, the first one included.
fn run(phase: Phase, events: &[Event]) -> Vec<Phase> {
    let mut phases = vec![phase];
    let mut current = phase;
    for event in events {
        current = current.step(*event);
        phases.push(current);
    }
    phases
}

#[test]
fn report_constants() {
    assert_eq!(LINK_POLLS, 10);
    assert_eq!(LINK_POLL_GAP_MS, 1000);
    assert_eq!(ADDRESS_POLL_GAP_MS, 500);
    assert_eq!(SAMPLES_PER_REPORT, 4);
    assert_eq!(SENSOR_TIMEOUT_MS, 5000);
    assert_eq!(CONNECT_ATTEMPTS, 5);
    assert_eq!(CONNECT_TIMEOUT_MS, 10_000);
    assert_eq!(CONNECT_RETRY_GAP_MS, 1000);
    assert_eq!(ITERATION_GAP_MS, 500);
}

#[test]
fn classify_sorts_every_outcome() {
    assert_eq!(classify(Ok(())), AttemptOutcome::Connected);
    assert_eq!(
        classify(Err(ConnectFailure::TimedOut)),
        AttemptOutcome::Retryable(ConnectFailure::TimedOut)
    );
    assert_eq!(
        classify(Err(ConnectFailure::ConnectionReset)),
        AttemptOutcome::Retryable(ConnectFailure::ConnectionReset)
    );
    assert_eq!(
        classify(Err(ConnectFailure::InvalidState)),
        AttemptOutcome::Fatal(ConnectFailure::InvalidState)
    );
    assert_eq!(
        classify(Err(ConnectFailure::NoRoute)),
        AttemptOutcome::Fatal(ConnectFailure::NoRoute)
    );
}

#[test]
fn actions_belong_to_phases() {
    assert_eq!(Phase::boot(), Phase::LinkPoll { attempt: 1 });
    assert_eq!(Phase::LinkPoll { attempt: 3 }.action(), Action::PollLink);
    assert_eq!(Phase::LinkGap { attempt: 3 }.action(), Action::Wait { ms: 1000 });
    assert_eq!(Phase::AddressPoll.action(), Action::PollAddress);
    assert_eq!(Phase::AddressGap.action(), Action::Wait { ms: 500 });
    assert_eq!(Phase::Sensor.action(), Action::ReadSensor { samples: 4, timeout_ms: 5000 });
    assert_eq!(
        Phase::Connect { value: VALUE, attempt: 2 }.action(),
        Action::Connect { attempt: 2, timeout_ms: 10_000 }
    );
    assert_eq!(Phase::ConnectGap { value: VALUE, attempt: 2 }.action(), Action::Wait { ms: 1000 });
    assert_eq!(Phase::Write { value: VALUE }.action(), Action::Send { value: VALUE });
    assert_eq!(Phase::Flush.action(), Action::Flush);
    assert_eq!(Phase::Drain.action(), Action::Read);
    assert_eq!(Phase::IterationGap.action(), Action::Wait { ms: 500 });
    assert_eq!(Phase::Sleep.action(), Action::DeepSleep);
}

#[test]
fn link_that_never_comes_up_leads_to_sleep_without_sampling() {
    let mut phase = Phase::boot();
    let mut polls = 0;
    let mut pauses = 0;
    while !phase.sleep_decided() {
        match phase.action() {
            Action::PollLink => {
                polls += 1;
                phase = phase.step(Event::Link(false));
            }
            Action::Wait { ms } => {
                assert_eq!(ms, 1000);
                pauses += 1;
                phase = phase.step(Event::Elapsed);
            }
            other => panic!("unexpected action {:?}", other),
        }
    }
    assert_eq!(polls, 10);
    assert_eq!(pauses, 9);
    assert_eq!(phase, Phase::Sleep);
    assert_eq!(phase.action(), Action::DeepSleep);
}

#[test]
fn link_up_at_any_poll_leads_to_address_lookup() {
    for attempt in 1..=10u8 {
        assert_eq!(Phase::LinkPoll { attempt }.step(Event::Link(true)), Phase::AddressPoll);
    }
    assert_eq!(Phase::LinkPoll { attempt: 9 }.step(Event::Link(false)), Phase::LinkGap { attempt: 9 });
    assert_eq!(Phase::LinkGap { attempt: 9 }.step(Event::Elapsed), Phase::LinkPoll { attempt: 10 });
    assert_eq!(Phase::LinkPoll { attempt: 10 }.step(Event::Link(false)), Phase::Sleep);
}

#[test]
fn address_is_polled_without_bound() {
    let mut phase = Phase::AddressPoll;
    for _ in 0..1000 {
        phase = phase.step(Event::Address(false));
        assert_eq!(phase, Phase::AddressGap);
        assert_eq!(phase.action(), Action::Wait { ms: 500 });
        phase = phase.step(Event::Elapsed);
        assert_eq!(phase, Phase::AddressPoll);
    }
    assert_eq!(phase.step(Event::Address(true)), Phase::Sensor);
}

#[test]
fn sensor_silence_decides_for_sleep() {
    assert_eq!(Phase::Sensor.step(Event::Sample(None)), Phase::Sleep);
}

#[test]
fn sensor_value_starts_the_upload() {
    assert_eq!(
        Phase::Sensor.step(Event::Sample(Some(VALUE))),
        Phase::Connect { value: VALUE, attempt: 1 }
    );
}

#[test]
fn five_retryable_failures_make_five_attempts_then_sleep() {
    let failures = [
        ConnectFailure::TimedOut,
        ConnectFailure::ConnectionReset,
        ConnectFailure::TimedOut,
        ConnectFailure::TimedOut,
        ConnectFailure::ConnectionReset,
    ];
    let mut phase = Phase::Connect { value: VALUE, attempt: 1 };
    let mut attempts = 0;
    let mut paused_ms = 0;
    while !phase.sleep_decided() {
        match phase.action() {
            Action::Connect { attempt, timeout_ms } => {
                attempts += 1;
                assert_eq!(attempt, attempts);
                assert_eq!(timeout_ms, 10_000);
                phase = phase.step(Event::Connect(Err(failures[attempt as usize - 1])));
                assert_eq!(phase.action(), Action::Wait { ms: 1000 });
            }
            Action::Wait { ms } => {
                paused_ms += ms;
                phase = phase.step(Event::Elapsed);
            }
            other => panic!("unexpected action {:?}", other),
        }
    }
    assert_eq!(attempts, 5);
    assert_eq!(paused_ms, 5000);
    assert_eq!(phase, Phase::Sleep);
}

#[test]
fn two_retryable_failures_then_success_make_three_attempts_and_write() {
    let phases = run(
        Phase::Connect { value: VALUE, attempt: 1 },
        &[
            Event::Connect(Err(ConnectFailure::TimedOut)),
            Event::Elapsed,
            Event::Connect(Err(ConnectFailure::ConnectionReset)),
            Event::Elapsed,
            Event::Connect(Ok(())),
        ],
    );
    assert_eq!(
        phases,
        vec![
            Phase::Connect { value: VALUE, attempt: 1 },
            Phase::ConnectGap { value: VALUE, attempt: 1 },
            Phase::Connect { value: VALUE, attempt: 2 },
            Phase::ConnectGap { value: VALUE, attempt: 2 },
            Phase::Connect { value: VALUE, attempt: 3 },
            Phase::Write { value: VALUE },
        ]
    );
    let attempts = phases.iter().filter(|phase| matches!(phase.action(), Action::Connect { .. })).count();
    assert_eq!(attempts, 3);
    assert_eq!(phases[5].action(), Action::Send { value: VALUE });
}

#[test]
fn other_connect_failures_go_on_to_write() {
    for failure in [ConnectFailure::InvalidState, ConnectFailure::NoRoute] {
        for attempt in 1..=5u8 {
            assert_eq!(
                Phase::Connect { value: VALUE, attempt }.step(Event::Connect(Err(failure))),
                Phase::Write { value: VALUE }
            );
        }
    }
}

#[test]
fn success_at_the_fifth_attempt_still_writes() {
    assert_eq!(
        Phase::Connect { value: VALUE, attempt: 5 }.step(Event::Connect(Ok(()))),
        Phase::Write { value: VALUE }
    );
    assert_eq!(
        Phase::ConnectGap { value: VALUE, attempt: 4 }.step(Event::Elapsed),
        Phase::Connect { value: VALUE, attempt: 5 }
    );
    assert_eq!(Phase::ConnectGap { value: VALUE, attempt: 5 }.step(Event::Elapsed), Phase::Sleep);
}

#[test]
fn flush_failure_starts_a_fresh_iteration_without_sleep() {
    let next = Phase::Flush.step(Event::Flushed(false));
    assert_eq!(next, Phase::Sensor);
    assert!(!next.sleep_decided());
    assert_eq!(next.action(), Action::ReadSensor { samples: 4, timeout_ms: 5000 });
}

#[test]
fn write_failure_ends_the_iteration_without_sleep() {
    let next = Phase::Write { value: VALUE }.step(Event::Written(false));
    assert_eq!(next, Phase::IterationGap);
    assert!(!next.sleep_decided());
}

#[test]
fn answer_is_drained_until_the_peer_closes() {
    let phases = run(
        Phase::Write { value: VALUE },
        &[
            Event::Written(true),
            Event::Flushed(true),
            Event::Read(Some(512)),
            Event::Read(Some(1)),
            Event::Read(Some(0)),
            Event::Elapsed,
        ],
    );
    assert_eq!(
        phases,
        vec![
            Phase::Write { value: VALUE },
            Phase::Flush,
            Phase::Drain,
            Phase::Drain,
            Phase::Drain,
            Phase::IterationGap,
            Phase::Sensor,
        ]
    );
}

#[test]
fn read_error_ends_the_drain() {
    assert_eq!(Phase::Drain.step(Event::Read(None)), Phase::IterationGap);
    assert_eq!(Phase::IterationGap.action(), Action::Wait { ms: 500 });
}

#[test]
fn sleep_decision_is_never_taken_back() {
    for event in every_event() {
        assert_eq!(Phase::Sleep.step(event), Phase::Sleep);
    }
    assert!(Phase::Sleep.sleep_decided());
}

#[test]
fn only_the_sleep_phase_has_decided_to_sleep() {
    let phases = [
        Phase::LinkPoll { attempt: 1 },
        Phase::LinkGap { attempt: 1 },
        Phase::AddressPoll,
        Phase::AddressGap,
        Phase::Sensor,
        Phase::Connect { value: VALUE, attempt: 1 },
        Phase::ConnectGap { value: VALUE, attempt: 1 },
        Phase::Write { value: VALUE },
        Phase::Flush,
        Phase::Drain,
        Phase::IterationGap,
    ];
    for phase in phases {
        assert!(!phase.sleep_decided());
        assert_ne!(phase.action(), Action::DeepSleep);
    }
}

#[test]
fn events_that_answer_nothing_change_nothing() {
    let answered: [(Phase, usize); 11] = [
        (Phase::LinkPoll { attempt: 1 }, 2),
        (Phase::LinkGap { attempt: 1 }, 1),
        (Phase::AddressPoll, 2),
        (Phase::AddressGap, 1),
        (Phase::Sensor, 2),
        (Phase::Connect { value: VALUE, attempt: 1 }, 5),
        (Phase::ConnectGap { value: VALUE, attempt: 1 }, 1),
        (Phase::Write { value: VALUE }, 2),
        (Phase::Flush, 2),
        (Phase::Drain, 2),
        (Phase::IterationGap, 1),
    ];
    for (phase, count) in answered {
        let moved = every_event().iter().filter(|event| phase.step(**event) != phase).count();
        assert_eq!(moved, count);
    }
}

#[test]
fn attempt_counters_hold_at_their_largest_value() {
    assert_eq!(Phase::LinkGap { attempt: 255 }.step(Event::Elapsed), Phase::LinkPoll { attempt: 255 });
    assert_eq!(Phase::LinkPoll { attempt: 255 }.step(Event::Link(false)), Phase::Sleep);
    assert_eq!(Phase::ConnectGap { value: VALUE, attempt: 255 }.step(Event::Elapsed), Phase::Sleep);
}

#[test]
fn a_whole_iteration_from_boot() {
    let phases = run(
        Phase::boot(),
        &[
            Event::Link(false),
            Event::Elapsed,
            Event::Link(true),
            Event::Address(false),
            Event::Elapsed,
            Event::Address(true),
            Event::Sample(Some(VALUE)),
            Event::Connect(Ok(())),
            Event::Written(true),
            Event::Flushed(true),
            Event::Read(Some(0)),
            Event::Elapsed,
            Event::Sample(None),
        ],
    );
    assert_eq!(phases[phases.len() - 2], Phase::Sensor);
    assert_eq!(phases[phases.len() - 1], Phase::Sleep);
    let uploads = phases.iter().filter(|phase| matches!(phase, Phase::Write { .. })).count();
    assert_eq!(uploads, 1);
}
