//! What holds of whole runs of the reporting cycle.
//!
//! A run is a phase and the events reported one after the other; the laws
//! below are stated over [`run`] and proved from [`next_phase`].

use vstd::prelude::*;
use crate::average::Mean;
use crate::report::{
    action_of, next_phase, retryable, Action, ConnectFailure, Event, Phase, CONNECT_ATTEMPTS,
    CONNECT_RETRY_GAP_MS, LINK_POLLS, LINK_POLL_GAP_MS, SAMPLES_PER_REPORT, SENSOR_TIMEOUT_MS,
};

verus! {

/// The phase reached from `phase` after `events` were reported in order.
pub open spec fn run(phase: Phase, events: Seq<Event>) -> Phase
    decreases events.len(),
{
    if events.len() == 0 {
        phase
    } else {
        next_phase(run(phase, events.drop_last()), events.last())
    }
}

/// One more event takes the run one step further.
pub proof fn lemma_run_push(phase: Phase, events: Seq<Event>, event: Event)
    ensures
        run(phase, events.push(event)) == next_phase(run(phase, events), event),
{
    assert(events.push(event).drop_last() =~= events);
}

/// A run of one event is one step.
pub proof fn lemma_run_one(phase: Phase, event: Event)
    ensures
        run(phase, seq![event]) == next_phase(phase, event),
{
    assert(seq![event].drop_last() =~= Seq::<Event>::empty());
    assert(run(phase, Seq::<Event>::empty()) == phase);
}

/// The decision to sleep stands: whatever is reported afterwards, the phase
/// stays `Sleep`, and its action is the hand-over to the power manager, so
/// nothing touches the network or the sensor any more.
pub proof fn lemma_sleep_is_final(events: Seq<Event>)
    ensures
        run(Phase::Sleep, events) == Phase::Sleep,
        action_of(run(Phase::Sleep, events)) == Action::DeepSleep,
    decreases events.len(),
{
    if events.len() > 0 {
        lemma_sleep_is_final(events.drop_last());
    }
}

/// A step keeps the attempt counters within their bounds.
pub proof fn lemma_step_well_formed(phase: Phase, event: Event)
    requires
        phase.well_formed(),
    ensures
        next_phase(phase, event).well_formed(),
{
}

/// Every phase that a run from boot reaches has its attempt counters within
/// their bounds: at most ten polls of the link, and at most five connection
/// attempts in one upload.
pub proof fn lemma_run_well_formed(events: Seq<Event>)
    ensures
        run(Phase::LinkPoll { attempt: 1 }, events).well_formed(),
    decreases events.len(),
{
    if events.len() > 0 {
        lemma_run_well_formed(events.drop_last());
        lemma_step_well_formed(
            run(Phase::LinkPoll { attempt: 1 }, events.drop_last()),
            events.last(),
        );
    }
}

/// A failed flush ends the iteration at once and starts a fresh one with a
/// reading of the sensor; the node has not decided to sleep.
pub proof fn lemma_flush_failure_restarts()
    ensures
        next_phase(Phase::Flush, Event::Flushed(false)) == Phase::Sensor,
        next_phase(Phase::Flush, Event::Flushed(false)) != Phase::Sleep,
        action_of(next_phase(Phase::Flush, Event::Flushed(false))) == (Action::ReadSensor {
            samples: SAMPLES_PER_REPORT,
            timeout_ms: SENSOR_TIMEOUT_MS,
        }),
{
}

/// The phases in which the node still waits for the link, or has given up.
pub open spec fn waiting_for_link(phase: Phase) -> bool {
    phase is LinkPoll || phase is LinkGap || phase == Phase::Sleep
}

/// As long as no poll finds the link up, the node waits for the link or
/// sleeps: it never reads the sensor and never touches the network.
pub proof fn lemma_no_link_no_sampling(events: Seq<Event>)
    requires
        forall|i: int| 0 <= i < events.len() ==> events[i] != Event::Link(true),
    ensures
        waiting_for_link(run(Phase::LinkPoll { attempt: 1 }, events)),
        action_of(run(Phase::LinkPoll { attempt: 1 }, events)) == Action::PollLink || action_of(
            run(Phase::LinkPoll { attempt: 1 }, events),
        ) == (Action::Wait { ms: LINK_POLL_GAP_MS }) || action_of(
            run(Phase::LinkPoll { attempt: 1 }, events),
        ) == Action::DeepSleep,
    decreases events.len(),
{
    if events.len() > 0 {
        lemma_no_link_no_sampling(events.drop_last());
        assert(events.last() == events[events.len() - 1]);
    }
}

/// The phases in which the node has no address yet, or has given up.
pub open spec fn waiting_for_address(phase: Phase) -> bool {
    waiting_for_link(phase) || phase == Phase::AddressPoll || phase == Phase::AddressGap
}

/// As long as no lookup finds an address, the node waits for the link or
/// for an address, or sleeps: it never reads the sensor and never opens a
/// connection.
pub proof fn lemma_no_address_no_sampling(events: Seq<Event>)
    requires
        forall|i: int| 0 <= i < events.len() ==> events[i] != Event::Address(true),
    ensures
        waiting_for_address(run(Phase::LinkPoll { attempt: 1 }, events)),
        !(action_of(run(Phase::LinkPoll { attempt: 1 }, events)) is ReadSensor),
        !(action_of(run(Phase::LinkPoll { attempt: 1 }, events)) is Connect),
        !(action_of(run(Phase::LinkPoll { attempt: 1 }, events)) is Send),
    decreases events.len(),
{
    if events.len() > 0 {
        lemma_no_address_no_sampling(events.drop_last());
        assert(events.last() == events[events.len() - 1]);
    }
}

/// The events of `polls` polls that all find the link down, with the pauses
/// between them.
pub open spec fn link_down_script(polls: nat) -> Seq<Event>
    decreases polls,
{
    if polls == 0 {
        Seq::empty()
    } else if polls == 1 {
        seq![Event::Link(false)]
    } else {
        link_down_script((polls - 1) as nat).push(Event::Elapsed).push(Event::Link(false))
    }
}

/// When the link stays down, the node pauses after each of the first nine
/// polls and decides to sleep at the tenth.
pub proof fn lemma_link_never_up(polls: nat)
    requires
        1 <= polls <= LINK_POLLS,
    ensures
        run(Phase::LinkPoll { attempt: 1 }, link_down_script(polls)) == if polls == LINK_POLLS {
            Phase::Sleep
        } else {
            Phase::LinkGap { attempt: polls as u8 }
        },
        link_down_script(polls).len() == 2 * polls - 1,
        forall|i: int|
            0 <= i < link_down_script(polls).len() ==> link_down_script(polls)[i] != Event::Link(
                true,
            ),
    decreases polls,
{
    let boot = Phase::LinkPoll { attempt: 1 };
    if polls == 1 {
        lemma_run_one(boot, Event::Link(false));
    } else {
        let before = link_down_script((polls - 1) as nat);
        lemma_link_never_up((polls - 1) as nat);
        lemma_run_push(boot, before, Event::Elapsed);
        lemma_run_push(boot, before.push(Event::Elapsed), Event::Link(false));
    }
}

/// The events of connection attempts that fail with `failures`, one after
/// the other, each followed by the end of the pause that it causes.
pub open spec fn retry_script(failures: Seq<ConnectFailure>) -> Seq<Event>
    decreases failures.len(),
{
    if failures.len() == 0 {
        Seq::empty()
    } else {
        retry_script(failures.drop_last()).push(Event::Connect(Err(failures.last()))).push(
            Event::Elapsed,
        )
    }
}

/// Every failure in the sequence is a timeout or a reset.
pub open spec fn all_retryable(failures: Seq<ConnectFailure>) -> bool {
    forall|i: int| 0 <= i < failures.len() ==> retryable(#[trigger] failures[i])
}

/// An upload whose attempts all fail with a timeout or a reset makes one
/// attempt after the other, pauses after each, and after the fifth decides
/// to sleep.
///
/// After `k` such failures, `k` below five, the upload is at its attempt
/// `k + 1`; right after the `k`-th failure it is pausing for a second.
pub proof fn lemma_retries(value: Mean, failures: Seq<ConnectFailure>)
    requires
        failures.len() <= CONNECT_ATTEMPTS,
        all_retryable(failures),
    ensures
        run(Phase::Connect { value, attempt: 1 }, retry_script(failures)) == if failures.len()
            == CONNECT_ATTEMPTS {
            Phase::Sleep
        } else {
            Phase::Connect { value, attempt: (failures.len() + 1) as u8 }
        },
        failures.len() >= 1 ==> run(
            Phase::Connect { value, attempt: 1 },
            retry_script(failures).drop_last(),
        ) == (Phase::ConnectGap { value, attempt: failures.len() as u8 }),
        failures.len() >= 1 ==> action_of(
            run(Phase::Connect { value, attempt: 1 }, retry_script(failures).drop_last()),
        ) == (Action::Wait { ms: CONNECT_RETRY_GAP_MS }),
    decreases failures.len(),
{
    let start = Phase::Connect { value, attempt: 1 };
    if failures.len() > 0 {
        let before = retry_script(failures.drop_last());
        let failed = Event::Connect(Err(failures.last()));
        lemma_retries(value, failures.drop_last());
        assert(retryable(failures[failures.len() - 1]));
        lemma_run_push(start, before, failed);
        lemma_run_push(start, before.push(failed), Event::Elapsed);
        assert(retry_script(failures).drop_last() =~= before.push(failed));
    }
}

/// An upload in which fewer than five attempts fail with a timeout or a
/// reset, and the next one succeeds or fails in any other way, goes on to
/// write the request: it makes exactly one attempt more than there were
/// such failures.
pub proof fn lemma_retry_then_proceed(
    value: Mean,
    failures: Seq<ConnectFailure>,
    last: Result<(), ConnectFailure>,
)
    requires
        failures.len() < CONNECT_ATTEMPTS,
        all_retryable(failures),
        last matches Err(failure) ==> !retryable(failure),
    ensures
        run(Phase::Connect { value, attempt: 1 }, retry_script(failures)) == (Phase::Connect {
            value,
            attempt: (failures.len() + 1) as u8,
        }),
        run(
            Phase::Connect { value, attempt: 1 },
            retry_script(failures).push(Event::Connect(last)),
        ) == (Phase::Write { value }),
{
    let start = Phase::Connect { value, attempt: 1 };
    lemma_retries(value, failures);
    lemma_run_push(start, retry_script(failures), Event::Connect(last));
}

/// A script of failed attempts has two events for every failure.
pub proof fn lemma_retry_script_len(failures: Seq<ConnectFailure>)
    ensures
        retry_script(failures).len() == 2 * failures.len(),
    decreases failures.len(),
{
    if failures.len() > 0 {
        lemma_retry_script_len(failures.drop_last());
    }
}

/// The script of the first `k` failures is the beginning of the script of
/// all of them.
pub proof fn lemma_retry_script_prefix(failures: Seq<ConnectFailure>, k: int)
    requires
        0 <= k <= failures.len(),
    ensures
        retry_script(failures.take(k)) == retry_script(failures).take(2 * k),
    decreases failures.len(),
{
    lemma_retry_script_len(failures);
    if k == failures.len() {
        assert(failures.take(k) =~= failures);
        assert(retry_script(failures).take(2 * k) =~= retry_script(failures));
    } else {
        let shorter = failures.drop_last();
        lemma_retry_script_len(shorter);
        lemma_retry_script_prefix(shorter, k);
        assert(shorter.take(k) =~= failures.take(k));
        assert(retry_script(failures).take(2 * k) =~= retry_script(shorter).take(2 * k));
    }
}

/// The course of an upload whose attempts all fail with a timeout or a
/// reset: when `k` of the failures and the pauses after them are through,
/// the upload is at its attempt `k + 1`, and after the fifth it has decided
/// to sleep. So the attempts are made one by one, each after the pause that
/// follows the one before it, and there are never more than five.
pub proof fn lemma_retry_course(value: Mean, failures: Seq<ConnectFailure>, k: int)
    requires
        failures.len() <= CONNECT_ATTEMPTS,
        all_retryable(failures),
        0 <= k <= failures.len(),
    ensures
        run(Phase::Connect { value, attempt: 1 }, retry_script(failures).take(2 * k)) == if k
            == CONNECT_ATTEMPTS {
            Phase::Sleep
        } else {
            Phase::Connect { value, attempt: (k + 1) as u8 }
        },
{
    lemma_retry_script_prefix(failures, k);
    lemma_retries(value, failures.take(k));
}

/// An iteration in which everything goes well: the reading is taken, the
/// first attempt connects, the request is written and flushed, the answer
/// is read until the peer closes, and after the pause the next iteration
/// starts with a reading of the sensor.
pub proof fn lemma_iteration_goes_round(value: Mean, answer_bytes: usize)
    requires
        answer_bytes > 0,
    ensures
        run(
            Phase::Sensor,
            seq![
                Event::Sample(Some(value)),
                Event::Connect(Ok(())),
                Event::Written(true),
                Event::Flushed(true),
                Event::Read(Some(answer_bytes)),
                Event::Read(Some(0)),
                Event::Elapsed,
            ],
        ) == Phase::Sensor,
{
    let sampled = seq![Event::Sample(Some(value))];
    let connected = sampled.push(Event::Connect(Ok(())));
    let written = connected.push(Event::Written(true));
    let flushed = written.push(Event::Flushed(true));
    let answered = flushed.push(Event::Read(Some(answer_bytes)));
    let closed = answered.push(Event::Read(Some(0)));
    lemma_run_one(Phase::Sensor, Event::Sample(Some(value)));
    lemma_run_push(Phase::Sensor, sampled, Event::Connect(Ok(())));
    lemma_run_push(Phase::Sensor, connected, Event::Written(true));
    lemma_run_push(Phase::Sensor, written, Event::Flushed(true));
    lemma_run_push(Phase::Sensor, flushed, Event::Read(Some(answer_bytes)));
    lemma_run_push(Phase::Sensor, answered, Event::Read(Some(0)));
    lemma_run_push(Phase::Sensor, closed, Event::Elapsed);
    assert(closed.push(Event::Elapsed) =~= seq![
        Event::Sample(Some(value)),
        Event::Connect(Ok(())),
        Event::Written(true),
        Event::Flushed(true),
        Event::Read(Some(answer_bytes)),
        Event::Read(Some(0)),
        Event::Elapsed,
    ]);
}

} // verus!
