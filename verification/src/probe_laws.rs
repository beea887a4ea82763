//! What holds of whole runs of the activity probe.

use vstd::prelude::*;
use crate::probe::{next_probe, probe_timeout, started, Probe, ProbeEvent};

verus! {

/// The state reached from `probe` after `events` were reported in order.
pub open spec fn probe_run(probe: Probe, events: Seq<ProbeEvent>) -> Probe
    decreases events.len(),
{
    if events.len() == 0 {
        probe
    } else {
        next_probe(probe_run(probe, events.drop_last()), events.last())
    }
}

/// A run of one event is one step.
pub proof fn lemma_probe_run_one(probe: Probe, event: ProbeEvent)
    ensures
        probe_run(probe, seq![event]) == next_probe(probe, event),
{
    assert(seq![event].drop_last() =~= Seq::<ProbeEvent>::empty());
    assert(probe_run(probe, Seq::<ProbeEvent>::empty()) == probe);
}

/// A run over two sequences of events, one after the other, is the run over
/// the second from where the first one led.
pub proof fn lemma_probe_run_concat(probe: Probe, first: Seq<ProbeEvent>, second: Seq<ProbeEvent>)
    ensures
        probe_run(probe, first + second) == probe_run(probe_run(probe, first), second),
    decreases second.len(),
{
    if second.len() == 0 {
        assert(first + second =~= first);
    } else {
        lemma_probe_run_concat(probe, first, second.drop_last());
        assert((first + second).drop_last() =~= first + second.drop_last());
    }
}

/// A probe that is over keeps its verdict, whatever is reported afterwards:
/// a timer that fires after the last reading does not take the verdict
/// back.
pub proof fn lemma_probe_done_is_final(active: bool, events: Seq<ProbeEvent>)
    ensures
        probe_run(Probe::Done { active }, events) == (Probe::Done { active }),
    decreases events.len(),
{
    if events.len() > 0 {
        lemma_probe_done_is_final(active, events.drop_last());
    }
}

/// The events that reach a probe with `left` readings to go when the
/// readings take `waits[0]`, `waits[1]`, ... milliseconds to come, the pause
/// between two readings is `gap_ms` milliseconds, and the timer fires
/// `budget` milliseconds from now. When `waits` runs out, no further reading
/// ever comes. Nothing is reported after the last reading.
///
/// A reading or the end of a pause that falls on the very millisecond at
/// which the timer fires is reported before the timer.
pub open spec fn timeline(left: nat, gap_ms: nat, budget: int, waits: Seq<nat>) -> Seq<ProbeEvent>
    decreases left,
{
    if left == 0 {
        Seq::empty()
    } else if waits.len() == 0 || waits[0] > budget {
        seq![ProbeEvent::TimedOut]
    } else if left == 1 {
        seq![ProbeEvent::Reading]
    } else if waits[0] + gap_ms > budget {
        seq![ProbeEvent::Reading, ProbeEvent::TimedOut]
    } else {
        seq![ProbeEvent::Reading, ProbeEvent::Elapsed] + timeline(
            (left - 1) as nat,
            gap_ms,
            budget - waits[0] - gap_ms,
            waits.skip(1),
        )
    }
}

/// Sum of the first `count` waits.
pub open spec fn waited(waits: Seq<nat>, count: nat) -> nat
    recommends
        count <= waits.len(),
    decreases count,
{
    if count == 0 {
        0
    } else {
        waits[0] + waited(waits.skip(1), (count - 1) as nat)
    }
}

/// All `left` readings come, and the last of them comes within `budget`
/// milliseconds: the waits for the readings and the pauses between them,
/// one fewer than there are readings, add up to no more than the budget.
pub open spec fn in_time(left: nat, gap_ms: nat, budget: int, waits: Seq<nat>) -> bool {
    left == 0 || (waits.len() >= left && waited(waits, left) + (left - 1) * gap_ms <= budget)
}

/// From a state that waits for a reading, the events of a timeline lead to
/// the verdict `true` when the last reading comes in time, and to the
/// verdict `false` otherwise.
pub proof fn lemma_timeline_verdict(left: u64, gap_ms: u64, budget: int, waits: Seq<nat>)
    requires
        left >= 1,
    ensures
        probe_run(
            Probe::Sampling { left, gap_ms },
            timeline(left as nat, gap_ms as nat, budget, waits),
        ) == (Probe::Done { active: in_time(left as nat, gap_ms as nat, budget, waits) }),
    decreases left,
{
    let probe = Probe::Sampling { left, gap_ms };
    let events = timeline(left as nat, gap_ms as nat, budget, waits);
    assert((left - 1) * gap_ms >= 0) by (nonlinear_arith)
        requires
            left >= 1,
            gap_ms >= 0,
    ;
    if waits.len() == 0 || waits[0] > budget {
        lemma_probe_run_one(probe, ProbeEvent::TimedOut);
    } else if left == 1 {
        lemma_probe_run_one(probe, ProbeEvent::Reading);
        assert(waited(waits.skip(1), 0) == 0);
        assert((left - 1) * gap_ms == 0) by (nonlinear_arith)
            requires
                left == 1,
        ;
    } else {
        let pausing = Probe::Pausing { left: (left - 1) as u64, gap_ms };
        assert((left - 1) * gap_ms == (left - 2) * gap_ms + gap_ms) by (nonlinear_arith);
        assert((left - 2) * gap_ms >= 0) by (nonlinear_arith)
            requires
                left >= 2,
                gap_ms >= 0,
        ;
        lemma_probe_run_one(probe, ProbeEvent::Reading);
        if waits[0] + gap_ms > budget {
            lemma_probe_run_concat(probe, seq![ProbeEvent::Reading], seq![ProbeEvent::TimedOut]);
            assert(seq![ProbeEvent::Reading] + seq![ProbeEvent::TimedOut] =~= events);
            lemma_probe_run_one(pausing, ProbeEvent::TimedOut);
        } else {
            let rest = timeline(
                (left - 1) as nat,
                gap_ms as nat,
                budget - waits[0] - gap_ms,
                waits.skip(1),
            );
            let head = seq![ProbeEvent::Reading, ProbeEvent::Elapsed];
            lemma_probe_run_concat(probe, head, rest);
            lemma_probe_run_concat(probe, seq![ProbeEvent::Reading], seq![ProbeEvent::Elapsed]);
            assert(seq![ProbeEvent::Reading] + seq![ProbeEvent::Elapsed] =~= head);
            lemma_probe_run_one(pausing, ProbeEvent::Elapsed);
            lemma_timeline_verdict(
                (left - 1) as u64,
                gap_ms,
                budget - waits[0] - gap_ms,
                waits.skip(1),
            );
        }
    }
}

/// A fresh probe answers `true` exactly when all its readings come and the
/// last of them comes within twice the number of readings times the pause,
/// counted from the start of the probe; it answers `false` when the timer
/// fires first.
///
/// The verdict is fixed by the number of readings, the pause, and the times
/// that the readings take to come: a probe keeps nothing from one run to the
/// next, and a probe that is repeated under the same conditions answers the
/// same.
pub proof fn lemma_probe_verdict(tries: u64, gap_ms: u64, waits: Seq<nat>)
    ensures
        probe_run(
            started(tries, gap_ms),
            timeline(tries as nat, gap_ms as nat, probe_timeout(tries, gap_ms), waits),
        ) == (Probe::Done {
            active: in_time(tries as nat, gap_ms as nat, probe_timeout(tries, gap_ms), waits),
        }),
{
    if tries > 0 {
        lemma_timeline_verdict(tries, gap_ms, probe_timeout(tries, gap_ms), waits);
    }
}

/// A probe whose readings all come at once is active: the pauses between
/// them take less than half of the time that the timer allows.
pub proof fn lemma_prompt_readings_are_active(tries: u64, gap_ms: u64, waits: Seq<nat>)
    requires
        waits.len() >= tries,
        forall|i: int| 0 <= i < tries ==> waits[i] == 0,
    ensures
        in_time(tries as nat, gap_ms as nat, probe_timeout(tries, gap_ms), waits),
{
    lemma_no_waits(waits, tries as nat);
    if tries >= 1 {
        assert((tries - 1) * gap_ms <= 2 * tries * gap_ms) by (nonlinear_arith)
            requires
                tries >= 1,
                gap_ms >= 0,
        ;
    }
}

/// Waits of zero add up to zero.
pub proof fn lemma_no_waits(waits: Seq<nat>, count: nat)
    requires
        waits.len() >= count,
        forall|i: int| 0 <= i < count ==> waits[i] == 0,
    ensures
        waited(waits, count) == 0,
    decreases count,
{
    if count > 0 {
        assert forall|i: int| 0 <= i < count - 1 implies waits.skip(1)[i] == 0 by {
            assert(waits.skip(1)[i] == waits[i + 1]);
        }
        lemma_no_waits(waits.skip(1), (count - 1) as nat);
    }
}

} // verus!
