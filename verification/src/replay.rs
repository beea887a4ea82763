//! Sampling from recorded edges.
//!
//! On the node every edge is waited for. Here the edges are given as a
//! record, each with the level it led to and the clock at which it was seen,
//! and the engine takes them in one after the other: until one gives a
//! reading ([`Encoder::sample_one`]), or until a number of readings are
//! averaged ([`Encoder::sample_average`]).

use vstd::prelude::*;
use vstd::slice::slice_subrange;
use crate::average::{mean_of, Averager, Mean};
use crate::clock::{millis_in, MAX_SPAN_TICKS};
use crate::encoder::{observed, Encoder, PulseState};

verus! {

/// One recorded edge.
#[derive(Clone, Copy, Debug, PartialEq, Eq)]
pub struct Edge {
    /// The level that the edge led to: `true` for high.
    pub is_high: bool,
    /// The clock when the edge was seen, in ticks.
    pub now: u64,
}

/// Milliseconds from the last accepted rising edge to clock time `now`.
pub open spec fn elapsed_ms(state: PulseState, now: u64) -> u64 {
    millis_in((now - state.last_rising) as u64)
}

/// The state after an edge and the reading that the edge gives, if any.
pub open spec fn stepped(state: PulseState, edge: Edge) -> (PulseState, Option<u8>) {
    observed(state, edge.is_high, edge.now, elapsed_ms(state, edge.now))
}

/// The edges are in the order of the clock, none of them before the last
/// accepted rising edge nor further from it than [`MAX_SPAN_TICKS`].
pub open spec fn in_order(state: PulseState, edges: Seq<Edge>) -> bool {
    &&& forall|i: int|
        0 <= i < edges.len() ==> state.last_rising <= (#[trigger] edges[i]).now
            <= state.last_rising + MAX_SPAN_TICKS
    &&& forall|i: int, j: int|
        0 <= i <= j < edges.len() ==> (#[trigger] edges[i]).now <= (#[trigger] edges[j]).now
}

/// What taking one sample from a record comes to.
pub struct Sampled {
    /// The state of the engine afterwards.
    pub state: PulseState,
    /// The reading, or `None` when the record ran out before an edge gave
    /// one.
    pub reading: Option<u8>,
    /// The number of edges that were taken in.
    pub taken: nat,
}

/// Takes edges in, from the first on, up to and with the first one that
/// gives a reading.
pub open spec fn sampled(state: PulseState, edges: Seq<Edge>) -> Sampled
    decreases edges.len(),
{
    if edges.len() == 0 {
        Sampled { state, reading: None, taken: 0 }
    } else {
        let (next, reading) = stepped(state, edges[0]);
        if reading is Some {
            Sampled { state: next, reading, taken: 1 }
        } else {
            let rest = sampled(next, edges.skip(1));
            Sampled { state: rest.state, reading: rest.reading, taken: rest.taken + 1 }
        }
    }
}

/// The readings of up to `count` samples taken one after the other, each
/// from where the one before it stopped, and the state of the engine
/// afterwards. There are fewer than `count` readings when the record runs
/// out.
pub open spec fn collected(state: PulseState, edges: Seq<Edge>, count: nat) -> (
    PulseState,
    Seq<u8>,
)
    decreases count,
{
    if count == 0 {
        (state, Seq::empty())
    } else {
        let first = sampled(state, edges);
        match first.reading {
            None => (first.state, Seq::empty()),
            Some(value) => {
                let (last, rest) = collected(
                    first.state,
                    edges.skip(first.taken as int),
                    (count - 1) as nat,
                );
                (last, seq![value] + rest)
            },
        }
    }
}

/// Taking one edge in keeps the rest of the record in order.
proof fn lemma_in_order_step(state: PulseState, edges: Seq<Edge>)
    requires
        in_order(state, edges),
        edges.len() > 0,
    ensures
        in_order(stepped(state, edges[0]).0, edges.skip(1)),
        state.last_rising <= stepped(state, edges[0]).0.last_rising,
{
    let next = stepped(state, edges[0]).0;
    let rest = edges.skip(1);
    assert(next.last_rising == state.last_rising || next.last_rising == edges[0].now);
    assert forall|i: int| 0 <= i < rest.len() implies next.last_rising <= (#[trigger] rest[i]).now
        <= next.last_rising + MAX_SPAN_TICKS by {
        assert(rest[i] == edges[i + 1]);
    }
    assert forall|i: int, j: int| 0 <= i <= j < rest.len() implies (#[trigger] rest[i]).now <= (
    #[trigger] rest[j]).now by {
        assert(rest[i] == edges[i + 1]);
        assert(rest[j] == edges[j + 1]);
    }
}

impl Encoder {
    /// Takes recorded edges in, from the first on, until one gives a
    /// reading.
    ///
    /// Returns the reading and the number of edges that were taken in, the
    /// one that gave the reading included. When no edge of the record gives
    /// a reading, all of them are taken in and the reading is `None`.
    pub fn sample_one(&mut self, edges: &[Edge]) -> (out: (Option<u8>, usize))
        requires
            in_order(old(self)@, edges@),
        ensures
            final(self)@ == sampled(old(self)@, edges@).state,
            out.0 == sampled(old(self)@, edges@).reading,
            out.1 == sampled(old(self)@, edges@).taken,
            out.1 <= edges.len(),
            out.0 is None ==> out.1 == edges.len(),
            out.0 matches Some(value) ==> 1 <= value <= 100,
            in_order(final(self)@, edges@.skip(out.1 as int)),
    {
        let ghost start = self@;
        let mut i: usize = 0;
        proof {
            assert(edges@.skip(0) =~= edges@);
        }
        while i < edges.len()
            invariant
                i <= edges.len(),
                start == old(self)@,
                in_order(self@, edges@.skip(i as int)),
                sampled(start, edges@).state == sampled(self@, edges@.skip(i as int)).state,
                sampled(start, edges@).reading == sampled(self@, edges@.skip(i as int)).reading,
                sampled(start, edges@).taken == sampled(self@, edges@.skip(i as int)).taken + i,
            decreases edges.len() - i,
        {
            let edge = edges[i];
            proof {
                let rest = edges@.skip(i as int);
                assert(rest[0] == edge);
                assert(rest.skip(1) =~= edges@.skip(i + 1));
                lemma_in_order_step(self@, rest);
            }
            let reading = self.on_edge(edge.is_high, edge.now);
            i = i + 1;
            if reading.is_some() {
                return (reading, i);
            }
        }
        (None, i)
    }

    /// Takes `count` samples from recorded edges, one after the other, and
    /// returns their arithmetic mean: the sum of the readings, in the order
    /// in which they came, over their number.
    ///
    /// The result is `None` when the record runs out before `count`
    /// readings are taken; the edges are taken in all the same.
    pub fn sample_average(&mut self, edges: &[Edge], count: u8) -> (mean: Option<Mean>)
        requires
            in_order(old(self)@, edges@),
        ensures
            final(self)@ == collected(old(self)@, edges@, count as nat).0,
            mean == if collected(old(self)@, edges@, count as nat).1.len() == count {
                Some(mean_of(collected(old(self)@, edges@, count as nat).1))
            } else {
                None
            },
    {
        let ghost start = self@;
        let mut averager = Averager::new(count);
        let mut position: usize = 0;
        proof {
            assert(edges@.skip(0) =~= edges@);
        }
        while !averager.is_complete()
            invariant
                position <= edges.len(),
                start == old(self)@,
                averager@.wanted == count,
                averager@.readings.len() <= count,
                in_order(self@, edges@.skip(position as int)),
                collected(start, edges@, count as nat).0 == collected(
                    self@,
                    edges@.skip(position as int),
                    (count - averager@.readings.len()) as nat,
                ).0,
                collected(start, edges@, count as nat).1 == averager@.readings + collected(
                    self@,
                    edges@.skip(position as int),
                    (count - averager@.readings.len()) as nat,
                ).1,
            decreases count - averager@.readings.len(),
        {
            let rest = slice_subrange(edges, position, edges.len());
            let ghost left = (count - averager@.readings.len()) as nat;
            let ghost got = averager@.readings;
            proof {
                assert(rest@ =~= edges@.skip(position as int));
            }
            let (reading, taken) = self.sample_one(rest);
            proof {
                assert(rest@.skip(taken as int) =~= edges@.skip(position + taken));
            }
            position = position + taken;
            match reading {
                Some(value) => {
                    averager.add(value);
                    proof {
                        let tail = collected(
                            self@,
                            edges@.skip(position as int),
                            (left - 1) as nat,
                        ).1;
                        assert(got + (seq![value] + tail) =~= got.push(value) + tail);
                    }
                },
                None => {
                    return None;
                },
            }
        }
        proof {
            assert(averager@.readings + Seq::<u8>::empty() =~= averager@.readings);
        }
        Some(averager.mean())
    }
}

} // verus!
