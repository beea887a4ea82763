//! What holds of the pulse timing engine over whole records of edges.

use vstd::prelude::*;
use vstd::arithmetic::div_mod::lemma_div_is_ordered_by_denominator;
use crate::encoder::{reading_at, PulseState, CALIBRATION, DEBOUNCE_MS};
use crate::replay::{collected, elapsed_ms, sampled, stepped, Edge, Sampled};

verus! {

/// Debouncing: edges that all come less than the debounce time after the
/// last accepted rising edge give no reading and leave the engine as it
/// was, however many they are and whatever their levels.
pub proof fn lemma_bounces_are_dropped(state: PulseState, edges: Seq<Edge>)
    requires
        forall|i: int|
            0 <= i < edges.len() ==> elapsed_ms(state, (#[trigger] edges[i]).now) < DEBOUNCE_MS,
    ensures
        sampled(state, edges) == (Sampled { state, reading: None, taken: edges.len() }),
    decreases edges.len(),
{
    if edges.len() > 0 {
        let rest = edges.skip(1);
        assert(elapsed_ms(state, edges[0].now) < DEBOUNCE_MS);
        assert forall|i: int| 0 <= i < rest.len() implies elapsed_ms(
            state,
            (#[trigger] rest[i]).now,
        ) < DEBOUNCE_MS by {
            assert(rest[i] == edges[i + 1]);
        }
        lemma_bounces_are_dropped(state, rest);
    }
}

/// A level that stays high gives no further reading: once a rising edge was
/// accepted, rising edges are ignored until the line has fallen.
pub proof fn lemma_sustained_high(state: PulseState, edges: Seq<Edge>)
    requires
        state.level_high,
        forall|i: int| 0 <= i < edges.len() ==> (#[trigger] edges[i]).is_high,
    ensures
        sampled(state, edges) == (Sampled { state, reading: None, taken: edges.len() }),
    decreases edges.len(),
{
    if edges.len() > 0 {
        let rest = edges.skip(1);
        assert(edges[0].is_high);
        assert forall|i: int| 0 <= i < rest.len() implies (#[trigger] rest[i]).is_high by {
            assert(rest[i] == edges[i + 1]);
        }
        lemma_sustained_high(state, rest);
    }
}

/// A rising edge that is not noise, on a line noted as low, gives the
/// reading for the time since the rising edge before it, and is noted as
/// the last accepted rising edge.
pub proof fn lemma_rising_edge_reads(state: PulseState, edge: Edge)
    requires
        !state.level_high,
        edge.is_high,
        elapsed_ms(state, edge.now) >= DEBOUNCE_MS,
    ensures
        stepped(state, edge) == (
            PulseState { last_rising: edge.now, level_high: true },
            Some(reading_at(elapsed_ms(state, edge.now) as int) as u8),
        ),
        1 <= reading_at(elapsed_ms(state, edge.now) as int) <= 100,
{
    lemma_div_is_ordered_by_denominator(
        CALIBRATION as int,
        DEBOUNCE_MS as int,
        elapsed_ms(state, edge.now) as int,
    );
}

/// Every reading that an edge gives lies between one and a hundred.
pub proof fn lemma_reading_in_range(state: PulseState, edge: Edge)
    ensures
        stepped(state, edge).1 matches Some(value) ==> 1 <= value <= 100,
{
    if elapsed_ms(state, edge.now) >= DEBOUNCE_MS {
        lemma_div_is_ordered_by_denominator(
            CALIBRATION as int,
            DEBOUNCE_MS as int,
            elapsed_ms(state, edge.now) as int,
        );
    }
}

/// A sample from a record is a reading between one and a hundred, or none.
pub proof fn lemma_sample_in_range(state: PulseState, edges: Seq<Edge>)
    ensures
        sampled(state, edges).reading matches Some(value) ==> 1 <= value <= 100,
        sampled(state, edges).taken <= edges.len(),
        sampled(state, edges).reading is None ==> sampled(state, edges).taken == edges.len(),
    decreases edges.len(),
{
    if edges.len() > 0 {
        lemma_reading_in_range(state, edges[0]);
        lemma_sample_in_range(stepped(state, edges[0]).0, edges.skip(1));
    }
}

/// Averaging takes at most as many readings as were asked for, and every
/// one of them is at least one: no mean is ever zero.
pub proof fn lemma_collected_in_range(state: PulseState, edges: Seq<Edge>, count: nat)
    ensures
        collected(state, edges, count).1.len() <= count,
        forall|i: int|
            0 <= i < collected(state, edges, count).1.len() ==> 1 <= #[trigger] collected(
                state,
                edges,
                count,
            ).1[i] <= 100,
    decreases count,
{
    if count > 0 {
        let first = sampled(state, edges);
        lemma_sample_in_range(state, edges);
        if first.reading is Some {
            lemma_collected_in_range(
                first.state,
                edges.skip(first.taken as int),
                (count - 1) as nat,
            );
        }
    }
}

} // verus!
