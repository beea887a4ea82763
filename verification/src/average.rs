//! Averaging of successive velocity readings.
//!
//! A mean is kept as an exact fraction, the sum of the readings over their
//! number; the firmware divides when it needs a decimal value.

use vstd::prelude::*;

verus! {

/// The arithmetic mean of a run of readings, as the fraction `sum / count`.
#[derive(Clone, Copy, Debug, PartialEq, Eq, Structural)]
pub struct Mean {
    /// Sum of the readings.
    pub sum: u32,
    /// Number of readings that were summed.
    pub count: u8,
}

/// Sum of a sequence of readings.
pub open spec fn total(readings: Seq<u8>) -> nat
    decreases readings.len(),
{
    if readings.len() == 0 {
        0
    } else {
        total(readings.drop_last()) + readings.last() as nat
    }
}

/// The mean of `readings` as a fraction.
pub open spec fn mean_of(readings: Seq<u8>) -> Mean
    recommends
        readings.len() <= u8::MAX,
{
    Mean { sum: total(readings) as u32, count: readings.len() as u8 }
}

/// What an [`Averager`] stands for: how many readings were asked for, and
/// the readings taken so far, oldest first.
pub struct Progress {
    pub wanted: u8,
    pub readings: Seq<u8>,
}

impl Progress {
    /// No reading taken yet.
    pub open spec fn fresh(wanted: u8) -> Progress {
        Progress { wanted, readings: Seq::empty() }
    }

    /// All the readings asked for have been taken.
    pub open spec fn complete(self) -> bool {
        self.readings.len() >= self.wanted
    }

    /// Taking one more reading: it is appended unless the run is complete.
    pub open spec fn add(self, reading: u8) -> Progress {
        if self.complete() {
            self
        } else {
            Progress { wanted: self.wanted, readings: self.readings.push(reading) }
        }
    }

    /// Taking a sequence of readings in order.
    pub open spec fn feed(self, readings: Seq<u8>) -> Progress
        decreases readings.len(),
    {
        if readings.len() == 0 {
            self
        } else {
            self.feed(readings.drop_last()).add(readings.last())
        }
    }
}

/// Accumulates a fixed number of readings into their mean.
pub struct Averager {
    wanted: u8,
    taken: u8,
    sum: u32,
    seen: Ghost<Seq<u8>>,
}

impl View for Averager {
    type V = Progress;

    closed spec fn view(&self) -> Progress {
        Progress { wanted: self.wanted, readings: self.seen@ }
    }
}

impl Averager {
    #[verifier::type_invariant]
    spec fn inv(self) -> bool {
        &&& self.taken <= self.wanted
        &&& self.seen@.len() == self.taken
        &&& self.sum == total(self.seen@)
        &&& self.sum <= 255 * self.taken
    }

    /// An averager that waits for `wanted` readings.
    pub fn new(wanted: u8) -> (averager: Averager)
        ensures
            averager@ == Progress::fresh(wanted),
    {
        Averager { wanted, taken: 0, sum: 0, seen: Ghost(Seq::empty()) }
    }

    /// Whether all the readings asked for have been taken.
    pub fn is_complete(&self) -> (complete: bool)
        ensures
            complete == self@.complete(),
    {
        proof {
            use_type_invariant(self);
        }
        self.taken >= self.wanted
    }

    /// Takes one more reading. A complete averager ignores it.
    pub fn add(&mut self, reading: u8)
        ensures
            final(self)@ == old(self)@.add(reading),
    {
        proof {
            use_type_invariant(&*self);
        }
        if self.taken < self.wanted {
            proof {
                assert(self.seen@.push(reading).drop_last() =~= self.seen@);
            }
            *self = Averager {
                wanted: self.wanted,
                taken: self.taken + 1,
                sum: self.sum + reading as u32,
                seen: Ghost(self.seen@.push(reading)),
            };
        }
    }

    /// The mean of the readings taken so far: their sum over their number.
    ///
    /// With no reading taken both are zero, and the fraction has no value.
    pub fn mean(&self) -> (mean: Mean)
        ensures
            mean == mean_of(self@.readings),
            mean.sum == total(self@.readings),
            mean.count == self@.readings.len(),
    {
        proof {
            use_type_invariant(self);
        }
        Mean { sum: self.sum, count: self.taken }
    }
}

/// A fresh averager that is fed as many readings as it waits for is complete
/// and holds exactly those readings, in the order in which they came: its
/// mean is their sum over their number.
pub proof fn lemma_mean_of_run(readings: Seq<u8>)
    requires
        readings.len() <= u8::MAX,
    ensures
        Progress::fresh(readings.len() as u8).feed(readings).readings == readings,
        Progress::fresh(readings.len() as u8).feed(readings).complete(),
        readings.len() >= 1 ==> !Progress::fresh(readings.len() as u8).feed(
            readings.drop_last(),
        ).complete(),
{
    lemma_feed_prefix(readings.len() as u8, readings);
    if readings.len() >= 1 {
        lemma_feed_prefix(readings.len() as u8, readings.drop_last());
    }
}

/// While no more readings come than were asked for, every one is kept.
pub proof fn lemma_feed_prefix(wanted: u8, readings: Seq<u8>)
    requires
        readings.len() <= wanted,
    ensures
        Progress::fresh(wanted).feed(readings).readings == readings,
        Progress::fresh(wanted).feed(readings).wanted == wanted,
    decreases readings.len(),
{
    if readings.len() > 0 {
        lemma_feed_prefix(wanted, readings.drop_last());
        assert(readings.drop_last().push(readings.last()) =~= readings);
    }
}

/// Readings that come after the run is complete change nothing.
pub proof fn lemma_feed_saturates(wanted: u8, readings: Seq<u8>)
    requires
        readings.len() >= wanted,
    ensures
        Progress::fresh(wanted).feed(readings).readings == readings.take(wanted as int),
        Progress::fresh(wanted).feed(readings).wanted == wanted,
    decreases readings.len(),
{
    if readings.len() == wanted {
        lemma_feed_prefix(wanted, readings);
        assert(readings.take(wanted as int) =~= readings);
    } else {
        lemma_feed_saturates(wanted, readings.drop_last());
        assert(readings.drop_last().take(wanted as int) =~= readings.take(wanted as int));
        assert(readings.take(wanted as int).len() == wanted);
    }
}

/// The sum of `n` readings is at most `255 * n`, so the sum of at most 255
/// readings fits a [`Mean`]; and it is at least `n` when every reading is at
/// least one, so a mean of such readings is at least one.
pub proof fn lemma_total_bounds(readings: Seq<u8>)
    ensures
        total(readings) <= 255 * readings.len(),
        (forall|i: int| 0 <= i < readings.len() ==> readings[i] >= 1) ==> total(readings)
            >= readings.len(),
    decreases readings.len(),
{
    if readings.len() > 0 {
        lemma_total_bounds(readings.drop_last());
    }
}

} // verus!
