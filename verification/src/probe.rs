//! The activity probe: is the encoder producing any signal at all?
//!
//! The probe takes a number of readings, pausing between one and the next,
//! while a timer runs against it: twice the number of readings times the
//! pause. If the last reading comes before the timer fires, the sensor is
//! there and turning; if the timer fires first, it is not.
//!
//! [`Probe`] holds where the probe stands. The firmware carries out
//! [`Probe::action`], reports a [`ProbeEvent`], and [`Probe::step`] gives the
//! next state; it reports [`ProbeEvent::TimedOut`] when the timer fires.

use vstd::prelude::*;

verus! {

/// Readings that a probe takes unless told otherwise.
pub const PROBE_TRIES: u64 = 3;

/// Pause between two readings unless told otherwise, in milliseconds.
pub const PROBE_GAP_MS: u64 = 500;

/// What the firmware reports to a probe.
#[derive(Clone, Copy, Debug, PartialEq, Eq, Structural)]
pub enum ProbeEvent {
    /// The encoder gave a reading.
    Reading,
    /// The pause that was asked for is over.
    Elapsed,
    /// The timer that runs against the probe has fired.
    TimedOut,
}

/// What the firmware has to do for a probe.
#[derive(Clone, Copy, Debug, PartialEq, Eq, Structural)]
pub enum ProbeAction {
    /// Wait for one reading of the encoder and report
    /// [`ProbeEvent::Reading`].
    Sample,
    /// Pause for `ms` milliseconds and report [`ProbeEvent::Elapsed`].
    Wait { ms: u64 },
    /// The probe is over: `active` says whether the encoder gave signal.
    Finish { active: bool },
}

/// Where a probe stands.
#[derive(Clone, Copy, Debug, PartialEq, Eq, Structural)]
pub enum Probe {
    /// Waiting for a reading; `left` readings are still to come, this one
    /// included.
    Sampling { left: u64, gap_ms: u64 },
    /// Pausing between two readings; `left` readings are still to come.
    Pausing { left: u64, gap_ms: u64 },
    /// Over, with the verdict.
    Done { active: bool },
}

/// The state of a probe that is to take `tries` readings with a pause of
/// `gap_ms` milliseconds between one and the next. With no reading to take
/// it is over at once, and the verdict is that the encoder is active.
pub open spec fn started(tries: u64, gap_ms: u64) -> Probe {
    if tries == 0 {
        Probe::Done { active: true }
    } else {
        Probe::Sampling { left: tries, gap_ms }
    }
}

/// The time after which the timer fires: twice the number of readings times
/// the pause.
pub open spec fn probe_timeout(tries: u64, gap_ms: u64) -> int {
    2 * tries * gap_ms
}

/// The action that belongs to a state.
pub open spec fn probe_action_of(probe: Probe) -> ProbeAction {
    match probe {
        Probe::Sampling { .. } => ProbeAction::Sample,
        Probe::Pausing { gap_ms, .. } => ProbeAction::Wait { ms: gap_ms },
        Probe::Done { active } => ProbeAction::Finish { active },
    }
}

/// The state that follows `probe` when `event` is reported.
///
/// The last reading ends the probe with the verdict `true`; every reading
/// before it is followed by a pause. The timer ends a probe that is not over
/// with the verdict `false`. A probe that is over stays as it is. Otherwise
/// an event that does not answer the action of the state changes nothing.
pub open spec fn next_probe(probe: Probe, event: ProbeEvent) -> Probe {
    match probe {
        Probe::Sampling { left, gap_ms } => match event {
            ProbeEvent::Reading => if left <= 1 {
                Probe::Done { active: true }
            } else {
                Probe::Pausing { left: (left - 1) as u64, gap_ms }
            },
            ProbeEvent::Elapsed => probe,
            ProbeEvent::TimedOut => Probe::Done { active: false },
        },
        Probe::Pausing { left, gap_ms } => match event {
            ProbeEvent::Reading => probe,
            ProbeEvent::Elapsed => Probe::Sampling { left, gap_ms },
            ProbeEvent::TimedOut => Probe::Done { active: false },
        },
        Probe::Done { .. } => probe,
    }
}

impl Probe {
    /// Starts a probe of `tries` readings with a pause of `gap_ms`
    /// milliseconds between one and the next.
    pub fn start(tries: u64, gap_ms: u64) -> (probe: Probe)
        ensures
            probe == started(tries, gap_ms),
    {
        if tries == 0 {
            Probe::Done { active: true }
        } else {
            Probe::Sampling { left: tries, gap_ms }
        }
    }

    /// The time in milliseconds after which the timer that runs against the
    /// probe fires: `2 * tries * gap_ms`. `None` when that does not fit the
    /// type.
    pub fn timeout_ms(tries: u64, gap_ms: u64) -> (timeout: Option<u64>)
        ensures
            timeout is Some <==> probe_timeout(tries, gap_ms) <= u64::MAX,
            timeout matches Some(ms) ==> ms == probe_timeout(tries, gap_ms),
    {
        assert(2 * tries * gap_ms == (tries * gap_ms) * 2) by (nonlinear_arith);
        match tries.checked_mul(gap_ms) {
            Some(pauses) => pauses.checked_mul(2),
            None => None,
        }
    }

    /// What the firmware has to do now.
    pub fn action(&self) -> (action: ProbeAction)
        ensures
            action == probe_action_of(*self),
    {
        match *self {
            Probe::Sampling { .. } => ProbeAction::Sample,
            Probe::Pausing { gap_ms, .. } => ProbeAction::Wait { ms: gap_ms },
            Probe::Done { active } => ProbeAction::Finish { active },
        }
    }

    /// The verdict, once the probe is over.
    pub fn verdict(&self) -> (verdict: Option<bool>)
        ensures
            verdict == match *self {
                Probe::Done { active } => Some(active),
                _ => None::<bool>,
            },
    {
        match *self {
            Probe::Done { active } => Some(active),
            _ => None,
        }
    }

    /// The state that follows when `event` is reported.
    ///
    /// - With the last reading the probe is over and the encoder is active.
    /// - Every reading before the last is followed by a pause, and after the
    ///   pause the next reading is awaited.
    /// - When the timer fires before the last reading, the probe is over and
    ///   the encoder is not active.
    /// - A probe that is over stays over, with its verdict.
    pub fn step(self, event: ProbeEvent) -> (next: Probe)
        ensures
            next == next_probe(self, event),
            self is Done ==> next == self,
            !(self is Done) && event == ProbeEvent::TimedOut ==> next == (Probe::Done {
                active: false,
            }),
            self matches Probe::Sampling { left, .. } && left <= 1 && event == ProbeEvent::Reading
                ==> next == (Probe::Done { active: true }),
    {
        match self {
            Probe::Sampling { left, gap_ms } => match event {
                ProbeEvent::Reading => {
                    if left <= 1 {
                        Probe::Done { active: true }
                    } else {
                        Probe::Pausing { left: left - 1, gap_ms }
                    }
                },
                ProbeEvent::Elapsed => self,
                ProbeEvent::TimedOut => Probe::Done { active: false },
            },
            Probe::Pausing { left, gap_ms } => match event {
                ProbeEvent::Reading => self,
                ProbeEvent::Elapsed => Probe::Sampling { left, gap_ms },
                ProbeEvent::TimedOut => Probe::Done { active: false },
            },
            Probe::Done { .. } => self,
        }
    }
}

} // verus!
