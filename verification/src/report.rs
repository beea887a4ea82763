//! The reporting cycle.
//!
//! After boot the node waits for the link, then for an address, and then
//! repeats: read the sensor, connect to the collector with a bounded number
//! of attempts, send the reading, flush, drain the answer, pause. Whenever
//! nothing useful can go on (no link, no signal from the sensor, the
//! collector out of reach) it decides to sleep, and that decision stands.
//!
//! The cycle is a state machine. A [`Phase`] says what the firmware is doing
//! at the moment ([`Phase::action`]); when that is done the firmware reports
//! an [`Event`] and [`Phase::step`] gives the next phase.

use vstd::prelude::*;
use crate::average::Mean;

verus! {

/// How often the link status is polled before the node gives up.
pub const LINK_POLLS: u8 = 10;

/// Pause between two polls of the link status, in milliseconds.
pub const LINK_POLL_GAP_MS: u64 = 1000;

/// Pause between two polls for an address, in milliseconds.
pub const ADDRESS_POLL_GAP_MS: u64 = 500;

/// Number of readings that are averaged into one reported value.
pub const SAMPLES_PER_REPORT: u8 = 4;

/// Time allowed for the sensor to deliver those readings, in milliseconds.
pub const SENSOR_TIMEOUT_MS: u64 = 5000;

/// How often a connection to the collector is attempted in one upload.
pub const CONNECT_ATTEMPTS: u8 = 5;

/// Time allowed for one connection attempt, in milliseconds.
pub const CONNECT_TIMEOUT_MS: u64 = 10000;

/// Pause after a connection attempt that may be retried, in milliseconds.
pub const CONNECT_RETRY_GAP_MS: u64 = 1000;

/// Pause between two iterations of the cycle, in milliseconds.
pub const ITERATION_GAP_MS: u64 = 500;

/// Why a connection attempt failed.
#[derive(Clone, Copy, Debug, PartialEq, Eq, Structural)]
pub enum ConnectFailure {
    /// The socket was already connected or listening.
    InvalidState,
    /// The collector refused the connection.
    ConnectionReset,
    /// The attempt ran out of time.
    TimedOut,
    /// There is no route to the collector.
    NoRoute,
}

/// A connection attempt, sorted by what the upload does about it.
#[derive(Clone, Copy, Debug, PartialEq, Eq, Structural)]
pub enum AttemptOutcome {
    /// The connection stands.
    Connected,
    /// A failure that is likely to pass: wait and try again.
    Retryable(ConnectFailure),
    /// A failure that another attempt would not mend. The upload does not
    /// retry; it goes on with the socket as it is.
    Fatal(ConnectFailure),
}

/// What the firmware reports back after carrying out an [`Action`].
#[derive(Clone, Copy, Debug, PartialEq, Eq)]
pub enum Event {
    /// The link status was read: `true` when the link is up.
    Link(bool),
    /// The address was looked up: `true` when one is assigned.
    Address(bool),
    /// The pause that was asked for is over.
    Elapsed,
    /// The sensor was read: the mean of the readings, or `None` when the
    /// time allowed ran out first.
    Sample(Option<Mean>),
    /// A connection attempt ended.
    Connect(Result<(), ConnectFailure>),
    /// The request was handed to the socket: `true` when that succeeded.
    Written(bool),
    /// The socket was flushed: `true` when that succeeded.
    Flushed(bool),
    /// One read of the answer ended: the number of bytes, or `None` on a
    /// read error.
    Read(Option<usize>),
}

/// What the firmware has to do in a [`Phase`].
#[derive(Clone, Copy, Debug, PartialEq, Eq, Structural)]
pub enum Action {
    /// Read the link status and report [`Event::Link`].
    PollLink,
    /// Look up the assigned address and report [`Event::Address`].
    PollAddress,
    /// Pause for `ms` milliseconds and report [`Event::Elapsed`].
    Wait { ms: u64 },
    /// Average `samples` readings, giving up after `timeout_ms`
    /// milliseconds, and report [`Event::Sample`].
    ReadSensor { samples: u8, timeout_ms: u64 },
    /// Try to connect to the collector, on a fresh socket when `attempt` is
    /// one, allowing `timeout_ms` milliseconds, and report [`Event::Connect`].
    Connect { attempt: u8, timeout_ms: u64 },
    /// Write the request line for `value` and report [`Event::Written`].
    Send { value: Mean },
    /// Flush the socket and report [`Event::Flushed`].
    Flush,
    /// Read from the socket once, discard the bytes, and report
    /// [`Event::Read`].
    Read,
    /// Hand over to the power manager. Nothing is reported after this.
    DeepSleep,
}

/// Where the reporting cycle stands.
#[derive(Clone, Copy, Debug, PartialEq, Eq, Structural)]
pub enum Phase {
    /// The link status is being read for the `attempt`-th time.
    LinkPoll { attempt: u8 },
    /// Pausing after the `attempt`-th poll found the link down.
    LinkGap { attempt: u8 },
    /// The assigned address is being looked up.
    AddressPoll,
    /// Pausing after a lookup found no address.
    AddressGap,
    /// The sensor is being read.
    Sensor,
    /// The `attempt`-th connection attempt of this upload is under way.
    Connect { value: Mean, attempt: u8 },
    /// Pausing after the `attempt`-th attempt failed in a way that may pass.
    ConnectGap { value: Mean, attempt: u8 },
    /// The request line is being written.
    Write { value: Mean },
    /// The socket is being flushed.
    Flush,
    /// The answer is being read and discarded.
    Drain,
    /// Pausing before the next iteration.
    IterationGap,
    /// The node has decided to sleep.
    Sleep,
}

/// Timeouts and resets are expected to pass; other failures are not.
pub open spec fn retryable(failure: ConnectFailure) -> bool {
    failure == ConnectFailure::TimedOut || failure == ConnectFailure::ConnectionReset
}

/// How the outcome of a connection attempt is sorted.
pub open spec fn classified(result: Result<(), ConnectFailure>) -> AttemptOutcome {
    match result {
        Ok(()) => AttemptOutcome::Connected,
        Err(failure) => if retryable(failure) {
            AttemptOutcome::Retryable(failure)
        } else {
            AttemptOutcome::Fatal(failure)
        },
    }
}

/// The action that belongs to a phase.
pub open spec fn action_of(phase: Phase) -> Action {
    match phase {
        Phase::LinkPoll { .. } => Action::PollLink,
        Phase::LinkGap { .. } => Action::Wait { ms: LINK_POLL_GAP_MS },
        Phase::AddressPoll => Action::PollAddress,
        Phase::AddressGap => Action::Wait { ms: ADDRESS_POLL_GAP_MS },
        Phase::Sensor => Action::ReadSensor {
            samples: SAMPLES_PER_REPORT,
            timeout_ms: SENSOR_TIMEOUT_MS,
        },
        Phase::Connect { attempt, .. } => Action::Connect {
            attempt,
            timeout_ms: CONNECT_TIMEOUT_MS,
        },
        Phase::ConnectGap { .. } => Action::Wait { ms: CONNECT_RETRY_GAP_MS },
        Phase::Write { value } => Action::Send { value },
        Phase::Flush => Action::Flush,
        Phase::Drain => Action::Read,
        Phase::IterationGap => Action::Wait { ms: ITERATION_GAP_MS },
        Phase::Sleep => Action::DeepSleep,
    }
}

/// `attempt + 1`, held at the largest value of the type.
pub open spec fn succ(attempt: u8) -> u8 {
    if attempt < u8::MAX {
        (attempt + 1) as u8
    } else {
        attempt
    }
}

/// The phase that follows `phase` when `event` is reported.
///
/// An event that does not answer the action of the phase changes nothing.
pub open spec fn next_phase(phase: Phase, event: Event) -> Phase {
    match phase {
        Phase::LinkPoll { attempt } => match event {
            Event::Link(true) => Phase::AddressPoll,
            Event::Link(false) => if attempt >= LINK_POLLS {
                Phase::Sleep
            } else {
                Phase::LinkGap { attempt }
            },
            _ => phase,
        },
        Phase::LinkGap { attempt } => match event {
            Event::Elapsed => Phase::LinkPoll { attempt: succ(attempt) },
            _ => phase,
        },
        Phase::AddressPoll => match event {
            Event::Address(true) => Phase::Sensor,
            Event::Address(false) => Phase::AddressGap,
            _ => phase,
        },
        Phase::AddressGap => match event {
            Event::Elapsed => Phase::AddressPoll,
            _ => phase,
        },
        Phase::Sensor => match event {
            Event::Sample(Some(value)) => Phase::Connect { value, attempt: 1 },
            Event::Sample(None) => Phase::Sleep,
            _ => phase,
        },
        Phase::Connect { value, attempt } => match event {
            Event::Connect(result) => match classified(result) {
                AttemptOutcome::Connected => Phase::Write { value },
                AttemptOutcome::Retryable(_) => Phase::ConnectGap { value, attempt },
                AttemptOutcome::Fatal(_) => Phase::Write { value },
            },
            _ => phase,
        },
        Phase::ConnectGap { value, attempt } => match event {
            Event::Elapsed => if attempt >= CONNECT_ATTEMPTS {
                Phase::Sleep
            } else {
                Phase::Connect { value, attempt: succ(attempt) }
            },
            _ => phase,
        },
        Phase::Write { .. } => match event {
            Event::Written(true) => Phase::Flush,
            Event::Written(false) => Phase::IterationGap,
            _ => phase,
        },
        Phase::Flush => match event {
            Event::Flushed(true) => Phase::Drain,
            Event::Flushed(false) => Phase::Sensor,
            _ => phase,
        },
        Phase::Drain => match event {
            Event::Read(Some(n)) => if n == 0 {
                Phase::IterationGap
            } else {
                Phase::Drain
            },
            Event::Read(None) => Phase::IterationGap,
            _ => phase,
        },
        Phase::IterationGap => match event {
            Event::Elapsed => Phase::Sensor,
            _ => phase,
        },
        Phase::Sleep => Phase::Sleep,
    }
}

/// Sorts the outcome of a connection attempt: success, a failure worth
/// another attempt (a timeout or a reset), or any other failure.
pub fn classify(result: Result<(), ConnectFailure>) -> (outcome: AttemptOutcome)
    ensures
        outcome == classified(result),
        result is Ok <==> outcome == AttemptOutcome::Connected,
        result matches Err(failure) ==> (outcome == AttemptOutcome::Retryable(failure) <==> (failure
            == ConnectFailure::TimedOut || failure == ConnectFailure::ConnectionReset)),
        result matches Err(failure) ==> (outcome == AttemptOutcome::Fatal(failure) <==> (failure
            == ConnectFailure::InvalidState || failure == ConnectFailure::NoRoute)),
{
    match result {
        Ok(()) => AttemptOutcome::Connected,
        Err(failure) => match failure {
            ConnectFailure::TimedOut => AttemptOutcome::Retryable(failure),
            ConnectFailure::ConnectionReset => AttemptOutcome::Retryable(failure),
            ConnectFailure::InvalidState => AttemptOutcome::Fatal(failure),
            ConnectFailure::NoRoute => AttemptOutcome::Fatal(failure),
        },
    }
}

impl Phase {
    /// The attempt counters are within the bounds that the cycle keeps.
    pub open spec fn well_formed(self) -> bool {
        match self {
            Phase::LinkPoll { attempt } => 1 <= attempt <= LINK_POLLS,
            Phase::LinkGap { attempt } => 1 <= attempt < LINK_POLLS,
            Phase::Connect { attempt, .. } => 1 <= attempt <= CONNECT_ATTEMPTS,
            Phase::ConnectGap { attempt, .. } => 1 <= attempt <= CONNECT_ATTEMPTS,
            _ => true,
        }
    }

    /// The phase after boot: the first poll of the link status.
    pub fn boot() -> (phase: Phase)
        ensures
            phase == (Phase::LinkPoll { attempt: 1 }),
            phase.well_formed(),
    {
        Phase::LinkPoll { attempt: 1 }
    }

    /// Whether the node has decided to sleep.
    pub fn sleep_decided(&self) -> (decided: bool)
        ensures
            decided == (*self == Phase::Sleep),
    {
        match self {
            Phase::Sleep => true,
            _ => false,
        }
    }

    /// What the firmware has to do now.
    pub fn action(&self) -> (action: Action)
        ensures
            action == action_of(*self),
            *self == Phase::Sleep <==> action == Action::DeepSleep,
    {
        match *self {
            Phase::LinkPoll { .. } => Action::PollLink,
            Phase::LinkGap { .. } => Action::Wait { ms: LINK_POLL_GAP_MS },
            Phase::AddressPoll => Action::PollAddress,
            Phase::AddressGap => Action::Wait { ms: ADDRESS_POLL_GAP_MS },
            Phase::Sensor => Action::ReadSensor {
                samples: SAMPLES_PER_REPORT,
                timeout_ms: SENSOR_TIMEOUT_MS,
            },
            Phase::Connect { attempt, .. } => Action::Connect {
                attempt,
                timeout_ms: CONNECT_TIMEOUT_MS,
            },
            Phase::ConnectGap { .. } => Action::Wait { ms: CONNECT_RETRY_GAP_MS },
            Phase::Write { value } => Action::Send { value },
            Phase::Flush => Action::Flush,
            Phase::Drain => Action::Read,
            Phase::IterationGap => Action::Wait { ms: ITERATION_GAP_MS },
            Phase::Sleep => Action::DeepSleep,
        }
    }

    /// The phase that follows when `event` is reported.
    ///
    /// - Link: up leads to the address lookup; down leads to a pause and the
    ///   next poll, and at the last poll to the decision to sleep.
    /// - Address: polled without bound until one is assigned.
    /// - Sensor: a mean starts the upload; a timeout decides for sleep.
    /// - Connect: success and failures that are not worth a retry lead to the
    ///   write; a timeout or reset leads to a pause and the next attempt, and
    ///   after the last attempt to the decision to sleep.
    /// - Write: a failure ends the iteration; otherwise the socket is flushed.
    /// - Flush: a failure starts a fresh iteration at once.
    /// - Drain: reads go on until the peer closes or a read fails.
    /// - The decision to sleep is never taken back.
    ///
    /// An event that does not answer the action of the phase changes nothing.
    pub fn step(self, event: Event) -> (next: Phase)
        ensures
            next == next_phase(self, event),
            self.well_formed() ==> next.well_formed(),
            self == Phase::Sleep ==> next == Phase::Sleep,
            self == Phase::Flush && event == Event::Flushed(false) ==> next == Phase::Sensor,
    {
        match self {
            Phase::LinkPoll { attempt } => match event {
                Event::Link(up) => {
                    if up {
                        Phase::AddressPoll
                    } else if attempt >= LINK_POLLS {
                        Phase::Sleep
                    } else {
                        Phase::LinkGap { attempt }
                    }
                },
                _ => self,
            },
            Phase::LinkGap { attempt } => match event {
                Event::Elapsed => Phase::LinkPoll { attempt: attempt.saturating_add(1) },
                _ => self,
            },
            Phase::AddressPoll => match event {
                Event::Address(assigned) => {
                    if assigned {
                        Phase::Sensor
                    } else {
                        Phase::AddressGap
                    }
                },
                _ => self,
            },
            Phase::AddressGap => match event {
                Event::Elapsed => Phase::AddressPoll,
                _ => self,
            },
            Phase::Sensor => match event {
                Event::Sample(Some(value)) => Phase::Connect { value, attempt: 1 },
                Event::Sample(None) => Phase::Sleep,
                _ => self,
            },
            Phase::Connect { value, attempt } => match event {
                Event::Connect(result) => match classify(result) {
                    AttemptOutcome::Connected => Phase::Write { value },
                    AttemptOutcome::Retryable(_) => Phase::ConnectGap { value, attempt },
                    AttemptOutcome::Fatal(_) => Phase::Write { value },
                },
                _ => self,
            },
            Phase::ConnectGap { value, attempt } => match event {
                Event::Elapsed => {
                    if attempt >= CONNECT_ATTEMPTS {
                        Phase::Sleep
                    } else {
                        Phase::Connect { value, attempt: attempt.saturating_add(1) }
                    }
                },
                _ => self,
            },
            Phase::Write { .. } => match event {
                Event::Written(ok) => {
                    if ok {
                        Phase::Flush
                    } else {
                        Phase::IterationGap
                    }
                },
                _ => self,
            },
            Phase::Flush => match event {
                Event::Flushed(ok) => {
                    if ok {
                        Phase::Drain
                    } else {
                        Phase::Sensor
                    }
                },
                _ => self,
            },
            Phase::Drain => match event {
                Event::Read(Some(n)) => {
                    if n == 0 {
                        Phase::IterationGap
                    } else {
                        Phase::Drain
                    }
                },
                Event::Read(None) => Phase::IterationGap,
                _ => self,
            },
            Phase::IterationGap => match event {
                Event::Elapsed => Phase::Sensor,
                _ => self,
            },
            Phase::Sleep => Phase::Sleep,
        }
    }
}

} // verus!
