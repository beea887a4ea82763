//! The wireless association cycle.
//!
//! A task of its own keeps the node associated for as long as it runs: while
//! associated it waits for the disconnect notification and lets the radio
//! cool down; otherwise it starts the radio if need be and tries to connect,
//! backing off after a failure. It never gives up and returns nothing; the
//! rest of the node sees its work only in the link status.
//!
//! [`LinkPhase`] says what the task is doing ([`LinkPhase::action`]), and
//! [`LinkPhase::step`] gives the next phase for what the firmware reports.

use vstd::prelude::*;

verus! {

/// Pause after a disconnect before the link is looked at again, in
/// milliseconds.
pub const DISCONNECT_COOLDOWN_MS: u64 = 5000;

/// Pause after a failed attempt to connect, in milliseconds.
pub const CONNECT_BACKOFF_MS: u64 = 1000;

/// What the firmware reports back after carrying out a [`LinkAction`].
#[derive(Clone, Copy, Debug, PartialEq, Eq)]
pub enum LinkEvent {
    /// The association status was read: `true` when associated.
    Association(bool),
    /// The disconnect notification arrived.
    Disconnected,
    /// The pause that was asked for is over.
    Elapsed,
    /// The radio was asked whether it is started: its answer, or `None`
    /// when the query itself failed.
    Started(Option<bool>),
    /// Credentials were applied and the radio was started: `true` when both
    /// succeeded.
    StartDone(bool),
    /// An attempt to connect ended: `true` when it succeeded.
    ConnectDone(bool),
}

/// What the firmware has to do in a [`LinkPhase`].
#[derive(Clone, Copy, Debug, PartialEq, Eq, Structural)]
pub enum LinkAction {
    /// Read the association status and report [`LinkEvent::Association`].
    CheckAssociation,
    /// Wait for the disconnect notification and report
    /// [`LinkEvent::Disconnected`].
    AwaitDisconnect,
    /// Pause for `ms` milliseconds and report [`LinkEvent::Elapsed`].
    Wait { ms: u64 },
    /// Ask the radio whether it is started and report
    /// [`LinkEvent::Started`].
    CheckStarted,
    /// Apply the stored credentials, start the radio, and report
    /// [`LinkEvent::StartDone`].
    Start,
    /// Try to connect and report [`LinkEvent::ConnectDone`].
    Connect,
}

/// Where the association cycle stands.
#[derive(Clone, Copy, Debug, PartialEq, Eq, Structural)]
pub enum LinkPhase {
    /// At the top of the cycle: the association status is being read.
    Evaluating,
    /// Associated: waiting for the disconnect notification.
    Connected,
    /// Cooling down after a disconnect.
    Disconnected,
    /// Not associated: the radio is being asked whether it is started.
    NotStarted,
    /// Credentials are being applied and the radio started.
    Starting,
    /// An attempt to connect is under way.
    Connecting,
    /// Backing off after a failed attempt to connect.
    BackingOff,
}

/// The action that belongs to a phase.
pub open spec fn link_action_of(phase: LinkPhase) -> LinkAction {
    match phase {
        LinkPhase::Evaluating => LinkAction::CheckAssociation,
        LinkPhase::Connected => LinkAction::AwaitDisconnect,
        LinkPhase::Disconnected => LinkAction::Wait { ms: DISCONNECT_COOLDOWN_MS },
        LinkPhase::NotStarted => LinkAction::CheckStarted,
        LinkPhase::Starting => LinkAction::Start,
        LinkPhase::Connecting => LinkAction::Connect,
        LinkPhase::BackingOff => LinkAction::Wait { ms: CONNECT_BACKOFF_MS },
    }
}

/// The phase that follows `phase` when `event` is reported.
///
/// An event that does not answer the action of the phase changes nothing.
pub open spec fn next_link_phase(phase: LinkPhase, event: LinkEvent) -> LinkPhase {
    match phase {
        LinkPhase::Evaluating => match event {
            LinkEvent::Association(true) => LinkPhase::Connected,
            LinkEvent::Association(false) => LinkPhase::NotStarted,
            _ => phase,
        },
        LinkPhase::Connected => match event {
            LinkEvent::Disconnected => LinkPhase::Disconnected,
            _ => phase,
        },
        LinkPhase::Disconnected => match event {
            LinkEvent::Elapsed => LinkPhase::Evaluating,
            _ => phase,
        },
        LinkPhase::NotStarted => match event {
            LinkEvent::Started(Some(true)) => LinkPhase::Connecting,
            LinkEvent::Started(Some(false)) => LinkPhase::Starting,
            LinkEvent::Started(None) => LinkPhase::Connecting,
            _ => phase,
        },
        LinkPhase::Starting => match event {
            LinkEvent::StartDone(true) => LinkPhase::Connecting,
            LinkEvent::StartDone(false) => LinkPhase::Evaluating,
            _ => phase,
        },
        LinkPhase::Connecting => match event {
            LinkEvent::ConnectDone(true) => LinkPhase::Evaluating,
            LinkEvent::ConnectDone(false) => LinkPhase::BackingOff,
            _ => phase,
        },
        LinkPhase::BackingOff => match event {
            LinkEvent::Elapsed => LinkPhase::Evaluating,
            _ => phase,
        },
    }
}

/// The event answers the action of the phase.
pub open spec fn answers(phase: LinkPhase, event: LinkEvent) -> bool {
    match phase {
        LinkPhase::Evaluating => event is Association,
        LinkPhase::Connected => event == LinkEvent::Disconnected,
        LinkPhase::Disconnected => event == LinkEvent::Elapsed,
        LinkPhase::NotStarted => event is Started,
        LinkPhase::Starting => event is StartDone,
        LinkPhase::Connecting => event is ConnectDone,
        LinkPhase::BackingOff => event == LinkEvent::Elapsed,
    }
}

impl LinkPhase {
    /// The phase in which the task starts: at the top of the cycle.
    pub fn initial() -> (phase: LinkPhase)
        ensures
            phase == LinkPhase::Evaluating,
    {
        LinkPhase::Evaluating
    }

    /// What the firmware has to do now.
    pub fn action(&self) -> (action: LinkAction)
        ensures
            action == link_action_of(*self),
    {
        match *self {
            LinkPhase::Evaluating => LinkAction::CheckAssociation,
            LinkPhase::Connected => LinkAction::AwaitDisconnect,
            LinkPhase::Disconnected => LinkAction::Wait { ms: DISCONNECT_COOLDOWN_MS },
            LinkPhase::NotStarted => LinkAction::CheckStarted,
            LinkPhase::Starting => LinkAction::Start,
            LinkPhase::Connecting => LinkAction::Connect,
            LinkPhase::BackingOff => LinkAction::Wait { ms: CONNECT_BACKOFF_MS },
        }
    }

    /// The phase that follows when `event` is reported.
    ///
    /// - Associated: wait for the disconnect, cool down, look again.
    /// - Not associated: ask whether the radio is started. If it is, or if
    ///   the query fails, connect; if it is not, start it first.
    /// - A failed start ends the iteration: the cycle begins again at the
    ///   top.
    /// - After a connect the cycle begins again at the top, at once when it
    ///   succeeded and after backing off when it failed.
    ///
    /// An event that does not answer the action of the phase changes nothing.
    pub fn step(self, event: LinkEvent) -> (next: LinkPhase)
        ensures
            next == next_link_phase(self, event),
            !answers(self, event) ==> next == self,
    {
        match self {
            LinkPhase::Evaluating => match event {
                LinkEvent::Association(associated) => {
                    if associated {
                        LinkPhase::Connected
                    } else {
                        LinkPhase::NotStarted
                    }
                },
                _ => self,
            },
            LinkPhase::Connected => match event {
                LinkEvent::Disconnected => LinkPhase::Disconnected,
                _ => self,
            },
            LinkPhase::Disconnected => match event {
                LinkEvent::Elapsed => LinkPhase::Evaluating,
                _ => self,
            },
            LinkPhase::NotStarted => match event {
                LinkEvent::Started(Some(started)) => {
                    if started {
                        LinkPhase::Connecting
                    } else {
                        LinkPhase::Starting
                    }
                },
                LinkEvent::Started(None) => LinkPhase::Connecting,
                _ => self,
            },
            LinkPhase::Starting => match event {
                LinkEvent::StartDone(ok) => {
                    if ok {
                        LinkPhase::Connecting
                    } else {
                        LinkPhase::Evaluating
                    }
                },
                _ => self,
            },
            LinkPhase::Connecting => match event {
                LinkEvent::ConnectDone(ok) => {
                    if ok {
                        LinkPhase::Evaluating
                    } else {
                        LinkPhase::BackingOff
                    }
                },
                _ => self,
            },
            LinkPhase::BackingOff => match event {
                LinkEvent::Elapsed => LinkPhase::Evaluating,
                _ => self,
            },
        }
    }
}

/// The cycle never ends: in every phase some report takes it on, and the
/// report that answers the action of a phase always leads to another phase.
pub proof fn lemma_link_never_stops(phase: LinkPhase)
    ensures
        exists|event: LinkEvent| #[trigger] answers(phase, event),
        forall|event: LinkEvent| #[trigger]
            answers(phase, event) ==> next_link_phase(phase, event) != phase,
{
    match phase {
        LinkPhase::Evaluating => {
            assert(answers(phase, LinkEvent::Association(true)));
        },
        LinkPhase::Connected => {
            assert(answers(phase, LinkEvent::Disconnected));
        },
        LinkPhase::Disconnected => {
            assert(answers(phase, LinkEvent::Elapsed));
        },
        LinkPhase::NotStarted => {
            assert(answers(phase, LinkEvent::Started(None)));
        },
        LinkPhase::Starting => {
            assert(answers(phase, LinkEvent::StartDone(true)));
        },
        LinkPhase::Connecting => {
            assert(answers(phase, LinkEvent::ConnectDone(true)));
        },
        LinkPhase::BackingOff => {
            assert(answers(phase, LinkEvent::Elapsed));
        },
    }
}

/// A connect is attempted only after the radio was seen started, was
/// started with success, or could not be asked: the phase before
/// `Connecting` is `NotStarted` or `Starting`.
pub proof fn lemma_connect_follows_start(phase: LinkPhase, event: LinkEvent)
    requires
        phase != LinkPhase::Connecting,
        next_link_phase(phase, event) == LinkPhase::Connecting,
    ensures
        (phase == LinkPhase::NotStarted && (event == LinkEvent::Started(Some(true)) || event
            == LinkEvent::Started(None))) || (phase == LinkPhase::Starting && event
            == LinkEvent::StartDone(true)),
{
}

/// Every pause of the cycle is one of the two cooldowns, the long one after
/// a disconnect and the short one after a failed connect, and each is
/// followed by a fresh look at the association status.
pub proof fn lemma_link_pauses(phase: LinkPhase, ms: u64)
    requires
        link_action_of(phase) == (LinkAction::Wait { ms }),
    ensures
        (phase == LinkPhase::Disconnected && ms == DISCONNECT_COOLDOWN_MS) || (phase
            == LinkPhase::BackingOff && ms == CONNECT_BACKOFF_MS),
        next_link_phase(phase, LinkEvent::Elapsed) == LinkPhase::Evaluating,
{
}

} // verus!
