//! One probe of one server, as a state machine.
//!
//! A probe is a race between the exchange with the server and a deadline.
//! The machine decides; its caller does the work. The caller hands in what
//! has happened as a [`ProbeEvent`] and carries out the [`ProbeAction`] that
//! comes back: it opens the one connection of the probe, and it tears down
//! whichever side has lost the race.

use vstd::prelude::*;
use crate::address::{parse_address, target_of, ProbeTarget, ProbeTargetView};
use crate::status::{StatusError, StatusResponseDef, StatusResponseView};

verus! {

/// The deadline of the plain-text endpoint, in seconds.
pub const TEXT_DEADLINE_SECS: u64 = 2;

/// The deadline of the structured endpoint, in seconds.
pub const JSON_DEADLINE_SECS: u64 = 5;

/// The two endpoints a probe can be made for.
#[derive(Debug, Clone, Copy, PartialEq, Eq, Structural)]
pub enum Endpoint {
    /// The terse answer for a human reader.
    Text,
    /// The structured answer.
    Json,
}

impl Endpoint {
    /// How long a probe for this endpoint may take, in seconds.
    pub open spec fn deadline(self) -> u64 {
        match self {
            Endpoint::Text => TEXT_DEADLINE_SECS,
            Endpoint::Json => JSON_DEADLINE_SECS,
        }
    }

    /// How long a probe for this endpoint may take, in seconds.
    pub fn deadline_secs(&self) -> (secs: u64)
        ensures
            secs == self.deadline(),
    {
        match self {
            Endpoint::Text => TEXT_DEADLINE_SECS,
            Endpoint::Json => JSON_DEADLINE_SECS,
        }
    }
}

/// How a probe ended.
#[derive(Debug, Clone, PartialEq, Eq)]
pub enum ProbeOutcome {
    /// The server answered in time.
    Success(StatusResponseDef),
    /// The exchange failed before the deadline, for whatever reason.
    ProtocolFailure,
    /// The deadline passed before the exchange ended.
    Timeout,
    /// The address named no host; no connection was opened.
    InvalidInput,
}

/// The mathematical content of a [`ProbeOutcome`].
pub enum ProbeOutcomeView {
    Success(StatusResponseView),
    ProtocolFailure,
    Timeout,
    InvalidInput,
}

impl View for ProbeOutcome {
    type V = ProbeOutcomeView;

    open spec fn view(&self) -> ProbeOutcomeView {
        match self {
            ProbeOutcome::Success(record) => ProbeOutcomeView::Success(record@),
            ProbeOutcome::ProtocolFailure => ProbeOutcomeView::ProtocolFailure,
            ProbeOutcome::Timeout => ProbeOutcomeView::Timeout,
            ProbeOutcome::InvalidInput => ProbeOutcomeView::InvalidInput,
        }
    }
}

impl ProbeOutcomeView {
    /// The error tag of a failure; `None` for a success.
    pub open spec fn error(self) -> Option<StatusError> {
        match self {
            ProbeOutcomeView::Success(_) => None,
            ProbeOutcomeView::ProtocolFailure => Some(StatusError::ProtocolError),
            ProbeOutcomeView::Timeout => Some(StatusError::Timeout),
            ProbeOutcomeView::InvalidInput => Some(StatusError::InvalidInput),
        }
    }
}

impl ProbeOutcome {
    /// The error tag of a failure; `None` for a success.
    pub fn error(&self) -> (error: Option<StatusError>)
        ensures
            error == self@.error(),
    {
        match self {
            ProbeOutcome::Success(_) => None,
            ProbeOutcome::ProtocolFailure => Some(StatusError::ProtocolError),
            ProbeOutcome::Timeout => Some(StatusError::Timeout),
            ProbeOutcome::InvalidInput => Some(StatusError::InvalidInput),
        }
    }
}

/// Where a probe stands.
#[derive(Debug, Clone, PartialEq, Eq)]
pub enum ProbeState {
    /// Nothing has been asked yet.
    Idle,
    /// The exchange and the deadline are racing.
    InFlight,
    /// The probe has ended, and how.
    Done(ProbeOutcome),
}

/// The mathematical content of a [`ProbeState`].
pub enum ProbeStateView {
    Idle,
    InFlight,
    Done(ProbeOutcomeView),
}

impl View for ProbeState {
    type V = ProbeStateView;

    open spec fn view(&self) -> ProbeStateView {
        match self {
            ProbeState::Idle => ProbeStateView::Idle,
            ProbeState::InFlight => ProbeStateView::InFlight,
            ProbeState::Done(outcome) => ProbeStateView::Done(outcome@),
        }
    }
}

/// What has happened.
#[derive(Debug, Clone, PartialEq, Eq)]
pub enum ProbeEvent {
    /// A request has come in for an address.
    Requested { address: String, endpoint: Endpoint },
    /// The exchange has ended with a status record.
    Answered(StatusResponseDef),
    /// The exchange has ended with an error.
    Failed,
    /// The deadline has passed.
    DeadlineElapsed,
}

/// The mathematical content of a [`ProbeEvent`].
pub enum ProbeEventView {
    Requested { address: Seq<char>, endpoint: Endpoint },
    Answered(StatusResponseView),
    Failed,
    DeadlineElapsed,
}

impl View for ProbeEvent {
    type V = ProbeEventView;

    open spec fn view(&self) -> ProbeEventView {
        match self {
            ProbeEvent::Requested { address, endpoint } => ProbeEventView::Requested {
                address: address@,
                endpoint: *endpoint,
            },
            ProbeEvent::Answered(record) => ProbeEventView::Answered(record@),
            ProbeEvent::Failed => ProbeEventView::Failed,
            ProbeEvent::DeadlineElapsed => ProbeEventView::DeadlineElapsed,
        }
    }
}

/// What the caller is to do next.
#[derive(Debug, Clone, PartialEq, Eq)]
pub enum ProbeAction {
    /// Open a connection to the target and start the exchange; start a
    /// timer that runs for the given number of seconds.
    Connect { target: ProbeTarget, deadline_secs: u64 },
    /// The exchange has ended first: stop the timer.
    StopTimer,
    /// The deadline has passed first: drop the connection, and take nothing
    /// more from it.
    AbandonExchange,
    /// Nothing is to be done.
    Nothing,
}

/// The mathematical content of a [`ProbeAction`].
pub enum ProbeActionView {
    Connect { target: ProbeTargetView, deadline_secs: u64 },
    StopTimer,
    AbandonExchange,
    Nothing,
}

impl View for ProbeAction {
    type V = ProbeActionView;

    open spec fn view(&self) -> ProbeActionView {
        match self {
            ProbeAction::Connect { target, deadline_secs } => ProbeActionView::Connect {
                target: target@,
                deadline_secs: *deadline_secs,
            },
            ProbeAction::StopTimer => ProbeActionView::StopTimer,
            ProbeAction::AbandonExchange => ProbeActionView::AbandonExchange,
            ProbeAction::Nothing => ProbeActionView::Nothing,
        }
    }
}

/// The state after an event, and the action the event calls for.
///
/// A request starts the race, or ends the probe at once if its address
/// names no host. While the race is on, whichever of the exchange and the
/// deadline comes first decides the outcome. Every other event leaves the
/// state as it is and calls for nothing: a second request opens no second
/// connection, and what arrives after the probe has ended is not looked at.
pub open spec fn next(state: ProbeStateView, event: ProbeEventView) -> (
    ProbeStateView,
    ProbeActionView,
) {
    match (state, event) {
        (ProbeStateView::Idle, ProbeEventView::Requested { address, endpoint }) => {
            match target_of(address) {
                Some(target) => (
                    ProbeStateView::InFlight,
                    ProbeActionView::Connect { target, deadline_secs: endpoint.deadline() },
                ),
                None => (
                    ProbeStateView::Done(ProbeOutcomeView::InvalidInput),
                    ProbeActionView::Nothing,
                ),
            }
        },
        (ProbeStateView::InFlight, ProbeEventView::Answered(record)) => (
            ProbeStateView::Done(ProbeOutcomeView::Success(record)),
            ProbeActionView::StopTimer,
        ),
        (ProbeStateView::InFlight, ProbeEventView::Failed) => (
            ProbeStateView::Done(ProbeOutcomeView::ProtocolFailure),
            ProbeActionView::StopTimer,
        ),
        (ProbeStateView::InFlight, ProbeEventView::DeadlineElapsed) => (
            ProbeStateView::Done(ProbeOutcomeView::Timeout),
            ProbeActionView::AbandonExchange,
        ),
        _ => (state, ProbeActionView::Nothing),
    }
}

/// Takes one event.
pub fn step(state: ProbeState, event: ProbeEvent) -> (r: (ProbeState, ProbeAction))
    ensures
        (r.0@, r.1@) == next(state@, event@),
{
    match (state, event) {
        (ProbeState::Idle, ProbeEvent::Requested { address, endpoint }) => {
            match parse_address(address.as_str()) {
                Ok(target) => (
                    ProbeState::InFlight,
                    ProbeAction::Connect { target, deadline_secs: endpoint.deadline_secs() },
                ),
                Err(_) => (ProbeState::Done(ProbeOutcome::InvalidInput), ProbeAction::Nothing),
            }
        },
        (ProbeState::InFlight, ProbeEvent::Answered(record)) => (
            ProbeState::Done(ProbeOutcome::Success(record)),
            ProbeAction::StopTimer,
        ),
        (ProbeState::InFlight, ProbeEvent::Failed) => (
            ProbeState::Done(ProbeOutcome::ProtocolFailure),
            ProbeAction::StopTimer,
        ),
        (ProbeState::InFlight, ProbeEvent::DeadlineElapsed) => (
            ProbeState::Done(ProbeOutcome::Timeout),
            ProbeAction::AbandonExchange,
        ),
        (state, _) => (state, ProbeAction::Nothing),
    }
}

impl ProbeState {
    /// The outcome of the probe, once it has ended.
    pub fn outcome(self) -> (outcome: Option<ProbeOutcome>)
        ensures
            match outcome {
                Some(o) => self@ == ProbeStateView::Done(o@),
                None => !(self@ is Done),
            },
    {
        match self {
            ProbeState::Done(outcome) => Some(outcome),
            _ => None,
        }
    }
}

/// The state after a run of events, from a given state.
pub open spec fn state_after(state: ProbeStateView, events: Seq<ProbeEventView>) -> ProbeStateView
    decreases events.len(),
{
    if events.len() == 0 {
        state
    } else {
        next(state_after(state, events.drop_last()), events.last()).0
    }
}

/// The number of connections that a run of events has opened.
pub open spec fn connections_opened(state: ProbeStateView, events: Seq<ProbeEventView>) -> nat
    decreases events.len(),
{
    if events.len() == 0 {
        0
    } else {
        let before = state_after(state, events.drop_last());
        let opened = connections_opened(state, events.drop_last());
        if next(before, events.last()).1 is Connect {
            opened + 1
        } else {
            opened
        }
    }
}

/// A probe that has ended stays as it ended: no event changes its outcome
/// or calls for an action.
pub proof fn lemma_done_is_final(outcome: ProbeOutcomeView, event: ProbeEventView)
    ensures
        next(ProbeStateView::Done(outcome), event) == (
            ProbeStateView::Done(outcome),
            ProbeActionView::Nothing,
        ),
{
}

/// A connection is opened only for the request that starts the probe, to
/// the target its address names, with the deadline of its endpoint.
pub proof fn lemma_connect_only_on_request(state: ProbeStateView, event: ProbeEventView)
    requires
        next(state, event).1 is Connect,
    ensures
        state is Idle,
        next(state, event).0 is InFlight,
        event matches ProbeEventView::Requested { address, endpoint } && next(state, event).1
            == (ProbeActionView::Connect {
            target: target_of(address).unwrap(),
            deadline_secs: endpoint.deadline(),
        }),
{
}

/// A probe ends as timed out only because its deadline passed while the
/// race was on, and as a protocol failure only because its exchange failed.
pub proof fn lemma_cause_of_failure(state: ProbeStateView, event: ProbeEventView)
    requires
        !(state is Done),
    ensures
        next(state, event).0 == ProbeStateView::Done(ProbeOutcomeView::Timeout) <==> (state
            is InFlight && event is DeadlineElapsed),
        next(state, event).0 == ProbeStateView::Done(ProbeOutcomeView::ProtocolFailure) <==> (
        state is InFlight && event is Failed),
        next(state, event).0 == ProbeStateView::Done(ProbeOutcomeView::InvalidInput) <==> (
        state is Idle && event is Requested && target_of(event->address) is None),
{
}

/// Whatever happens, a probe opens at most one connection: there are no
/// retries. Once a connection has been opened the probe is no longer idle.
pub proof fn lemma_at_most_one_connection(events: Seq<ProbeEventView>)
    ensures
        connections_opened(ProbeStateView::Idle, events) <= 1,
        connections_opened(ProbeStateView::Idle, events) == 1 ==> !(state_after(
            ProbeStateView::Idle,
            events,
        ) is Idle),
    decreases events.len(),
{
    if events.len() > 0 {
        lemma_at_most_one_connection(events.drop_last());
    }
}

} // verus!
