//! The main flow: hand the two background tasks to the scheduler, wait for the
//! link, wait for an address, then idle.
//!
//! As with the supervisor, the flow only decides. It is told what happened
//! ([`FlowEvent`]) and answers with what to do next ([`FlowAction`]). There is
//! no timeout: the flow waits for as long as the link or the address takes.

use vstd::prelude::*;
use crate::fault::Fault;
use crate::notice::{Ipv4Lease, Notice};

verus! {

/// Milliseconds between two looks at the link or the address, and between two
/// heartbeats.
pub const POLL_INTERVAL_MS: u64 = 1000;

/// Where the main flow stands.
#[derive(Clone, Copy, Debug, PartialEq, Eq, Structural)]
pub enum FlowState {
    /// Nothing has been done yet.
    Idle,
    /// The connection supervisor is being handed to the scheduler.
    SpawningSupervisor,
    /// The task that drives the network stack is being handed to the scheduler.
    SpawningStackTask,
    /// The stack is being asked whether the link is up.
    PollingLink,
    /// The link was down; the flow pauses before it asks again.
    LinkBackoff,
    /// The stack is being asked for the address it was assigned.
    PollingAddress,
    /// No address yet; the flow pauses before it asks again.
    AddressBackoff,
    /// Set-up is complete; the flow sleeps between heartbeats.
    Ready,
}

/// The outcome of the last request, or `Boot` to set the flow going.
#[derive(Clone, Copy, Debug, PartialEq, Eq, Structural)]
pub enum FlowEvent {
    Boot,
    /// The scheduler took the task, or did not. The flow goes on either way.
    Spawned { ok: bool },
    Link { up: bool },
    Address(Option<Ipv4Lease>),
    TimerElapsed,
}

/// What the main flow asks its caller to do.
#[derive(Clone, Copy, Debug, PartialEq, Eq, Structural)]
pub enum FlowAction {
    /// Hand the connection supervisor to the scheduler; answer with `Spawned`.
    SpawnSupervisor,
    /// Hand the stack-driving task to the scheduler; answer with `Spawned`.
    SpawnStackTask,
    /// Ask whether the link is up; answer with `Link`.
    PollLink,
    /// Ask for the assigned address; answer with `Address`.
    PollAddress,
    /// Wait this many milliseconds; answer with `TimerElapsed`.
    Sleep(u64),
}

/// The flow's rule: the state that `event` leads to from `state`. An event
/// that does not answer the outstanding request is refused.
pub open spec fn flow_transition(state: FlowState, event: FlowEvent) -> Result<FlowState, Fault> {
    match (state, event) {
        (FlowState::Idle, FlowEvent::Boot) => Ok(FlowState::SpawningSupervisor),
        (FlowState::SpawningSupervisor, FlowEvent::Spawned { ok }) => Ok(
            FlowState::SpawningStackTask,
        ),
        (FlowState::SpawningStackTask, FlowEvent::Spawned { ok }) => Ok(FlowState::PollingLink),
        (FlowState::PollingLink, FlowEvent::Link { up }) => if up {
            Ok(FlowState::PollingAddress)
        } else {
            Ok(FlowState::LinkBackoff)
        },
        (FlowState::LinkBackoff, FlowEvent::TimerElapsed) => Ok(FlowState::PollingLink),
        (FlowState::PollingAddress, FlowEvent::Address(lease)) => if lease is Some {
            Ok(FlowState::Ready)
        } else {
            Ok(FlowState::AddressBackoff)
        },
        (FlowState::AddressBackoff, FlowEvent::TimerElapsed) => Ok(FlowState::PollingAddress),
        (FlowState::Ready, FlowEvent::TimerElapsed) => Ok(FlowState::Ready),
        _ => Err(Fault::UnexpectedEvent),
    }
}

/// The request that is outstanding in `state`: the action that was issued when
/// the flow entered it. Nothing is outstanding before `Boot`.
pub open spec fn flow_pending(state: FlowState) -> Option<FlowAction> {
    match state {
        FlowState::Idle => None,
        FlowState::SpawningSupervisor => Some(FlowAction::SpawnSupervisor),
        FlowState::SpawningStackTask => Some(FlowAction::SpawnStackTask),
        FlowState::PollingLink => Some(FlowAction::PollLink),
        FlowState::LinkBackoff => Some(FlowAction::Sleep(POLL_INTERVAL_MS)),
        FlowState::PollingAddress => Some(FlowAction::PollAddress),
        FlowState::AddressBackoff => Some(FlowAction::Sleep(POLL_INTERVAL_MS)),
        FlowState::Ready => Some(FlowAction::Sleep(POLL_INTERVAL_MS)),
    }
}

/// The log lines that go with an accepted event.
pub open spec fn flow_notices(state: FlowState, event: FlowEvent) -> Seq<Notice> {
    match (state, event) {
        (FlowState::PollingLink, FlowEvent::Link { up: false }) => seq![Notice::WaitingForLink],
        (FlowState::PollingLink, FlowEvent::Link { up: true }) => seq![
            Notice::LinkUp,
            Notice::WaitingForAddress,
        ],
        (FlowState::PollingAddress, FlowEvent::Address(Some(lease))) => seq![
            Notice::AddressAssigned(lease),
            Notice::Heartbeat,
        ],
        (FlowState::Ready, FlowEvent::TimerElapsed) => seq![Notice::Heartbeat],
        _ => seq![],
    }
}

/// One step of the main flow.
pub struct FlowStep {
    /// Where the flow stands now.
    pub next: FlowState,
    /// What to do next.
    pub action: FlowAction,
    /// Lines for the log, in order.
    pub notices: Vec<Notice>,
}

/// The action that is issued on entering `state`.
fn flow_action_on_entry(state: FlowState) -> (a: FlowAction)
    requires
        state != FlowState::Idle,
    ensures
        flow_pending(state) == Some(a),
{
    match state {
        FlowState::Idle | FlowState::SpawningSupervisor => FlowAction::SpawnSupervisor,
        FlowState::SpawningStackTask => FlowAction::SpawnStackTask,
        FlowState::PollingLink => FlowAction::PollLink,
        FlowState::PollingAddress => FlowAction::PollAddress,
        FlowState::LinkBackoff | FlowState::AddressBackoff | FlowState::Ready => FlowAction::Sleep(
            POLL_INTERVAL_MS,
        ),
    }
}

/// The log lines that go with `event` when it is accepted in `state`.
fn flow_notices_for(state: FlowState, event: FlowEvent) -> (v: Vec<Notice>)
    ensures
        v@ == flow_notices(state, event),
{
    let mut v: Vec<Notice> = Vec::new();
    match (state, event) {
        (FlowState::PollingLink, FlowEvent::Link { up: false }) => {
            v.push(Notice::WaitingForLink);
        },
        (FlowState::PollingLink, FlowEvent::Link { up: true }) => {
            v.push(Notice::LinkUp);
            v.push(Notice::WaitingForAddress);
        },
        (FlowState::PollingAddress, FlowEvent::Address(Some(lease))) => {
            v.push(Notice::AddressAssigned(lease));
            v.push(Notice::Heartbeat);
        },
        (FlowState::Ready, FlowEvent::TimerElapsed) => {
            v.push(Notice::Heartbeat);
        },
        _ => {},
    }
    v
}

/// Takes the outcome of the last request and answers with the next one.
///
/// The flow moves as [`flow_transition`] says. An accepted event yields the
/// new state, the request that it stands for and the log lines of the move; any
/// other event is refused as `UnexpectedEvent`.
pub fn flow_step(state: FlowState, event: FlowEvent) -> (r: Result<FlowStep, Fault>)
    ensures
        match flow_transition(state, event) {
            Ok(next) => {
                &&& r matches Ok(step)
                &&& step.next == next
                &&& Some(step.action) == flow_pending(next)
                &&& step.notices@ == flow_notices(state, event)
            },
            Err(f) => r matches Err(e) && e == f,
        },
{
    let next = match (state, event) {
        (FlowState::Idle, FlowEvent::Boot) => FlowState::SpawningSupervisor,
        (FlowState::SpawningSupervisor, FlowEvent::Spawned { ok: _ }) => FlowState::SpawningStackTask,
        (FlowState::SpawningStackTask, FlowEvent::Spawned { ok: _ }) => FlowState::PollingLink,
        (FlowState::PollingLink, FlowEvent::Link { up: true }) => FlowState::PollingAddress,
        (FlowState::PollingLink, FlowEvent::Link { up: false }) => FlowState::LinkBackoff,
        (FlowState::LinkBackoff, FlowEvent::TimerElapsed) => FlowState::PollingLink,
        (FlowState::PollingAddress, FlowEvent::Address(Some(_))) => FlowState::Ready,
        (FlowState::PollingAddress, FlowEvent::Address(None)) => FlowState::AddressBackoff,
        (FlowState::AddressBackoff, FlowEvent::TimerElapsed) => FlowState::PollingAddress,
        (FlowState::Ready, FlowEvent::TimerElapsed) => FlowState::Ready,
        _ => {
            return Err(Fault::UnexpectedEvent);
        },
    };
    Ok(
        FlowStep {
            next,
            action: flow_action_on_entry(next),
            notices: flow_notices_for(state, event),
        },
    )
}

} // verus!
