//! What the main flow's rule guarantees, whatever the scheduler and the stack
//! do.
//!
//! The statements are about [`flow_transition`] and about runs of it, in which
//! an event that is refused leaves the flow where it was.

use vstd::prelude::*;
use crate::fault::Fault;
use crate::readiness::{flow_pending, flow_transition, FlowAction, FlowEvent, FlowState};

verus! {

/// The state after one event: where the rule leads, or the same state when
/// the event is refused.
pub open spec fn flow_advance(state: FlowState, event: FlowEvent) -> FlowState {
    match flow_transition(state, event) {
        Ok(next) => next,
        Err(_) => state,
    }
}

/// The state after a run of events, fed in order.
pub open spec fn flow_state_after(state: FlowState, events: Seq<FlowEvent>) -> FlowState
    decreases events.len(),
{
    if events.len() == 0 {
        state
    } else {
        flow_state_after(flow_advance(state, events[0]), events.drop_first())
    }
}

/// The requests that the flow makes over a run of events, in order: one for
/// each event that is accepted.
pub open spec fn flow_requests(state: FlowState, events: Seq<FlowEvent>) -> Seq<FlowAction>
    decreases events.len(),
{
    if events.len() == 0 {
        Seq::<FlowAction>::empty()
    } else {
        match flow_transition(state, events[0]) {
            Ok(next) => seq![flow_pending(next).unwrap()] + flow_requests(
                next,
                events.drop_first(),
            ),
            Err(_) => flow_requests(state, events.drop_first()),
        }
    }
}

/// Whether the request hands a task to the scheduler.
pub open spec fn is_spawn(action: FlowAction) -> bool {
    action == FlowAction::SpawnSupervisor || action == FlowAction::SpawnStackTask
}

/// The states in which both tasks have been handed to the scheduler.
pub open spec fn tasks_spawned(state: FlowState) -> bool {
    state != FlowState::Idle && state != FlowState::SpawningSupervisor && state
        != FlowState::SpawningStackTask
}

/// How the requests of a run are made up of the first request and those of
/// the rest of the run.
proof fn lemma_requests_unfold(state: FlowState, events: Seq<FlowEvent>)
    requires
        events.len() > 0,
    ensures
        match flow_transition(state, events[0]) {
            Ok(next) => {
                let r = flow_requests(state, events);
                let rest = flow_requests(next, events.drop_first());
                &&& r.len() == rest.len() + 1
                &&& r[0] == flow_pending(next).unwrap()
                &&& forall|k: int| 1 <= k < r.len() ==> #[trigger] r[k] == rest[k - 1]
            },
            Err(_) => flow_requests(state, events) == flow_requests(state, events.drop_first()),
        },
{
}

/// Once both tasks have been handed over, no further task is.
proof fn lemma_no_spawn_after_spawns(state: FlowState, events: Seq<FlowEvent>)
    requires
        tasks_spawned(state),
    ensures
        forall|k: int|
            0 <= k < flow_requests(state, events).len() ==> !is_spawn(
                #[trigger] flow_requests(state, events)[k],
            ),
    decreases events.len(),
{
    if events.len() > 0 {
        lemma_requests_unfold(state, events);
        lemma_no_spawn_after_spawns(flow_advance(state, events[0]), events.drop_first());
    }
}

/// From the hand-over of the stack-driving task on, no task is handed over
/// again.
proof fn lemma_requests_from_stack_spawn(events: Seq<FlowEvent>)
    ensures
        forall|k: int|
            0 <= k < flow_requests(FlowState::SpawningStackTask, events).len() ==> !is_spawn(
                #[trigger] flow_requests(FlowState::SpawningStackTask, events)[k],
            ),
    decreases events.len(),
{
    if events.len() > 0 {
        lemma_requests_unfold(FlowState::SpawningStackTask, events);
        match flow_transition(FlowState::SpawningStackTask, events[0]) {
            Ok(next) => {
                lemma_no_spawn_after_spawns(next, events.drop_first());
            },
            Err(_) => {
                lemma_requests_from_stack_spawn(events.drop_first());
            },
        }
    }
}

/// From the hand-over of the supervisor on, the first request hands over the
/// stack-driving task, and no later one hands over a task.
proof fn lemma_requests_from_supervisor_spawn(events: Seq<FlowEvent>)
    ensures
        ({
            let r = flow_requests(FlowState::SpawningSupervisor, events);
            &&& r.len() > 0 ==> r[0] == FlowAction::SpawnStackTask
            &&& forall|k: int| 1 <= k < r.len() ==> !is_spawn(#[trigger] r[k])
        }),
    decreases events.len(),
{
    if events.len() > 0 {
        lemma_requests_unfold(FlowState::SpawningSupervisor, events);
        match flow_transition(FlowState::SpawningSupervisor, events[0]) {
            Ok(_) => {
                lemma_requests_from_stack_spawn(events.drop_first());
            },
            Err(_) => {
                lemma_requests_from_supervisor_spawn(events.drop_first());
            },
        }
    }
}

/// The two background tasks are handed to the scheduler before anything else is
/// asked: whatever events arrive, the first request of the flow hands over the
/// supervisor, the second the stack-driving task, and every later one is a look
/// at the stack or a pause. So the link is never looked at before both tasks
/// have been handed over.
pub proof fn law_spawns_come_first(events: Seq<FlowEvent>)
    ensures
        ({
            let r = flow_requests(FlowState::Idle, events);
            &&& r.len() > 0 ==> r[0] == FlowAction::SpawnSupervisor
            &&& r.len() > 1 ==> r[1] == FlowAction::SpawnStackTask
            &&& forall|k: int| 2 <= k < r.len() ==> !is_spawn(#[trigger] r[k])
            &&& forall|k: int| 0 <= k < r.len() && #[trigger] r[k] == FlowAction::PollLink ==> k >= 2
        }),
    decreases events.len(),
{
    if events.len() > 0 {
        lemma_requests_unfold(FlowState::Idle, events);
        match flow_transition(FlowState::Idle, events[0]) {
            Ok(_) => {
                lemma_requests_from_supervisor_spawn(events.drop_first());
            },
            Err(_) => {
                law_spawns_come_first(events.drop_first());
            },
        }
    }
}

/// The states in which the flow waits for the link.
pub open spec fn waiting_for_link(state: FlowState) -> bool {
    state == FlowState::PollingLink || state == FlowState::LinkBackoff
}

/// The states in which the flow waits for an address.
pub open spec fn waiting_for_address(state: FlowState) -> bool {
    state == FlowState::PollingAddress || state == FlowState::AddressBackoff
}

/// The flow does not get past the link: while no look at the link finds it up,
/// the flow keeps waiting for it, a pause of one second between two looks.
pub proof fn law_waits_for_link(state: FlowState, events: Seq<FlowEvent>)
    requires
        waiting_for_link(state),
        forall|i: int| 0 <= i < events.len() ==> events[i] != (FlowEvent::Link { up: true }),
    ensures
        waiting_for_link(flow_state_after(state, events)),
        flow_transition(FlowState::PollingLink, FlowEvent::Link { up: false }) == Ok::<
            FlowState,
            Fault,
        >(FlowState::LinkBackoff),
        flow_pending(FlowState::LinkBackoff) == Some(FlowAction::Sleep(1000)),
    decreases events.len(),
{
    if events.len() > 0 {
        law_waits_for_link(flow_advance(state, events[0]), events.drop_first());
    }
}

/// Whether the event reports an assigned address.
pub open spec fn reports_address(event: FlowEvent) -> bool {
    event matches FlowEvent::Address(Some(_))
}

/// The flow does not get past the address: while no look finds an address
/// assigned, the flow keeps waiting for one, a pause of one second between two
/// looks.
pub proof fn law_waits_for_address(state: FlowState, events: Seq<FlowEvent>)
    requires
        waiting_for_address(state),
        forall|i: int| 0 <= i < events.len() ==> !reports_address(#[trigger] events[i]),
    ensures
        waiting_for_address(flow_state_after(state, events)),
        flow_transition(FlowState::PollingAddress, FlowEvent::Address(None)) == Ok::<
            FlowState,
            Fault,
        >(FlowState::AddressBackoff),
        flow_pending(FlowState::AddressBackoff) == Some(FlowAction::Sleep(1000)),
    decreases events.len(),
{
    if events.len() > 0 {
        law_waits_for_address(flow_advance(state, events[0]), events.drop_first());
    }
}

/// Once set-up is complete the flow idles for good: whatever arrives, it stays
/// ready, and every request it makes is a pause of one second.
pub proof fn law_ready_is_forever(events: Seq<FlowEvent>)
    ensures
        flow_state_after(FlowState::Ready, events) == FlowState::Ready,
        forall|k: int|
            0 <= k < flow_requests(FlowState::Ready, events).len() ==> #[trigger] flow_requests(
                FlowState::Ready,
                events,
            )[k] == FlowAction::Sleep(1000),
    decreases events.len(),
{
    if events.len() > 0 {
        law_ready_is_forever(events.drop_first());
    }
}

} // verus!
