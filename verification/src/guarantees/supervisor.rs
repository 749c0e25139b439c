//! What the supervisor's rule guarantees, whatever the driver does.
//!
//! The statements are about [`transition`] and about runs of it, in which an
//! event that raises a fault leaves the supervisor where it was. Since the
//! supervisor issues a request exactly when it enters a state, and always the
//! one that [`pending`] gives for that state, a statement about the states of a
//! run is a statement about the requests made: a connect request is made on
//! entering `Connecting` and at no other time.

use vstd::prelude::*;
use crate::config::{credential_fault, credentials_fit};
use crate::fault::Fault;
use crate::supervisor::{
    advance, pending, transition, Action, ConnectionState, Event, State, Timing,
};

verus! {

/// The state after a run of events, fed in order.
pub open spec fn state_after(
    state: State,
    events: Seq<Event>,
    ssid: Seq<char>,
    passphrase: Seq<char>,
) -> State
    decreases events.len(),
{
    if events.len() == 0 {
        state
    } else {
        state_after(
            advance(state, events[0], ssid, passphrase),
            events.drop_first(),
            ssid,
            passphrase,
        )
    }
}

/// Whether every event of a run is accepted in its turn.
pub open spec fn accepted(
    state: State,
    events: Seq<Event>,
    ssid: Seq<char>,
    passphrase: Seq<char>,
) -> bool
    decreases events.len(),
{
    events.len() == 0 || (transition(state, events[0], ssid, passphrase) is Ok && accepted(
        advance(state, events[0], ssid, passphrase),
        events.drop_first(),
        ssid,
        passphrase,
    ))
}

/// A run in two parts ends where the second part ends, begun where the first
/// one ended.
pub proof fn lemma_state_after_concat(
    state: State,
    first: Seq<Event>,
    second: Seq<Event>,
    ssid: Seq<char>,
    passphrase: Seq<char>,
)
    ensures
        state_after(state, first + second, ssid, passphrase) == state_after(
            state_after(state, first, ssid, passphrase),
            second,
            ssid,
            passphrase,
        ),
    decreases first.len(),
{
    if first.len() == 0 {
        assert(first + second =~= second);
    } else {
        assert((first + second).drop_first() =~= first.drop_first() + second);
        lemma_state_after_concat(
            advance(state, first[0], ssid, passphrase),
            first.drop_first(),
            second,
            ssid,
            passphrase,
        );
    }
}

/// A run in two parts is accepted when the first part is, and the second
/// part is from where the first one ended.
pub proof fn lemma_accepted_concat(
    state: State,
    first: Seq<Event>,
    second: Seq<Event>,
    ssid: Seq<char>,
    passphrase: Seq<char>,
)
    ensures
        accepted(state, first + second, ssid, passphrase) <==> accepted(
            state,
            first,
            ssid,
            passphrase,
        ) && accepted(state_after(state, first, ssid, passphrase), second, ssid, passphrase),
    decreases first.len(),
{
    if first.len() == 0 {
        assert(first + second =~= second);
    } else {
        assert((first + second).drop_first() =~= first.drop_first() + second);
        lemma_accepted_concat(
            advance(state, first[0], ssid, passphrase),
            first.drop_first(),
            second,
            ssid,
            passphrase,
        );
    }
}

/// The events of a bring-up in which nothing goes wrong: the station is found
/// not associated and the radio not started, the driver takes the
/// configuration, and the radio starts.
pub open spec fn bring_up(link: ConnectionState) -> Seq<Event> {
    seq![
        Event::Boot,
        Event::LinkStatus(link),
        Event::RadioStatus { started: false },
        Event::ConfigApplied,
        Event::TimerElapsed,
        Event::StartSucceeded,
    ]
}

/// Credentials that fit are never the cause of a fault, and the bring-up of a
/// station that is not associated leads from rest, through the application of
/// the configuration, to a connect request.
pub proof fn law_fitting_credentials_lead_to_connect(
    ssid: Seq<char>,
    passphrase: Seq<char>,
    link: ConnectionState,
)
    requires
        credentials_fit(ssid, passphrase),
    ensures
        forall|state: State, event: Event|
            transition(state, event, ssid, passphrase) != Err::<State, Fault>(Fault::SsidTooLong)
                && transition(state, event, ssid, passphrase) != Err::<State, Fault>(
                Fault::PassphraseTooLong,
            ),
        transition(State::CheckingRadio, Event::RadioStatus { started: false }, ssid, passphrase)
            == Ok::<State, Fault>(State::Configuring),
        link != ConnectionState::Connected ==> accepted(
            State::Idle,
            bring_up(link),
            ssid,
            passphrase,
        ),
        link != ConnectionState::Connected ==> state_after(
            State::Idle,
            bring_up(link),
            ssid,
            passphrase,
        ) == State::Connecting,
        forall|timing: Timing| pending(State::Connecting, timing) == Some(Action::Connect),
{
    if link != ConnectionState::Connected {
        reveal_with_fuel(state_after, 8);
        reveal_with_fuel(accepted, 8);
    }
}

/// The states in which no configuration has been applied and no connect request
/// made since the supervisor was created.
pub open spec fn before_configuration(state: State) -> bool {
    state == State::Idle || state == State::Probing || state == State::Connected || state
        == State::WaitingAfterDrop
}

/// With a credential that does not fit, looking again at a station that is not
/// associated raises the fault, and no run of events gets the supervisor as far
/// as applying a configuration or requesting a connection.
pub proof fn law_oversized_credentials_never_connect(
    events: Seq<Event>,
    ssid: Seq<char>,
    passphrase: Seq<char>,
)
    requires
        !credentials_fit(ssid, passphrase),
    ensures
        credential_fault(ssid, passphrase) is Some,
        forall|link: ConnectionState|
            link != ConnectionState::Connected ==> #[trigger] transition(
                State::Probing,
                Event::LinkStatus(link),
                ssid,
                passphrase,
            ) == Err::<State, Fault>(credential_fault(ssid, passphrase).unwrap()),
        transition(State::WaitingAfterDrop, Event::TimerElapsed, ssid, passphrase) == Err::<
            State,
            Fault,
        >(credential_fault(ssid, passphrase).unwrap()),
        before_configuration(state_after(State::Idle, events, ssid, passphrase)),
        state_after(State::Idle, events, ssid, passphrase) != State::Configuring,
        state_after(State::Idle, events, ssid, passphrase) != State::Connecting,
{
    lemma_stays_before_configuration(State::Idle, events, ssid, passphrase);
}

/// With a credential that does not fit, a run that begins before any
/// configuration ends before any configuration.
proof fn lemma_stays_before_configuration(
    state: State,
    events: Seq<Event>,
    ssid: Seq<char>,
    passphrase: Seq<char>,
)
    requires
        !credentials_fit(ssid, passphrase),
        before_configuration(state),
    ensures
        before_configuration(state_after(state, events, ssid, passphrase)),
    decreases events.len(),
{
    if events.len() > 0 {
        lemma_stays_before_configuration(
            advance(state, events[0], ssid, passphrase),
            events.drop_first(),
            ssid,
            passphrase,
        );
    }
}

/// The states in which the supervisor waits for a timer.
pub open spec fn pausing(state: State) -> bool {
    state == State::WaitingAfterDrop || state == State::Settling || state == State::RetryBackoff
}

/// A pause ends with the timer and with nothing else: while no `TimerElapsed`
/// arrives, every event is refused, the supervisor stays in its pause and makes
/// no request.
pub proof fn law_pause_holds(
    state: State,
    events: Seq<Event>,
    ssid: Seq<char>,
    passphrase: Seq<char>,
)
    requires
        pausing(state),
        forall|i: int| 0 <= i < events.len() ==> events[i] != Event::TimerElapsed,
    ensures
        forall|i: int|
            0 <= i < events.len() ==> #[trigger] transition(state, events[i], ssid, passphrase)
                == Err::<State, Fault>(Fault::UnexpectedEvent),
        state_after(state, events, ssid, passphrase) == state,
    decreases events.len(),
{
    if events.len() > 0 {
        law_pause_holds(state, events.drop_first(), ssid, passphrase);
    }
}

/// After a drop the supervisor pauses, for five seconds with the standard
/// timing, and requests no connection before the pause is over: the drop leads
/// into the pause, only the timer leads out of it, and even then the next
/// request is a question, not a connect request.
pub proof fn law_drop_backoff(
    events: Seq<Event>,
    ssid: Seq<char>,
    passphrase: Seq<char>,
    timing: Timing,
)
    requires
        forall|i: int| 0 <= i < events.len() ==> events[i] != Event::TimerElapsed,
    ensures
        transition(State::Connected, Event::Disconnected, ssid, passphrase) == Ok::<State, Fault>(
            State::WaitingAfterDrop,
        ),
        pending(State::WaitingAfterDrop, timing) == Some(Action::Sleep(timing.drop_backoff_ms)),
        Timing::standard_spec().drop_backoff_ms == 5000,
        state_after(
            State::Connected,
            seq![Event::Disconnected] + events,
            ssid,
            passphrase,
        ) == State::WaitingAfterDrop,
        transition(State::WaitingAfterDrop, Event::TimerElapsed, ssid, passphrase) != Ok::<
            State,
            Fault,
        >(State::Connecting),
{
    let first = seq![Event::Disconnected];
    lemma_state_after_concat(State::Connected, first, events, ssid, passphrase);
    reveal_with_fuel(state_after, 2);
    law_pause_holds(State::WaitingAfterDrop, events, ssid, passphrase);
}

/// One round of a failed connect request: the failure, the end of the pause,
/// the station found not associated, the radio found started.
pub open spec fn retry_round(link: ConnectionState) -> Seq<Event> {
    seq![
        Event::ConnectFailed,
        Event::TimerElapsed,
        Event::LinkStatus(link),
        Event::RadioStatus { started: true },
    ]
}

/// `n` rounds of failed connect requests, one after the other.
pub open spec fn retry_rounds(link: ConnectionState, n: nat) -> Seq<Event>
    decreases n,
{
    if n == 0 {
        Seq::<Event>::empty()
    } else {
        retry_round(link) + retry_rounds(link, (n - 1) as nat)
    }
}

/// A supervisor that has come to request a connection holds credentials that
/// fit.
pub proof fn lemma_connecting_means_fit(
    history: Seq<Event>,
    ssid: Seq<char>,
    passphrase: Seq<char>,
)
    requires
        state_after(State::Idle, history, ssid, passphrase) == State::Connecting,
    ensures
        credentials_fit(ssid, passphrase),
{
    if !credentials_fit(ssid, passphrase) {
        lemma_stays_before_configuration(State::Idle, history, ssid, passphrase);
    }
}

/// One round of a failed connect request, with credentials that fit, is
/// accepted event by event and ends in the next connect request.
proof fn lemma_retry_round(link: ConnectionState, ssid: Seq<char>, passphrase: Seq<char>)
    requires
        credentials_fit(ssid, passphrase),
        link != ConnectionState::Connected,
    ensures
        accepted(State::Connecting, retry_round(link), ssid, passphrase),
        state_after(State::Connecting, retry_round(link), ssid, passphrase) == State::Connecting,
{
    reveal_with_fuel(state_after, 6);
    reveal_with_fuel(accepted, 6);
}

/// Connect requests are repeated without end, a pause apart: a failure leads
/// into the pause, of one second with the standard timing, and however many
/// rounds have failed, the supervisor has raised no fault and stands at the
/// next connect request.
pub proof fn law_retry_never_stops(
    history: Seq<Event>,
    link: ConnectionState,
    n: nat,
    ssid: Seq<char>,
    passphrase: Seq<char>,
    timing: Timing,
)
    requires
        state_after(State::Idle, history, ssid, passphrase) == State::Connecting,
        link != ConnectionState::Connected,
    ensures
        transition(State::Connecting, Event::ConnectFailed, ssid, passphrase) == Ok::<State, Fault>(
            State::RetryBackoff,
        ),
        pending(State::RetryBackoff, timing) == Some(Action::Sleep(timing.retry_backoff_ms)),
        Timing::standard_spec().retry_backoff_ms == 1000,
        accepted(State::Connecting, retry_rounds(link, n), ssid, passphrase),
        state_after(State::Idle, history + retry_rounds(link, n), ssid, passphrase)
            == State::Connecting,
    decreases n,
{
    lemma_connecting_means_fit(history, ssid, passphrase);
    lemma_state_after_concat(State::Idle, history, retry_rounds(link, n), ssid, passphrase);
    if n > 0 {
        let rest = retry_rounds(link, (n - 1) as nat);
        lemma_retry_round(link, ssid, passphrase);
        law_retry_never_stops(history, link, (n - 1) as nat, ssid, passphrase, timing);
        lemma_state_after_concat(State::Idle, history, rest, ssid, passphrase);
        lemma_state_after_concat(State::Connecting, retry_round(link), rest, ssid, passphrase);
        lemma_accepted_concat(State::Connecting, retry_round(link), rest, ssid, passphrase);
    }
}

} // verus!
