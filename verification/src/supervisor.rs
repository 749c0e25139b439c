//! The connection supervisor: keeps the station associated with the configured
//! access point.
//!
//! The supervisor never touches the radio. It is told what happened
//! ([`Event`]) and answers with what to do next ([`Action`]); the caller
//! performs the action and comes back with its outcome. Every state stands for
//! one outstanding request, given by [`pending`].

use vstd::prelude::*;
use crate::config::{credential_fault, ClientConfig};
use crate::fault::Fault;
use crate::notice::Notice;

verus! {

/// What the radio driver reports about the association.
#[derive(Clone, Copy, Debug, PartialEq, Eq, Structural)]
pub enum ConnectionState {
    Disconnected,
    Connecting,
    Connected,
}

/// Where the supervisor stands.
#[derive(Clone, Copy, Debug, PartialEq, Eq, Structural)]
pub enum State {
    /// Nothing has been asked of the driver yet.
    Idle,
    /// The driver is being asked whether the station is associated.
    Probing,
    /// The station is associated; the supervisor waits for the link to drop.
    Connected,
    /// The link dropped; the supervisor pauses before it looks again.
    WaitingAfterDrop,
    /// The driver is being asked whether the radio has been started.
    CheckingRadio,
    /// The client configuration is being applied.
    Configuring,
    /// The configuration was applied; the supervisor pauses before the start.
    Settling,
    /// The radio is being started.
    Starting,
    /// A connect request is outstanding.
    Connecting,
    /// The connect request failed; the supervisor pauses before the next.
    RetryBackoff,
}

/// The outcome of the last request, or `Boot` to set the supervisor going.
#[derive(Clone, Copy, Debug, PartialEq, Eq, Structural)]
pub enum Event {
    Boot,
    LinkStatus(ConnectionState),
    Disconnected,
    TimerElapsed,
    RadioStatus { started: bool },
    ConfigApplied,
    ConfigRejected,
    StartSucceeded,
    StartFailed,
    ConnectSucceeded,
    ConnectFailed,
}

/// What the supervisor asks its caller to do.
#[derive(Clone, Copy, Debug, PartialEq, Eq, Structural)]
pub enum Action {
    /// Read the association state; answer with `LinkStatus`.
    QueryLink,
    /// Wait until the driver signals a disconnect; answer with `Disconnected`.
    AwaitDisconnect,
    /// Wait this many milliseconds; answer with `TimerElapsed`.
    Sleep(u64),
    /// Ask whether the radio has been started; answer with `RadioStatus`.
    QueryRadio,
    /// Apply the client configuration that comes with the step; answer with
    /// `ConfigApplied` or `ConfigRejected`.
    Configure,
    /// Start the radio; answer with `StartSucceeded` or `StartFailed`.
    StartRadio,
    /// Request a connection; answer with `ConnectSucceeded` or `ConnectFailed`.
    Connect,
}

/// The pauses of the supervisor, in milliseconds.
#[derive(Clone, Copy, Debug, PartialEq, Eq, Structural)]
pub struct Timing {
    /// Pause after the link dropped.
    pub drop_backoff_ms: u64,
    /// Pause between applying the configuration and starting the radio.
    pub settle_delay_ms: u64,
    /// Pause after a failed connect request.
    pub retry_backoff_ms: u64,
}

/// Pause after the link dropped, unless configured otherwise.
pub const DROP_BACKOFF_MS: u64 = 5000;

/// Pause before the radio is started, unless configured otherwise.
pub const SETTLE_DELAY_MS: u64 = 5000;

/// Pause after a failed connect request, unless configured otherwise.
pub const RETRY_BACKOFF_MS: u64 = 1000;

impl Timing {
    /// The standard pauses.
    pub open spec fn standard_spec() -> Timing {
        Timing {
            drop_backoff_ms: DROP_BACKOFF_MS,
            settle_delay_ms: SETTLE_DELAY_MS,
            retry_backoff_ms: RETRY_BACKOFF_MS,
        }
    }

    /// The standard pauses: five seconds after a drop, five seconds before the
    /// radio is started, one second after a failed connect request.
    pub fn standard() -> (t: Timing)
        ensures
            t == Timing::standard_spec(),
    {
        Timing {
            drop_backoff_ms: DROP_BACKOFF_MS,
            settle_delay_ms: SETTLE_DELAY_MS,
            retry_backoff_ms: RETRY_BACKOFF_MS,
        }
    }
}

/// Where the supervisor goes once the station is found not to be associated, or
/// the pause after a drop is over: the credentials are copied into their
/// buffers, which either faults or leads on to the question whether the radio
/// has been started.
pub open spec fn reevaluate(ssid: Seq<char>, passphrase: Seq<char>) -> Result<State, Fault> {
    match credential_fault(ssid, passphrase) {
        Some(f) => Err(f),
        None => Ok(State::CheckingRadio),
    }
}

/// The supervisor's rule: the state that `event` leads to from `state`, or the
/// fault that it raises. An event that does not answer the outstanding request
/// is refused as `UnexpectedEvent`.
pub open spec fn transition(
    state: State,
    event: Event,
    ssid: Seq<char>,
    passphrase: Seq<char>,
) -> Result<State, Fault> {
    match (state, event) {
        (State::Idle, Event::Boot) => Ok(State::Probing),
        (State::Probing, Event::LinkStatus(link)) => if link == ConnectionState::Connected {
            Ok(State::Connected)
        } else {
            reevaluate(ssid, passphrase)
        },
        (State::Connected, Event::Disconnected) => Ok(State::WaitingAfterDrop),
        (State::WaitingAfterDrop, Event::TimerElapsed) => reevaluate(ssid, passphrase),
        (State::CheckingRadio, Event::RadioStatus { started }) => if started {
            Ok(State::Connecting)
        } else {
            match credential_fault(ssid, passphrase) {
                Some(f) => Err(f),
                None => Ok(State::Configuring),
            }
        },
        (State::Configuring, Event::ConfigApplied) => Ok(State::Settling),
        (State::Configuring, Event::ConfigRejected) => Err(Fault::ConfigurationRejected),
        (State::Settling, Event::TimerElapsed) => Ok(State::Starting),
        (State::Starting, Event::StartSucceeded) => Ok(State::Connecting),
        (State::Starting, Event::StartFailed) => Err(Fault::StartFailed),
        (State::Connecting, Event::ConnectSucceeded) => Ok(State::Probing),
        (State::Connecting, Event::ConnectFailed) => Ok(State::RetryBackoff),
        (State::RetryBackoff, Event::TimerElapsed) => Ok(State::Probing),
        _ => Err(Fault::UnexpectedEvent),
    }
}

/// The state after one event: where the rule leads, or the same state when
/// the event raises a fault.
pub open spec fn advance(state: State, event: Event, ssid: Seq<char>, passphrase: Seq<char>) -> State {
    match transition(state, event, ssid, passphrase) {
        Ok(next) => next,
        Err(_) => state,
    }
}

/// The request that is outstanding in `state`: the action that was issued when
/// the supervisor entered it. Nothing is outstanding before `Boot`.
pub open spec fn pending(state: State, timing: Timing) -> Option<Action> {
    match state {
        State::Idle => None,
        State::Probing => Some(Action::QueryLink),
        State::Connected => Some(Action::AwaitDisconnect),
        State::WaitingAfterDrop => Some(Action::Sleep(timing.drop_backoff_ms)),
        State::CheckingRadio => Some(Action::QueryRadio),
        State::Configuring => Some(Action::Configure),
        State::Settling => Some(Action::Sleep(timing.settle_delay_ms)),
        State::Starting => Some(Action::StartRadio),
        State::Connecting => Some(Action::Connect),
        State::RetryBackoff => Some(Action::Sleep(timing.retry_backoff_ms)),
    }
}

/// The log lines that go with an accepted event.
pub open spec fn notices(state: State, event: Event) -> Seq<Notice> {
    match (state, event) {
        (State::CheckingRadio, Event::RadioStatus { started: true }) => seq![Notice::Connecting],
        (State::Configuring, Event::ConfigApplied) => seq![Notice::Starting],
        (State::Starting, Event::StartSucceeded) => seq![Notice::Started, Notice::Connecting],
        (State::Connecting, Event::ConnectSucceeded) => seq![Notice::ConnectionUp],
        (State::Connecting, Event::ConnectFailed) => seq![Notice::ConnectionFailed],
        _ => seq![],
    }
}

/// One step of the supervisor: the request to perform next, with what goes
/// with it.
pub struct Step {
    /// What to do next.
    pub action: Action,
    /// The client configuration to apply; present exactly when the action is
    /// `Configure`.
    pub config: Option<ClientConfig>,
    /// Lines for the log, in order.
    pub notices: Vec<Notice>,
}

/// A supervisor for one set of credentials.
pub struct Supervisor {
    ssid: String,
    passphrase: String,
    timing: Timing,
    state: State,
}

/// What a supervisor is, to its contracts.
pub struct SupervisorView {
    pub ssid: Seq<char>,
    pub passphrase: Seq<char>,
    pub timing: Timing,
    pub state: State,
}

impl View for Supervisor {
    type V = SupervisorView;

    closed spec fn view(&self) -> SupervisorView {
        SupervisorView {
            ssid: self.ssid@,
            passphrase: self.passphrase@,
            timing: self.timing,
            state: self.state,
        }
    }
}

/// The action that is issued on entering `state`.
fn action_on_entry(state: State, timing: Timing) -> (a: Action)
    requires
        state != State::Idle,
    ensures
        pending(state, timing) == Some(a),
{
    match state {
        State::Idle | State::Probing => Action::QueryLink,
        State::Connected => Action::AwaitDisconnect,
        State::WaitingAfterDrop => Action::Sleep(timing.drop_backoff_ms),
        State::CheckingRadio => Action::QueryRadio,
        State::Configuring => Action::Configure,
        State::Settling => Action::Sleep(timing.settle_delay_ms),
        State::Starting => Action::StartRadio,
        State::Connecting => Action::Connect,
        State::RetryBackoff => Action::Sleep(timing.retry_backoff_ms),
    }
}

/// The request that is outstanding in `state`, for a caller that has to issue
/// it again; `None` before `Boot`.
pub fn request(state: State, timing: Timing) -> (a: Option<Action>)
    ensures
        a == pending(state, timing),
{
    match state {
        State::Idle => None,
        _ => Some(action_on_entry(state, timing)),
    }
}

/// The log lines that go with `event` when it is accepted in `state`.
pub fn notices_for(state: State, event: Event) -> (v: Vec<Notice>)
    ensures
        v@ == notices(state, event),
{
    let mut v: Vec<Notice> = Vec::new();
    match (state, event) {
        (State::CheckingRadio, Event::RadioStatus { started: true }) => {
            v.push(Notice::Connecting);
        },
        (State::Configuring, Event::ConfigApplied) => {
            v.push(Notice::Starting);
        },
        (State::Starting, Event::StartSucceeded) => {
            v.push(Notice::Started);
            v.push(Notice::Connecting);
        },
        (State::Connecting, Event::ConnectSucceeded) => {
            v.push(Notice::ConnectionUp);
        },
        (State::Connecting, Event::ConnectFailed) => {
            v.push(Notice::ConnectionFailed);
        },
        _ => {},
    }
    v
}

impl Supervisor {
    /// A supervisor at rest, with the standard pauses.
    pub fn new(ssid: String, passphrase: String) -> (s: Supervisor)
        ensures
            s@.ssid == ssid@,
            s@.passphrase == passphrase@,
            s@.timing == Timing::standard_spec(),
            s@.state == State::Idle,
    {
        Supervisor { ssid, passphrase, timing: Timing::standard(), state: State::Idle }
    }

    /// A supervisor at rest, with pauses of the caller's choosing.
    pub fn with_timing(ssid: String, passphrase: String, timing: Timing) -> (s: Supervisor)
        ensures
            s@.ssid == ssid@,
            s@.passphrase == passphrase@,
            s@.timing == timing,
            s@.state == State::Idle,
    {
        Supervisor { ssid, passphrase, timing, state: State::Idle }
    }

    /// Where the supervisor stands.
    pub fn state(&self) -> (s: State)
        ensures
            s == self@.state,
    {
        self.state
    }

    /// The pauses in use.
    pub fn timing(&self) -> (t: Timing)
        ensures
            t == self@.timing,
    {
        self.timing
    }

    /// The network name that the supervisor connects to.
    pub fn ssid(&self) -> (s: &str)
        ensures
            s@ == self@.ssid,
    {
        self.ssid.as_str()
    }

    /// Copies the credentials into driver buffers, as is done every time the
    /// supervisor finds the station not associated.
    fn build_config(&self) -> (r: Result<ClientConfig, Fault>)
        ensures
            match credential_fault(self@.ssid, self@.passphrase) {
                None => r matches Ok(c) && c.ssid_text() == self@.ssid && c.passphrase_text()
                    == self@.passphrase,
                Some(f) => r matches Err(e) && e == f,
            },
    {
        ClientConfig::new(self.ssid.as_str(), self.passphrase.as_str())
    }

    /// The state that `event` leads to, with the configuration to apply where
    /// that state is `Configuring`.
    fn decide(&self, event: Event) -> (r: Result<(State, Option<ClientConfig>), Fault>)
        ensures
            match transition(self@.state, event, self@.ssid, self@.passphrase) {
                Ok(next) => r matches Ok(d) && d.0 == next && carries(
                    d.1,
                    next,
                    self@.ssid,
                    self@.passphrase,
                ),
                Err(f) => r matches Err(e) && e == f,
            },
    {
        match (self.state, event) {
            (State::Idle, Event::Boot) => Ok((State::Probing, None)),
            (State::Probing, Event::LinkStatus(ConnectionState::Connected)) => Ok(
                (State::Connected, None),
            ),
            (State::Probing, Event::LinkStatus(_)) | (
                State::WaitingAfterDrop,
                Event::TimerElapsed,
            ) => match self.build_config() {
                Ok(_) => Ok((State::CheckingRadio, None)),
                Err(f) => Err(f),
            },
            (State::Connected, Event::Disconnected) => Ok((State::WaitingAfterDrop, None)),
            (State::CheckingRadio, Event::RadioStatus { started: true }) => Ok(
                (State::Connecting, None),
            ),
            (State::CheckingRadio, Event::RadioStatus { started: false }) => match self.build_config() {
                Ok(c) => Ok((State::Configuring, Some(c))),
                Err(f) => Err(f),
            },
            (State::Configuring, Event::ConfigApplied) => Ok((State::Settling, None)),
            (State::Configuring, Event::ConfigRejected) => Err(Fault::ConfigurationRejected),
            (State::Settling, Event::TimerElapsed) => Ok((State::Starting, None)),
            (State::Starting, Event::StartSucceeded) => Ok((State::Connecting, None)),
            (State::Starting, Event::StartFailed) => Err(Fault::StartFailed),
            (State::Connecting, Event::ConnectSucceeded) => Ok((State::Probing, None)),
            (State::Connecting, Event::ConnectFailed) => Ok((State::RetryBackoff, None)),
            (State::RetryBackoff, Event::TimerElapsed) => Ok((State::Probing, None)),
            _ => Err(Fault::UnexpectedEvent),
        }
    }

    /// Takes the outcome of the last request and answers with the next one.
    ///
    /// The supervisor moves as [`transition`] says. An accepted event yields
    /// the request that the new state stands for, the log lines of the move
    /// and, for `Configure`, the credentials in their buffers. A fault leaves
    /// the supervisor where it was and issues nothing.
    pub fn handle(&mut self, event: Event) -> (r: Result<Step, Fault>)
        ensures
            final(self)@.ssid == old(self)@.ssid,
            final(self)@.passphrase == old(self)@.passphrase,
            final(self)@.timing == old(self)@.timing,
            final(self)@.state == advance(
                old(self)@.state,
                event,
                old(self)@.ssid,
                old(self)@.passphrase,
            ),
            match transition(old(self)@.state, event, old(self)@.ssid, old(self)@.passphrase) {
                Ok(next) => {
                    &&& final(self)@.state == next
                    &&& r matches Ok(step)
                    &&& Some(step.action) == pending(next, old(self)@.timing)
                    &&& carries(step.config, next, old(self)@.ssid, old(self)@.passphrase)
                    &&& step.notices@ == notices(old(self)@.state, event)
                },
                Err(f) => {
                    &&& final(self)@.state == old(self)@.state
                    &&& r matches Err(e)
                    &&& e == f
                },
            },
    {
        let (next, config) = match self.decide(event) {
            Ok(d) => d,
            Err(f) => {
                return Err(f);
            },
        };
        let action = action_on_entry(next, self.timing);
        let notices = notices_for(self.state, event);
        self.state = next;
        Ok(Step { action, config, notices })
    }
}

/// What comes with a step into `next`: the credentials in their buffers when
/// the configuration is to be applied, and nothing otherwise.
pub open spec fn carries(
    config: Option<ClientConfig>,
    next: State,
    ssid: Seq<char>,
    passphrase: Seq<char>,
) -> bool {
    if next == State::Configuring {
        config matches Some(c) && c.ssid_text() == ssid && c.passphrase_text() == passphrase
    } else {
        config is None
    }
}

} // verus!
