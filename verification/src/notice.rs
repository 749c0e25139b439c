//! What the state machines report while they run.

use vstd::prelude::*;

verus! {

/// An IPv4 address with the length of its network prefix.
#[derive(Clone, Copy, Debug, PartialEq, Eq, Structural)]
pub struct Ipv4Lease {
    pub a: u8,
    pub b: u8,
    pub c: u8,
    pub d: u8,
    pub prefix_len: u8,
}

/// A line for the log. The machines say what happened; wording and sink are
/// the caller's.
#[derive(Clone, Copy, Debug, PartialEq, Eq, Structural)]
pub enum Notice {
    /// The configuration was applied and the radio is about to be started.
    Starting,
    /// The radio has started.
    Started,
    /// A connect request is being made.
    Connecting,
    /// The station is associated.
    ConnectionUp,
    /// The connect request failed and will be repeated.
    ConnectionFailed,
    /// The link is not up yet.
    WaitingForLink,
    /// The link is up.
    LinkUp,
    /// The link is up and no address has been assigned yet.
    WaitingForAddress,
    /// The network assigned this address.
    AddressAssigned(Ipv4Lease),
    /// Set-up is complete and the main flow is idling.
    Heartbeat,
}

/// How much weight a log line carries.
#[derive(Clone, Copy, Debug, PartialEq, Eq, Structural)]
pub enum Level {
    Debug,
    Info,
    Warn,
}

impl Notice {
    /// The level of the notice: a failed connect request is a warning, the
    /// link coming up is for debugging, everything else is information.
    pub open spec fn level_spec(self) -> Level {
        match self {
            Notice::ConnectionFailed => Level::Warn,
            Notice::LinkUp => Level::Debug,
            _ => Level::Info,
        }
    }

    /// The level at which the notice is logged.
    pub fn level(&self) -> (l: Level)
        ensures
            l == self.level_spec(),
    {
        match self {
            Notice::ConnectionFailed => Level::Warn,
            Notice::LinkUp => Level::Debug,
            _ => Level::Info,
        }
    }
}

} // verus!
