//! What can stop the supervisor for good.

use vstd::prelude::*;

verus! {

/// A condition that the supervisor does not recover from by itself.
///
/// The supervisor reports a fault and stays where it was; whether to give up
/// or to try again is left to whoever drives it.
#[derive(Clone, Copy, Debug, PartialEq, Eq, Structural)]
pub enum Fault {
    /// The network name does not fit in the driver's buffer.
    SsidTooLong,
    /// The passphrase does not fit in the driver's buffer.
    PassphraseTooLong,
    /// The driver refused the client configuration.
    ConfigurationRejected,
    /// The radio did not start.
    StartFailed,
    /// The event does not answer the request that is outstanding.
    UnexpectedEvent,
}

} // verus!
