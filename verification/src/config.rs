//! The client configuration that is handed to the radio driver.

use vstd::prelude::*;
use crate::buffer::{
    fits, passphrase_buffer, passphrase_text, ssid_buffer, ssid_text, PASSPHRASE_CAPACITY,
    SSID_CAPACITY,
};
use crate::fault::Fault;

verus! {

/// Network name and passphrase, each in the bounded buffer that the driver's
/// configuration call takes.
pub struct ClientConfig {
    pub ssid: heapless::String<32>,
    pub passphrase: heapless::String<64>,
}

/// Whether both credentials fit in their buffers.
pub open spec fn credentials_fit(ssid: Seq<char>, passphrase: Seq<char>) -> bool {
    fits(ssid, SSID_CAPACITY as nat) && fits(passphrase, PASSPHRASE_CAPACITY as nat)
}

/// The fault that oversized credentials give, the network name being copied
/// first; `None` when both fit.
pub open spec fn credential_fault(ssid: Seq<char>, passphrase: Seq<char>) -> Option<Fault> {
    if !fits(ssid, SSID_CAPACITY as nat) {
        Some(Fault::SsidTooLong)
    } else if !fits(passphrase, PASSPHRASE_CAPACITY as nat) {
        Some(Fault::PassphraseTooLong)
    } else {
        None
    }
}

impl ClientConfig {
    /// The network name that the configuration carries.
    pub open spec fn ssid_text(&self) -> Seq<char> {
        ssid_text(self.ssid)
    }

    /// The passphrase that the configuration carries.
    pub open spec fn passphrase_text(&self) -> Seq<char> {
        passphrase_text(self.passphrase)
    }

    /// Copies the credentials into driver buffers.
    ///
    /// Either both are copied whole, or nothing is built and the fault names
    /// the first credential that is too long.
    pub fn new(ssid: &str, passphrase: &str) -> (r: Result<ClientConfig, Fault>)
        ensures
            match credential_fault(ssid@, passphrase@) {
                None => r matches Ok(c) && c.ssid_text() == ssid@ && c.passphrase_text()
                    == passphrase@,
                Some(f) => r matches Err(e) && e == f,
            },
    {
        let ssid_buf = match ssid_buffer(ssid) {
            Some(b) => b,
            None => {
                return Err(Fault::SsidTooLong);
            },
        };
        let passphrase_buf = match passphrase_buffer(passphrase) {
            Some(b) => b,
            None => {
                return Err(Fault::PassphraseTooLong);
            },
        };
        Ok(ClientConfig { ssid: ssid_buf, passphrase: passphrase_buf })
    }
}

} // verus!
