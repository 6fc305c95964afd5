//! Error taxonomy of the robot core.
use vstd::prelude::*;

verus! {

/// The faults the core surfaces to its callers.
///
/// A measurement timeout is not an error: ranging reports it as a
/// valid infinite-distance result.
#[derive(Clone, Debug)]
pub enum Error {
    /// A GPIO fault: pin acquisition, configuration, or an echo line
    /// that stays asserted.
    Gpio(String),
    /// A fault of the persistent calibration sink.
    Io(String),
    /// A poisoned lock around a component handle.
    Poison(String),
    /// A mailbox that no longer accepts messages.
    Send(String),
    /// A malformed or out-of-contract command, rejected rather than
    /// silently reinterpreted.
    Protocol(String),
}

impl Error {
    /// The human-readable form of the error: a fixed prefix naming
    /// the fault class, then the carried detail.
    pub open spec fn spec_description(self) -> Seq<char> {
        match self {
            Error::Gpio(s) => "GPIO error: "@ + s@,
            Error::Io(s) => "IO error: "@ + s@,
            Error::Poison(s) => "Poison error: "@ + s@,
            Error::Send(s) => "Send error: "@ + s@,
            Error::Protocol(s) => "Protocol error: "@ + s@,
        }
    }

    /// An exact copy of the error.
    pub fn duplicate(&self) -> (r: Error)
        ensures
            r == self,
    {
        match self {
            Error::Gpio(s) => Error::Gpio(s.clone()),
            Error::Io(s) => Error::Io(s.clone()),
            Error::Poison(s) => Error::Poison(s.clone()),
            Error::Send(s) => Error::Send(s.clone()),
            Error::Protocol(s) => Error::Protocol(s.clone()),
        }
    }

    /// Renders the error for logs and client-visible messages.
    pub fn description(&self) -> (r: String)
        ensures
            r@ == self.spec_description(),
    {
        let mut out: String;
        match self {
            Error::Gpio(s) => {
                out = String::from_str("GPIO error: ");
                out.append(s.as_str());
            },
            Error::Io(s) => {
                out = String::from_str("IO error: ");
                out.append(s.as_str());
            },
            Error::Poison(s) => {
                out = String::from_str("Poison error: ");
                out.append(s.as_str());
            },
            Error::Send(s) => {
                out = String::from_str("Send error: ");
                out.append(s.as_str());
            },
            Error::Protocol(s) => {
                out = String::from_str("Protocol error: ");
                out.append(s.as_str());
            },
        }
        out
    }
}

} // verus!
