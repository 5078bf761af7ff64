//! What can go wrong while a session is set up.
use vstd::prelude::*;

verus! {

/// Failures of the gateway conversation itself.
#[derive(Clone, Copy, Debug, PartialEq, Eq, Structural)]
pub enum GatewayError {
    /// The gateway answered an identify with something other than the
    /// session-ready event, or invalidated the session twice.
    InvalidHandshake,
}

/// Failures on the client's side.
#[derive(Clone, Copy, Debug, PartialEq, Eq, Structural)]
pub enum ClientError {
    /// The address of the gateway could not be made into a URL.
    Gateway,
}

/// Any failure this crate reports.
#[derive(Clone, Copy, Debug, PartialEq, Eq, Structural)]
pub enum Error {
    Client(ClientError),
    Gateway(GatewayError),
}

} // verus!
