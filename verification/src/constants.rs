//! Protocol constants of the gateway.
use vstd::prelude::*;

verus! {

/// Version of the gateway protocol spoken by this client.
pub const GATEWAY_VERSION: u8 = 6;

/// Member count from which a guild is sent without its offline members; the
/// gateway accepts no larger value.
pub const LARGE_THRESHOLD: u8 = 250;

/// Time the keepalive loop rests between two polls of its control channel,
/// in milliseconds. Shorter is more precise and costs more wake-ups.
pub const POLL_INTERVAL_MS: u64 = 100;

/// Operating-system error code of a write to a connection whose peer is gone.
pub const BROKEN_PIPE: i32 = 32;

/// Operating-system error code of a shutdown on a connection that is no
/// longer connected.
pub const NOT_CONNECTED: i32 = 107;

/// Operation codes of the messages this client sends.
#[derive(Clone, Copy, Debug, PartialEq, Eq, Structural)]
pub enum OpCode {
    Heartbeat,
    Identify,
}

impl OpCode {
    /// The number that stands for the operation on the wire.
    pub open spec fn spec_num(&self) -> u64 {
        match self {
            OpCode::Heartbeat => 1,
            OpCode::Identify => 2,
        }
    }

    #[verifier::when_used_as_spec(spec_num)]
    pub fn num(&self) -> (n: u64)
        ensures
            n == self.spec_num(),
    {
        match self {
            OpCode::Heartbeat => 1,
            OpCode::Identify => 2,
        }
    }
}

} // verus!
