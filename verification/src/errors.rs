//! Error taxonomy for upstream health checks.
//!
//! A failed check is either a transport failure (the upstream could not be
//! reached, timed out, or answered with a non-success status) or a protocol
//! failure (the upstream answered, but the payload does not match the
//! expected schema). The evaluator treats both as "not ready"; they are kept
//! apart so operators can tell a flaky network from a misbehaving client.

use vstd::prelude::*;

verus! {

/// Why a single upstream call failed.
#[derive(Clone, Copy, Debug, PartialEq, Eq, Structural)]
pub enum UpstreamError {
    /// Network-level failure: connection refused, timeout, non-2xx status.
    Transport,
    /// The response body does not match the expected schema.
    Protocol,
}

impl UpstreamError {
    /// The log label for this failure kind.
    pub open spec fn spec_describe(self) -> Seq<char> {
        match self {
            UpstreamError::Transport => "transport error"@,
            UpstreamError::Protocol => "protocol error"@,
        }
    }

    /// A short human-readable label for logs.
    pub fn describe(&self) -> (s: &'static str)
        ensures
            s@ == self.spec_describe(),
    {
        match self {
            UpstreamError::Transport => "transport error",
            UpstreamError::Protocol => "protocol error",
        }
    }
}

} // verus!
