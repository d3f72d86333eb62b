use vstd::prelude::*;

use crate::decode::Reply;

verus! {

/// Why an operation against the control plane did not succeed.
pub enum ClusterError {
    /// The inputs could not be turned into a request, or the request asks for
    /// something the transport does not do.
    CallerInput(String),
    /// The exchange with the control plane failed (connection, timeout, TLS).
    Transport(String),
    /// The reply was well formed but was not the operation's success shape.
    UnexpectedVariant { status: u16, reply: Reply },
    /// The reply body is not valid under the operation's grammar.
    MalformedResponse { status: u16, diagnostic: String },
    /// The whole body was delivered and still did not decode to an answer.
    IncompleteResponse,
}

} // verus!
