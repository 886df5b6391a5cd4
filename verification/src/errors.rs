use vstd::prelude::*;

verus! {

/// The handshake's error taxonomy.
///
/// Each step of the handshake fails in one of four distinguishable ways, so
/// that a caller can decide whether to retry (a transport failure), fix its
/// input (a precondition or protocol failure), or treat the failure as fatal
/// (a parse failure). A fifth kind marks the not-yet-specified one-time-code
/// step.
#[derive(Clone, Copy, Debug, PartialEq, Eq, Structural)]
pub enum ErpError {
    /// Network, TLS or DNS failure, or a non-decodable body. Produced by the
    /// embedding transport, never by the library itself.
    Transport,
    /// A configured structural selector was malformed. A client bug, not a
    /// runtime condition.
    Parse,
    /// The server answered the secret-question request with its recognized
    /// negative signal: the roll number is invalid.
    InvalidRollNumber,
    /// The secret-question step was invoked with no explicit roll number and
    /// none stored. Raised before any network request is issued.
    MissingRollNumber,
    /// The one-time-code submission step is an extension point whose wire
    /// contract is not yet known.
    NotImplemented,
}

} // verus!
