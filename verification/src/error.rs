//! The ways in which a request, a reply or a command can go wrong.

use vstd::prelude::*;

verus! {

/// Why an operation of this library gave no result.
#[derive(Debug, Clone, Copy, PartialEq, Eq, Structural)]
pub enum GeminiError {
    /// The address does not use the `gemini` scheme.
    SchemeError,
    /// The address names no host.
    AddressError,
    /// Connecting, the handshake, or reading and writing failed.
    TransportError,
    /// The reply carries an unknown status code or a malformed header.
    ProtocolError,
    /// Bytes that had to be text are not valid UTF-8.
    EncodingError,
    /// A text is no address, on its own or against its base, or an address
    /// is too long to take a new part.
    AddressResolutionError,
    /// A reply of a category that the session cannot show.
    UnhandledResponseCategory,
    /// More redirects in a row than the client follows.
    RedirectLoopError,
}

} // verus!
