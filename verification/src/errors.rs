//! Error taxonomy of the wallet library.
//!
//! Every failure a verified function can report is one of these values;
//! no error is ever swallowed, and the contracts of the functions that
//! return them say exactly on which inputs each variant comes.

use vstd::prelude::*;

verus! {

/// Failure of the multi-frame transport codec.
#[derive(Debug, Clone, Copy, PartialEq, Eq, Structural)]
pub enum TransportError {
    /// Frames disagree among themselves or the assembled payload does not
    /// match the declared checksum; the bytes must not be used.
    Malformed,
    /// Not every fragment index has been received yet.
    Incomplete,
    /// The message assembled correctly but its declared type tag is not the
    /// tag the caller expected.
    UnexpectedType,
}

/// Failure while turning a scanned extended public key into addresses.
#[derive(Debug, Clone, Copy, PartialEq, Eq, Structural)]
pub enum KeyDerivationError {
    /// The scanned key material could not be parsed as an extended public key.
    UnparsableKey,
    /// Deriving the child at the requested ordinal failed.
    ChildDerivationFailed,
    /// The derived compressed point could not be decompressed
    /// (not a valid curve point).
    InvalidPoint,
}

/// Rejection of operator-supplied operation parameters.
#[derive(Debug, Clone, Copy, PartialEq, Eq, Structural)]
pub enum InputValidationError {
    /// The recipient or token address is not 20 bytes of hex.
    BadAddress,
    /// The amount is not a parseable decimal in range.
    BadAmount,
}

/// Errors surfaced at the session boundary.
#[derive(Debug, Clone, Copy, PartialEq, Eq, Structural)]
pub enum SessionError {
    /// Operator input was rejected before the operation was accepted.
    InputValidation(InputValidationError),
    /// Account import failed on the scanned key material.
    KeyDerivation(KeyDerivationError),
    /// A transport decode step failed.
    Transport(TransportError),
    /// A chain query (nonce, gas price, gas estimate, balance) failed.
    ChainQuery,
    /// The operator explicitly declined to continue.
    UserAbort,
    /// The raw transaction was broadcast but no receipt was observed
    /// within the polling window; a warning, not a process failure.
    TransactionNotMined,
    /// The selected network name is not configured.
    UnknownNetwork,
    /// An event was handed to a flow state that does not expect it:
    /// a programming error in the caller, never a recoverable condition.
    ProtocolViolation,
}

} // verus!
