//! The failure taxonomy: validation failures are permanent, transport and
//! protocol failures are transient at the supervisor boundary.

use vstd::prelude::*;

verus! {

/// A failure while building the subscription request from filter options.
/// Permanent: the supervisor makes no retry attempt for it.
#[derive(Debug)]
pub enum ValidationError {
    /// A memcmp filter string with no comma between offset and data.
    MemcmpMalformed,
    /// A memcmp filter string whose offset is not an unsigned 64-bit numeral.
    MemcmpOffset,
    /// A lamports filter string with no colon between comparator and value.
    LamportsMalformed,
    /// A lamports comparator other than eq, ne, lt or gt; carries the token.
    LamportsCmp(Vec<u8>),
    /// A lamports value that is not an unsigned 64-bit numeral; carries the
    /// token.
    LamportsValue(Vec<u8>),
    /// A data-slice string that is not `offset,length` with unsigned fields.
    DataSliceMalformed,
    /// The account-address file could not be read or parsed.
    AddressFile,
}

/// A transport-level failure. Transient: retried with backoff, without bound.
#[derive(Debug)]
pub enum TransportError {
    /// Establishing the connection failed.
    Connect,
    /// Receiving from the open stream failed.
    Recv,
    /// Sending a control message on the open stream failed.
    Send,
}

/// Malformed or missing update content. Ends the session it arrived on, but
/// the supervisor still reconnects after backoff.
#[derive(Debug)]
pub enum ProtocolError {
    /// An update message with no recognized tagged variant.
    EmptyUpdate,
    /// An update message without a creation timestamp.
    MissingTimestamp,
    /// An account update without its account record.
    MissingAccount,
    /// A transaction update without its transaction record.
    MissingTransaction,
    /// An address that is not exactly 32 bytes.
    InvalidPubkey,
    /// A signature that is not exactly 64 bytes.
    InvalidSignature,
    /// An entry hash that is not exactly 32 bytes.
    InvalidHash,
    /// A slot status code outside the wire enumeration.
    InvalidSlotStatus,
}

/// Any failure the supervisor has to act on.
#[derive(Debug)]
pub enum ClientError {
    Validation(ValidationError),
    Transport(TransportError),
    Protocol(ProtocolError),
}

/// How the supervisor treats a failure.
#[derive(PartialEq, Eq, Structural, Clone, Copy, Debug)]
pub enum ErrorClass {
    /// Exit the process with a non-zero status; zero further attempts.
    Permanent,
    /// Wait for the next backoff delay, then reconnect.
    Transient,
}

/// Validation failures are permanent; everything else is retried.
pub open spec fn spec_classify(e: &ClientError) -> ErrorClass {
    match e {
        ClientError::Validation(_) => ErrorClass::Permanent,
        ClientError::Transport(_) => ErrorClass::Transient,
        ClientError::Protocol(_) => ErrorClass::Transient,
    }
}

impl ClientError {
    /// Classifies the failure for the supervisor.
    pub fn classify(&self) -> (c: ErrorClass)
        ensures
            c == spec_classify(self),
    {
        match self {
            ClientError::Validation(_) => ErrorClass::Permanent,
            ClientError::Transport(_) => ErrorClass::Transient,
            ClientError::Protocol(_) => ErrorClass::Transient,
        }
    }
}

} // verus!
