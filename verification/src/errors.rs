//! Error taxonomy: transport-level, CTAP protocol-level, and message-level
//! failures, surfaced as one disjoint union at the orchestrator boundary.

use vstd::prelude::*;

verus! {

/// Failures of the transport layer itself (discovery, connection, framing).
#[derive(Clone, Copy, Debug, PartialEq, Eq, Structural)]
pub enum TransportError {
    TransportUnavailable,
    ConnectionLost,
    NegotiationFailed,
    InvalidEndpoint,
    Timeout,
    AlreadyInProgress,
}

/// CTAP protocol-level errors, mapped from the authenticator's status byte.
#[derive(Clone, Copy, Debug, PartialEq, Eq, Structural)]
pub enum CtapError {
    InvalidCommand,
    InvalidParameter,
    InvalidLength,
    NoCredentials,
    PINInvalid,
    PINBlocked,
    PINAuthInvalid,
    PINAuthBlocked,
    PINNotSet,
    PINRequired,
    Other,
}

/// Failures in the shape of a message: malformed encoding, a field that the
/// protocol requires but the peer omitted, or a PIN/UV protocol mismatch.
#[derive(Clone, Copy, Debug, PartialEq, Eq, Structural)]
pub enum ProtocolError {
    InvalidCbor,
    MissingField,
    UnsupportedUvProtocol,
}

/// The one error union that all public operations return.
#[derive(Clone, Copy, Debug, PartialEq, Eq, Structural)]
pub enum Error {
    Transport(TransportError),
    Ctap(CtapError),
    Protocol(ProtocolError),
}

/// The CTAP2 status byte denoting each error, as the wire protocol assigns it.
pub open spec fn spec_ctap_error_code(e: CtapError) -> u8 {
    match e {
        CtapError::InvalidCommand => 0x01,
        CtapError::InvalidParameter => 0x02,
        CtapError::InvalidLength => 0x03,
        CtapError::NoCredentials => 0x2E,
        CtapError::PINInvalid => 0x31,
        CtapError::PINBlocked => 0x32,
        CtapError::PINAuthInvalid => 0x33,
        CtapError::PINAuthBlocked => 0x34,
        CtapError::PINNotSet => 0x35,
        CtapError::PINRequired => 0x36,
        CtapError::Other => 0x7F,
    }
}

/// The error denoted by a non-zero CTAP2 status byte; bytes outside the
/// known assignment fall back to `Other`.
pub open spec fn spec_ctap_error_from_code(code: u8) -> CtapError {
    if code == 0x01 {
        CtapError::InvalidCommand
    } else if code == 0x02 {
        CtapError::InvalidParameter
    } else if code == 0x03 {
        CtapError::InvalidLength
    } else if code == 0x2E {
        CtapError::NoCredentials
    } else if code == 0x31 {
        CtapError::PINInvalid
    } else if code == 0x32 {
        CtapError::PINBlocked
    } else if code == 0x33 {
        CtapError::PINAuthInvalid
    } else if code == 0x34 {
        CtapError::PINAuthBlocked
    } else if code == 0x35 {
        CtapError::PINNotSet
    } else if code == 0x36 {
        CtapError::PINRequired
    } else {
        CtapError::Other
    }
}

impl CtapError {
    /// The CTAP2 status byte for this error.
    pub fn code(&self) -> (r: u8)
        ensures
            r == spec_ctap_error_code(*self),
    {
        match self {
            CtapError::InvalidCommand => 0x01,
            CtapError::InvalidParameter => 0x02,
            CtapError::InvalidLength => 0x03,
            CtapError::NoCredentials => 0x2E,
            CtapError::PINInvalid => 0x31,
            CtapError::PINBlocked => 0x32,
            CtapError::PINAuthInvalid => 0x33,
            CtapError::PINAuthBlocked => 0x34,
            CtapError::PINNotSet => 0x35,
            CtapError::PINRequired => 0x36,
            CtapError::Other => 0x7F,
        }
    }

    /// Map a non-zero CTAP2 status byte to the error it denotes.
    pub fn from_code(code: u8) -> (r: CtapError)
        ensures
            r == spec_ctap_error_from_code(code),
    {
        match code {
            0x01 => CtapError::InvalidCommand,
            0x02 => CtapError::InvalidParameter,
            0x03 => CtapError::InvalidLength,
            0x2E => CtapError::NoCredentials,
            0x31 => CtapError::PINInvalid,
            0x32 => CtapError::PINBlocked,
            0x33 => CtapError::PINAuthInvalid,
            0x34 => CtapError::PINAuthBlocked,
            0x35 => CtapError::PINNotSet,
            0x36 => CtapError::PINRequired,
            _ => CtapError::Other,
        }
    }
}

/// Every error in the known assignment survives the round trip through its
/// status byte.
pub proof fn lemma_ctap_error_code_round_trip(e: CtapError)
    ensures
        spec_ctap_error_from_code(spec_ctap_error_code(e)) == e,
{
}

} // verus!
