//! Error taxonomy of the library: validation faults caught before any I/O,
//! transport failures reported by the caller's HTTP layer, protocol
//! violations found in a response, and capture-sink failures.

use vstd::prelude::*;

verus! {

/// An input rejected before any network work is attempted.
#[derive(Clone, Copy, Debug, PartialEq, Eq, Structural)]
pub enum ValidationFault {
    /// The area id is not a fixed two-letter prefix followed by 1..=47.
    BadAreaId,
    /// The station id is not a nonempty uppercase-alphanumeric token.
    BadStationId,
    /// The requested recording duration is zero.
    NonPositiveDuration,
    /// The start timestamp is not a valid fourteen-digit local time.
    BadStartTime,
}

/// A response that violates the authorization protocol's contract.
#[derive(Clone, Copy, Debug, PartialEq, Eq, Structural)]
pub enum ProtocolFault {
    /// The step-1 response carries no auth-token header.
    MissingAuthToken,
    /// The step-1 response carries no key-offset header.
    MissingKeyOffset,
    /// The step-1 response carries no key-length header.
    MissingKeyLength,
    /// The key-offset header is not a decimal integer in range.
    MalformedKeyOffset,
    /// The key-length header is not a decimal integer in range.
    MalformedKeyLength,
    /// The requested slice runs past the end of the shared secret.
    KeyOutOfBounds,
    /// The station directory document does not have the expected shape.
    MalformedCatalog,
}

/// Any failure the library surfaces; never recovered locally.
#[derive(Clone, Debug)]
pub enum RadikoError {
    /// A malformed input, rejected before any I/O.
    Validation(ValidationFault),
    /// A non-success HTTP status; status and body kept for diagnostics.
    Transport { status: u16, body: String },
    /// A server response that breaks the protocol's contract.
    Protocol(ProtocolFault),
    /// The external capture process failed; the raw exit code is kept.
    Sink { code: i32 },
}

impl RadikoError {
    /// True of errors raised by input validation.
    pub fn is_validation(&self) -> (r: bool)
        ensures
            r == (self is Validation),
    {
        match self {
            RadikoError::Validation(_) => true,
            _ => false,
        }
    }

    /// True of errors raised by a non-success HTTP status.
    pub fn is_transport(&self) -> (r: bool)
        ensures
            r == (self is Transport),
    {
        match self {
            RadikoError::Transport { .. } => true,
            _ => false,
        }
    }

    /// True of errors raised by a protocol violation in a response.
    pub fn is_protocol(&self) -> (r: bool)
        ensures
            r == (self is Protocol),
    {
        match self {
            RadikoError::Protocol(_) => true,
            _ => false,
        }
    }

    /// True of errors raised by the external capture sink.
    pub fn is_sink(&self) -> (r: bool)
        ensures
            r == (self is Sink),
    {
        match self {
            RadikoError::Sink { .. } => true,
            _ => false,
        }
    }

    /// A short diagnostic label for the error, for callers that print.
    pub fn label(&self) -> (r: &'static str)
        ensures
            self is Validation ==> r@ == "validation error"@,
            self is Transport ==> r@ == "transport error"@,
            self is Protocol ==> r@ == "protocol error"@,
            self is Sink ==> r@ == "sink error"@,
    {
        match self {
            RadikoError::Validation(_) => "validation error",
            RadikoError::Transport { .. } => "transport error",
            RadikoError::Protocol(_) => "protocol error",
            RadikoError::Sink { .. } => "sink error",
        }
    }
}

} // verus!
