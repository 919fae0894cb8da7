//! The failure vocabulary of the stream client: transport failures, frame
//! decode failures and their field-level causes, and closed internal
//! channels.

use vstd::prelude::*;

verus! {

/// Why a single field of a service-message payload could not be coerced to
/// its typed form.
#[derive(Copy, Clone, PartialEq, Eq, Structural, Debug)]
pub enum FieldParseError {
    /// A numeric-from-string field did not hold a number of the expected
    /// width.
    NonNumeric,
    /// A boolean field held something other than its two allowed literals.
    InvalidBoolean,
    /// An enumeration field held a number that names no known value.
    UnknownEnumValue,
}

/// Why a recognized frame's body could not be decoded.
#[derive(Copy, Clone, PartialEq, Eq, Structural, Debug)]
pub enum MalformedCause {
    /// The frame text is not a well-formed wire value.
    NotJson,
    /// The frame or payload is not an object.
    NotAnObject,
    /// The discriminator field is absent.
    MissingDiscriminator,
    /// The discriminator field is not a string.
    BadDiscriminator,
    /// A required field is absent.
    MissingField,
    /// A field holds a value of the wrong shape (for instance a number
    /// where a string is expected).
    WrongFieldShape,
    /// A field of the right shape failed its coercion.
    Field(FieldParseError),
}

/// Why an inbound frame could not be decoded. A decode failure is local to
/// its one frame: it never ends the connection.
#[derive(Copy, Clone, PartialEq, Eq, Structural, Debug)]
pub enum DecodeError {
    /// The discriminator matches no known frame or event kind.
    UnknownDiscriminator,
    /// A recognized kind whose body has the wrong shape, with the
    /// structural cause.
    MalformedPayload(MalformedCause),
}

/// A transport-level failure, by kind. Mirrors the failure kinds the
/// underlying socket layer reports.
#[derive(Copy, Clone, PartialEq, Eq, Structural, Debug)]
pub enum TransportError {
    /// The connection was closed normally.
    ConnectionClosed,
    /// The connection was already closed when the operation ran.
    AlreadyClosed,
    /// An input/output failure.
    Io,
    /// A TLS failure.
    Tls,
    /// A frame exceeded a size limit.
    Capacity,
    /// A protocol violation.
    Protocol,
    /// The send queue is full.
    SendQueueFull,
    /// A frame held text that is not valid UTF-8.
    Utf8,
    /// The endpoint address is invalid.
    Url,
    /// An HTTP failure during the opening handshake.
    Http,
    /// A malformed HTTP message during the opening handshake.
    HttpFormat,
}

impl TransportError {
    /// Whether this failure means the connection is gone for writing:
    /// closed either way, an input/output or TLS failure, or a protocol
    /// violation.
    pub open spec fn spec_is_disconnect(self) -> bool {
        match self {
            TransportError::ConnectionClosed => true,
            TransportError::AlreadyClosed => true,
            TransportError::Io => true,
            TransportError::Tls => true,
            TransportError::Protocol => true,
            _ => false,
        }
    }

    /// Whether this failure means the connection is gone.
    pub fn is_disconnect_error(&self) -> (r: bool)
        ensures
            r == self.spec_is_disconnect(),
    {
        match self {
            TransportError::ConnectionClosed => true,
            TransportError::AlreadyClosed => true,
            TransportError::Io => true,
            TransportError::Tls => true,
            TransportError::Protocol => true,
            _ => false,
        }
    }
}

/// An internal queue's receiving end has been dropped: a logic error,
/// surfaced loudly rather than swallowed.
#[derive(Copy, Clone, PartialEq, Eq, Structural, Debug)]
pub struct ChannelClosedError;

} // verus!
