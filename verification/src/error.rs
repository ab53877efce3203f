//! Error taxonomy shared by every layer of the stack.
//!
//! Each fault enum pins down which check or operation failed, so that callers
//! never have to guess from a message string.

use vstd::prelude::*;

verus! {

/// Why a construction-time parameter was rejected.
#[derive(Clone, Copy, Debug, PartialEq, Eq, Structural)]
pub enum ConfigFault {
    /// The serial device could not be opened.
    SerialOpen,
    /// The read timeout could not be applied to the serial device.
    SerialTimeout,
    /// The baud rate could not be applied to the serial device.
    SerialBaud,
    /// The direction-control GPIO line could not be opened.
    PinUnavailable,
}

/// Which underlying I/O operation failed.
#[derive(Clone, Copy, Debug, PartialEq, Eq, Structural)]
pub enum IoFault {
    /// A write to the direction-control pin failed.
    PinWrite,
    /// The trailing de-assertion of the direction-control pin failed after
    /// the serial write already went through; the bus state is unknown.
    PinRelease,
    /// The serial write itself failed.
    SerialWrite,
    /// The serial read itself failed (a timeout with no data is not an
    /// error; it surfaces as a short read instead).
    SerialRead,
}

/// Which protocol-level check rejected a request or a response.
#[derive(Clone, Copy, Debug, PartialEq, Eq, Structural)]
pub enum ProtocolFault {
    /// The requested register count is zero or above the RTU span limit.
    InvalidCount,
    /// The response function code does not allow a total length guess.
    UnknownFunction,
    /// The response frame is shorter than the minimal RTU frame.
    TooShort,
    /// The CRC-16 trailer does not match the frame contents.
    CrcMismatch,
    /// The response carries a different slave address than the request.
    AddressMismatch,
    /// The slave answered with an exception response; the payload byte is
    /// the exception code.
    Exception(u8),
    /// The response function code differs from the request's.
    FunctionMismatch,
    /// The response length does not agree with its own byte-count field.
    LengthMismatch,
    /// The byte-count field does not cover the requested register count.
    ByteCountMismatch,
}

/// The error type every fallible operation of the crate returns.
#[derive(Clone, Copy, Debug, PartialEq, Eq, Structural)]
pub enum Error {
    /// Invalid construction parameters; fatal to construction.
    Configuration(ConfigFault),
    /// An underlying serial or pin operation failed.
    Io(IoFault),
    /// Fewer bytes arrived than the protocol step required.
    InsufficientData,
    /// A malformed or unrecognized frame, or invalid request parameters.
    Protocol(ProtocolFault),
}

} // verus!
