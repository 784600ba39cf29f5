//! Error taxonomy: register-level encode/decode failures, frame assembly
//! failures, frame parsing failures, and the session-level wrapper.

use crate::registers::FrameRegisters;
use vstd::prelude::*;

verus! {

/// Errors that can occur when writing and/or parsing registers.
#[derive(Clone, Copy, Debug, PartialEq, Eq, Structural)]
pub enum RegisterError {
    /// The value is too large to fit in the register at the chosen resolution.
    Overflow,
    /// The decoded integer does not name any known enum value.
    InvalidData,
    /// The parsed address does not name any known register.
    InvalidAddress,
    /// An integer-valued register was asked for at float resolution.
    IntAsFloat,
    /// The supplied bytes are too short for the declared resolution.
    Io,
    /// The register has no resolution mapping.
    NoMapping,
    /// A register placeholder with no payload was used where data is needed.
    NoData,
}

/// Errors that can occur when assembling subframes into frames.
#[derive(Clone, Copy, Debug, PartialEq, Eq, Structural)]
pub enum FrameError {
    /// The registers are not at consecutive addresses; the subframe must be
    /// split into smaller consecutive subframes.
    NonSequentialRegisters,
    /// The subframe holds no register; subframes must contain at least one.
    EmptySubFrame,
    /// Read requests (no payload) and writes (payload) are mixed in one
    /// subframe.
    MixedReadWrites,
}

/// Errors that can occur when parsing raw bytes into subframes.
#[derive(Clone, Copy, Debug, PartialEq, Eq, Structural)]
pub enum FrameParseError {
    /// The header byte's kind bits match no known subframe kind; carries the
    /// offending header byte.
    InvalidFrameRegister(u8),
    /// A structurally valid kind that this decoder does not handle.
    UnsupportedSubframeRegister(FrameRegisters),
    /// A register-level failure while decoding a subframe's payload.
    RegisterError(RegisterError),
}

/// Errors surfaced by a session exchange with one device; `E` is the
/// transport's own error type.
#[derive(Debug)]
pub enum Error<E> {
    /// The transport failed to transmit or receive.
    Transport(E),
    /// The frame payload would exceed the CAN-FD limit of 64 bytes; carries
    /// the offending length.
    InvalidFrameLength(usize),
    /// A frame could not be assembled.
    Frame(FrameError),
    /// A response could not be parsed.
    FrameParse(FrameParseError),
    /// A response was expected and none arrived.
    NoResponse,
}

} // verus!
