//! Shared types of the H.264 (AVC) modules.
use vstd::prelude::*;

verus! {

/// A duration in milliseconds.
#[derive(Debug, Clone, Copy)]
pub struct Millis(pub u64);

/// Why a piece of an H.264 stream could not be read.
#[derive(Debug, Clone, Copy, PartialEq, Eq, Structural)]
pub enum AvcError {
    /// The input ended before the structure being read was complete.
    NotEnoughData,
    /// A decoder configuration record whose version is not 1.
    UnsupportedConfigurationRecordVersion(u8),
    /// A NAL unit type that the specification reserves.
    ReservedNalUnitType(u8),
    /// A NAL unit type that is neither assigned nor reserved here.
    UnknownNalUnitType(u8),
    /// No sequence parameter set was found.
    NoSps,
}

} // verus!
