//! Bit masks shared with the native service: reader states, card status
//! and communication-protocol sets.
//!
//! Each mask type wraps the raw word and keeps, through
//! `from_bits_truncate`, only the bits that carry a defined meaning.

use vstd::prelude::*;

verus! {

pub const STATE_UNAWARE: u32 = 0x0000;
pub const STATE_IGNORE: u32 = 0x0001;
pub const STATE_CHANGED: u32 = 0x0002;
pub const STATE_UNKNOWN: u32 = 0x0004;
pub const STATE_UNAVAILABLE: u32 = 0x0008;
pub const STATE_EMPTY: u32 = 0x0010;
pub const STATE_PRESENT: u32 = 0x0020;
pub const STATE_ATRMATCH: u32 = 0x0040;
pub const STATE_EXCLUSIVE: u32 = 0x0080;
pub const STATE_INUSE: u32 = 0x0100;
pub const STATE_MUTE: u32 = 0x0200;
pub const STATE_UNPOWERED: u32 = 0x0400;

/// All reader-state bits with a defined meaning.
pub const STATE_MASK: u32 = 0x07FF;

/// A mask of the state of a card reader.
#[derive(Clone, Copy, Debug, PartialEq, Eq, Hash, Structural)]
pub struct State {
    pub bits: u32,
}

impl State {
    /// The mask holding the defined bits of `bits` and nothing else.
    pub fn from_bits_truncate(bits: u32) -> (r: State)
        ensures
            r.bits == bits & STATE_MASK,
    {
        State { bits: bits & STATE_MASK }
    }

    /// The raw word.
    pub fn bits(self) -> (r: u32)
        ensures
            r == self.bits,
    {
        self.bits
    }

    /// Whether every bit of `other` is set in `self`.
    pub fn contains(self, other: State) -> (r: bool)
        ensures
            r == (self.bits & other.bits == other.bits),
    {
        self.bits & other.bits == other.bits
    }
}

pub const STATUS_UNKNOWN: u32 = 0x0001;
pub const STATUS_ABSENT: u32 = 0x0002;
pub const STATUS_PRESENT: u32 = 0x0004;
pub const STATUS_SWALLOWED: u32 = 0x0008;
pub const STATUS_POWERED: u32 = 0x0010;
pub const STATUS_NEGOTIABLE: u32 = 0x0020;
pub const STATUS_SPECIFIC: u32 = 0x0040;

/// All card-status bits with a defined meaning.
pub const STATUS_MASK: u32 = 0x007F;

/// A mask of the status of a card in a card reader.
#[derive(Clone, Copy, Debug, PartialEq, Eq, Hash, Structural)]
pub struct Status {
    pub bits: u32,
}

impl Status {
    /// The mask holding the defined bits of `bits` and nothing else.
    pub fn from_bits_truncate(bits: u32) -> (r: Status)
        ensures
            r.bits == bits & STATUS_MASK,
    {
        Status { bits: bits & STATUS_MASK }
    }

    /// The raw word.
    pub fn bits(self) -> (r: u32)
        ensures
            r == self.bits,
    {
        self.bits
    }

    /// Whether every bit of `other` is set in `self`.
    pub fn contains(self, other: Status) -> (r: bool)
        ensures
            r == (self.bits & other.bits == other.bits),
    {
        self.bits & other.bits == other.bits
    }
}

pub const PROTOCOL_UNDEFINED: u32 = 0x0000;
pub const PROTOCOL_T0: u32 = 0x0001;
pub const PROTOCOL_T1: u32 = 0x0002;
pub const PROTOCOL_RAW: u32 = 0x0004;
pub const PROTOCOL_ANY: u32 = 0x0003;

/// A mask of acceptable communication protocols, offered to the native
/// service when it negotiates a connection.
#[derive(Clone, Copy, Debug, PartialEq, Eq, Hash, Structural)]
pub struct Protocols {
    pub bits: u32,
}

impl Protocols {
    /// The mask holding exactly the given raw bits.
    pub fn from_bits(bits: u32) -> (r: Protocols)
        ensures
            r.bits == bits,
    {
        Protocols { bits }
    }

    /// The raw word.
    pub fn bits(self) -> (r: u32)
        ensures
            r == self.bits,
    {
        self.bits
    }
}

} // verus!
