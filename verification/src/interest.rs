//! Readiness conditions as a bit mask.

use vstd::prelude::*;

verus! {

/// A set of readiness conditions. The loop never interprets a mask that a
/// caller registers: it hands it to the kernel and stores it unchanged.
#[derive(Clone, Copy, PartialEq, Eq, Structural, Debug)]
pub struct Interest {
    pub bits: u32,
}

/// The bit for data to read.
pub const READABLE: u32 = 0x001;

/// The bit for room to write.
pub const WRITABLE: u32 = 0x004;

/// The bit for an error on the descriptor. The kernel reports it whether
/// it was asked for or not.
pub const ERROR: u32 = 0x008;

/// The bit for a peer that has hung up. The kernel reports it whether it
/// was asked for or not.
pub const HANGUP: u32 = 0x010;

impl Interest {
    /// The bits of the mask.
    pub open spec fn view(&self) -> u32 {
        self.bits
    }

    /// The mask with exactly the bits of `bits`.
    pub fn from_bits(bits: u32) -> (r: Interest)
        ensures
            r@ == bits,
    {
        Interest { bits }
    }

    /// The mask for data to read.
    pub fn readable() -> (r: Interest)
        ensures
            r@ == READABLE,
    {
        Interest { bits: READABLE }
    }

    /// The mask for room to write.
    pub fn writable() -> (r: Interest)
        ensures
            r@ == WRITABLE,
    {
        Interest { bits: WRITABLE }
    }

    /// The bits of the mask.
    pub fn bits(&self) -> (r: u32)
        ensures
            r == self@,
    {
        self.bits
    }

    /// The mask with the conditions of both masks.
    pub fn union(self, other: Interest) -> (r: Interest)
        ensures
            r@ == self@ | other@,
    {
        Interest { bits: self.bits | other.bits }
    }

    /// Whether the two masks have a condition in common.
    pub fn intersects(&self, other: Interest) -> (r: bool)
        ensures
            r == (self@ & other@ != 0),
    {
        self.bits & other.bits != 0
    }

    /// Whether the mask holds the bit for data to read.
    pub fn is_readable(&self) -> (r: bool)
        ensures
            r == (self@ & READABLE != 0),
    {
        self.bits & READABLE != 0
    }

    /// Whether the mask holds the bit for room to write.
    pub fn is_writable(&self) -> (r: bool)
        ensures
            r == (self@ & WRITABLE != 0),
    {
        self.bits & WRITABLE != 0
    }

    /// Whether the mask holds the bit for an error.
    pub fn is_error(&self) -> (r: bool)
        ensures
            r == (self@ & ERROR != 0),
    {
        self.bits & ERROR != 0
    }

    /// Whether the mask holds the bit for a peer that has hung up.
    pub fn is_hangup(&self) -> (r: bool)
        ensures
            r == (self@ & HANGUP != 0),
    {
        self.bits & HANGUP != 0
    }
}

} // verus!
