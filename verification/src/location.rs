//! Places on the road network and in the plane.
//!
//! Distances and coordinates are real numbers that this library only carries
//! from the message that brings them to the message that takes them on; it
//! never computes with them. They are held as bit patterns, so that what goes
//! out is exactly what came in.

use vstd::prelude::*;
use crate::ids::NodeID;

verus! {

/// Bit pattern of the real number zero.
pub const ZERO_BITS: u32 = 0;

/// A real number in single precision, held as its IEEE 754 bit pattern.
#[derive(Clone, Copy, PartialEq, Eq, Structural, Debug)]
pub struct Scalar {
    pub bits: u32,
}

impl Scalar {
    /// The number zero.
    pub open spec fn zero() -> Scalar {
        Scalar { bits: ZERO_BITS }
    }
}

/// A concrete attachment to the road network: a node and how far along it.
/// The offset is never negative. Only resolving a rough location yields one.
#[derive(Clone, Copy, PartialEq, Eq, Structural, Debug)]
pub struct PreciseLocation {
    pub node: NodeID,
    pub offset: Scalar,
}

/// A point in the plane.
#[derive(Clone, Copy, PartialEq, Eq, Structural, Debug)]
pub struct Position {
    pub x: Scalar,
    pub y: Scalar,
}

} // verus!
