//! Simulation time, counted in ticks.

use vstd::prelude::*;

verus! {

/// A point in simulation time: the number of ticks since the simulation began.
#[derive(Clone, Copy, PartialEq, Eq, Structural, Debug)]
pub struct Instant(pub usize);

/// A span of simulation time.
#[derive(Clone, Copy, PartialEq, Eq, Structural, Debug)]
pub struct Ticks(pub usize);

} // verus!
