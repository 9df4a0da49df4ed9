//! Stable identifiers by which the entities of the simulation address each
//! other. An identifier is a plain value: two identifiers refer to the same
//! entity exactly when all their parts are equal.

use vstd::prelude::*;

verus! {

/// The untyped identity of an entity: which kind of entity it is, which
/// instance of that kind, on which machine it lives, and which incarnation
/// of a reused instance slot it is.
#[derive(Clone, Copy, PartialEq, Eq, Structural, Debug, Hash)]
pub struct RawID {
    pub instance_id: u32,
    pub type_id: u16,
    pub machine: u8,
    pub version: u8,
}

/// Identifies one trip.
#[derive(Clone, Copy, PartialEq, Eq, Structural, Debug, Hash)]
pub struct TripID {
    pub raw: RawID,
}

/// Identifies an observer of trips.
#[derive(Clone, Copy, PartialEq, Eq, Structural, Debug, Hash)]
pub struct TripListenerID {
    pub raw: RawID,
}

/// Identifies something that can describe a place coarsely and resolve that
/// description to an attachment on the road network: a building, a lane end,
/// a rough coordinate.
#[derive(Clone, Copy, PartialEq, Eq, Structural, Debug, Hash)]
pub struct RoughLocationID {
    pub raw: RawID,
}

/// Identifies a node of the road network to which a traveller can attach.
#[derive(Clone, Copy, PartialEq, Eq, Structural, Debug, Hash)]
pub struct NodeID {
    pub raw: RawID,
}

/// Identifies a lane.
#[derive(Clone, Copy, PartialEq, Eq, Structural, Debug, Hash)]
pub struct LaneID {
    pub raw: RawID,
}

/// Identifies the scheduler that batches lane ends into trips.
#[derive(Clone, Copy, PartialEq, Eq, Structural, Debug, Hash)]
pub struct TripCreatorID {
    pub raw: RawID,
}

/// Identifies the simulation clock that delivers delayed wake-ups.
#[derive(Clone, Copy, PartialEq, Eq, Structural, Debug, Hash)]
pub struct SimulationID {
    pub raw: RawID,
}

/// Identifies a visualiser of one failed trip.
#[derive(Clone, Copy, PartialEq, Eq, Structural, Debug, Hash)]
pub struct FailedTripDebuggerID {
    pub raw: RawID,
}

impl LaneID {
    /// The lane seen as a rough location: the same entity under the
    /// capability of resolving itself to a network attachment.
    pub open spec fn rough_location(self) -> RoughLocationID {
        RoughLocationID { raw: self.raw }
    }
}

impl From<LaneID> for RoughLocationID {
    fn from(lane: LaneID) -> (location: RoughLocationID) {
        RoughLocationID { raw: lane.raw }
    }
}

impl vstd::std_specs::convert::FromSpecImpl<LaneID> for RoughLocationID {
    open spec fn obeys_from_spec() -> bool {
        true
    }

    open spec fn from_spec(lane: LaneID) -> RoughLocationID {
        lane.rough_location()
    }
}

} // verus!
