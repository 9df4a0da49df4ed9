//! How a trip can end, and what is reported when it does.

use vstd::prelude::*;
use crate::ids::{RoughLocationID, TripID};
use crate::location::PreciseLocation;
use crate::time::Instant;

verus! {

/// The final classification of a trip's outcome. Nothing is retried: each
/// fate is terminal.
#[derive(Clone, Copy, PartialEq, Eq, Debug)]
pub enum TripFate {
    /// The traveller reached the end of its route at the given instant.
    Success(Instant),
    /// A rough location had no attachment to the network.
    SourceOrDestinationNotResolvable,
    /// No path connects the resolved source to the resolved destination.
    NoRoute,
    /// A route that was valid became invalid before the trip completed.
    RouteForgotten,
    /// A link on the route vanished while the traveller was under way.
    HopDisconnected,
    /// The target lane does not exist yet.
    LaneUnbuilt,
    /// The trip was cancelled from outside.
    ForceStopped,
}

impl TripFate {
    /// Whether the fate counts as a failure. Arriving and being cancelled do
    /// not; everything else does.
    pub open spec fn is_failure(self) -> bool {
        !(self is Success) && !(self is ForceStopped)
    }

    /// Whether the fate counts as a failure.
    pub fn failed(&self) -> (failure: bool)
        ensures
            failure == self.is_failure(),
    {
        match self {
            TripFate::Success(_) | TripFate::ForceStopped => false,
            _ => true,
        }
    }
}

/// What is known about a trip when it ends.
#[derive(Clone, Copy, PartialEq, Eq, Debug)]
pub struct TripResult {
    /// Where the traveller is now, if that is known.
    pub location_now: Option<RoughLocationID>,
    pub fate: TripFate,
}

/// Everything known about a trip that failed, for the diagnostic log.
#[derive(Clone, Copy, PartialEq, Eq, Debug)]
pub struct FailureRecord {
    pub trip: TripID,
    pub fate: TripFate,
    pub rough_source: RoughLocationID,
    pub source: Option<PreciseLocation>,
    pub rough_destination: RoughLocationID,
    pub destination: Option<PreciseLocation>,
}

} // verus!
