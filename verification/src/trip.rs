//! One simulated journey, from its creation over the resolution of its two
//! end points and its insertion into the road network to its end.
//!
//! A trip is a state machine. Each message it receives changes its state and
//! yields a list of messages that it wants sent, in order; whoever runs the
//! trip sends them. The model of a trip, [`TripModel`], says for every
//! message what the next state and that list are; the executable [`Trip`]
//! is proved to do exactly that.

use vstd::prelude::*;
use crate::fate::{FailureRecord, TripFate, TripResult};
use crate::ids::{NodeID, RoughLocationID, TripID, TripListenerID};
use crate::location::{PreciseLocation, Scalar, ZERO_BITS};
use crate::time::Instant;

verus! {

/// Whether a failed trip also asks for its two end points to be drawn.
pub const DEBUG_FAILED_TRIPS_VISUALLY: bool = false;

/// Bit pattern of the real number eight, the highest speed of a traveller
/// that a trip puts on the road.
pub const MAX_VELOCITY_BITS: u32 = 0x4100_0000;

/// Something on a lane that others must not run into.
#[derive(Clone, Copy, PartialEq, Eq, Debug)]
pub struct Obstacle {
    pub position: Scalar,
    pub velocity: Scalar,
    pub max_velocity: Scalar,
}

/// A traveller as the lanes take it on.
#[derive(Clone, Copy, PartialEq, Eq, Debug)]
pub struct LaneCar {
    pub trip: TripID,
    pub as_obstacle: Obstacle,
    pub acceleration: Scalar,
    pub destination: PreciseLocation,
    pub next_hop_interaction: Option<u8>,
}

impl LaneCar {
    /// The traveller of `trip` as it enters the network at `source`: at the
    /// source's offset, standing still, not accelerating, bound for
    /// `destination`, with no next hop chosen yet.
    pub open spec fn entering(
        trip: TripID,
        source: PreciseLocation,
        destination: PreciseLocation,
    ) -> LaneCar {
        LaneCar {
            trip,
            as_obstacle: Obstacle {
                position: source.offset,
                velocity: Scalar::zero(),
                max_velocity: Scalar { bits: MAX_VELOCITY_BITS },
            },
            acceleration: Scalar::zero(),
            destination,
            next_hop_interaction: None,
        }
    }
}

/// A message that a trip wants sent.
#[derive(Clone, Copy, PartialEq, Eq, Debug)]
pub enum TripAction {
    /// Ask `location` to resolve itself to a network attachment and to
    /// answer to `requester`.
    ResolveLocation { requester: TripID, location: RoughLocationID, instant: Instant },
    /// Tell `listener` that `trip` exists.
    NotifyCreated { listener: TripListenerID, trip: TripID },
    /// Ask the network to take on `car` at `attachment`.
    InsertTraveler { attachment: NodeID, car: LaneCar, instant: Instant },
    /// Write a failed trip to the diagnostic log.
    ReportFailure { record: FailureRecord },
    /// Ask for the two end points of a failed trip to be drawn.
    VisualizeFailure { rough_source: RoughLocationID, rough_destination: RoughLocationID },
    /// Tell `listener` how `trip` ended.
    NotifyResult {
        listener: TripListenerID,
        trip: TripID,
        result: TripResult,
        rough_source: RoughLocationID,
        rough_destination: RoughLocationID,
    },
}

/// An observer of trips. It is told once that a trip exists and once how it
/// ended; whether to try again after a failure is its own business.
pub trait TripListener {
    fn trip_created(&mut self, trip: TripID);

    fn trip_result(
        &mut self,
        trip: TripID,
        result: TripResult,
        rough_source: RoughLocationID,
        rough_destination: RoughLocationID,
    );
}

/// Where a trip stands in its life.
#[derive(Clone, Copy, PartialEq, Eq, Debug)]
pub enum TripPhase {
    /// The source is not resolved yet, and the destination is another place.
    AwaitingSource,
    /// The source is resolved, the destination is not.
    AwaitingDestination,
    /// Source and destination are one place, which is not resolved yet.
    AwaitingBoth,
    /// Both ends are resolved and the traveller has been handed to the
    /// network; the trip waits for the network to report how it ended.
    Inserted,
    /// The trip has ended.
    Terminated,
}

/// What a trip is, as a plain value.
pub struct TripModel {
    pub id: TripID,
    pub rough_source: RoughLocationID,
    pub rough_destination: RoughLocationID,
    pub source: Option<PreciseLocation>,
    pub destination: Option<PreciseLocation>,
    pub listener: Option<TripListenerID>,
    pub terminated: bool,
}

impl TripModel {
    /// The trip is alive and has handed its traveller to the network.
    pub open spec fn is_inserted(self) -> bool {
        !self.terminated && self.source.is_some() && self.destination.is_some()
    }

    /// The trip is alive and still lacks an end point.
    pub open spec fn is_resolving(self) -> bool {
        !self.terminated && !(self.source.is_some() && self.destination.is_some())
    }

    pub open spec fn phase(self) -> TripPhase {
        if self.terminated {
            TripPhase::Terminated
        } else if self.source.is_some() && self.destination.is_some() {
            TripPhase::Inserted
        } else if self.source.is_some() {
            TripPhase::AwaitingDestination
        } else if self.rough_source == self.rough_destination {
            TripPhase::AwaitingBoth
        } else {
            TripPhase::AwaitingSource
        }
    }

    /// A new trip: nothing resolved, not ended.
    pub open spec fn spawned(
        id: TripID,
        rough_source: RoughLocationID,
        rough_destination: RoughLocationID,
        listener: Option<TripListenerID>,
    ) -> TripModel {
        TripModel {
            id,
            rough_source,
            rough_destination,
            source: None,
            destination: None,
            listener,
            terminated: false,
        }
    }

    /// What a new trip sends: the request to resolve its source, then the
    /// news of its creation to its listener, if it has one.
    pub open spec fn spawn_actions(
        id: TripID,
        rough_source: RoughLocationID,
        listener: Option<TripListenerID>,
        instant: Instant,
    ) -> Seq<TripAction> {
        seq![TripAction::ResolveLocation { requester: id, location: rough_source, instant }]
            + match listener {
            Some(listener) => seq![TripAction::NotifyCreated { listener, trip: id }],
            None => Seq::empty(),
        }
    }

    /// The trip after it has ended.
    pub open spec fn finished(self) -> TripModel {
        TripModel { terminated: true, ..self }
    }

    /// What the trip knows of itself when it fails with `fate`.
    pub open spec fn failure_record(self, fate: TripFate) -> FailureRecord {
        FailureRecord {
            trip: self.id,
            fate,
            rough_source: self.rough_source,
            source: self.source,
            rough_destination: self.rough_destination,
            destination: self.destination,
        }
    }

    /// The diagnostics of an ending: none unless the fate is a failure.
    pub open spec fn failure_report(self, result: TripResult) -> Seq<TripAction> {
        if result.fate.is_failure() {
            seq![TripAction::ReportFailure { record: self.failure_record(result.fate) }] + (
            if DEBUG_FAILED_TRIPS_VISUALLY {
                seq![
                    TripAction::VisualizeFailure {
                        rough_source: self.rough_source,
                        rough_destination: self.rough_destination,
                    },
                ]
            } else {
                Seq::empty()
            })
        } else {
            Seq::empty()
        }
    }

    /// The news of an ending for the listener, if there is one.
    pub open spec fn result_notice(self, result: TripResult) -> Seq<TripAction> {
        match self.listener {
            Some(listener) => seq![
                TripAction::NotifyResult {
                    listener,
                    trip: self.id,
                    result,
                    rough_source: self.rough_source,
                    rough_destination: self.rough_destination,
                },
            ],
            None => Seq::empty(),
        }
    }

    /// What a trip sends when it is told to end with `result`: its
    /// diagnostics, then the news for its listener. A trip that has ended
    /// already sends nothing.
    pub open spec fn finish_actions(self, result: TripResult) -> Seq<TripAction> {
        if self.terminated {
            Seq::empty()
        } else {
            self.failure_report(result) + self.result_notice(result)
        }
    }

    /// The result with which a trip ends when one of its rough locations
    /// cannot be resolved. It names the source as the place where the
    /// traveller is, whichever of the two locations it was.
    pub open spec fn unresolvable(self) -> TripResult {
        TripResult {
            location_now: Some(self.rough_source),
            fate: TripFate::SourceOrDestinationNotResolvable,
        }
    }

    /// Whether the trip may be told that `rough_location` resolved to
    /// `location`. An attachment for a place that is neither the trip's
    /// source nor its destination cannot be an answer to anything the trip
    /// has asked.
    pub open spec fn admits(
        self,
        rough_location: RoughLocationID,
        location: Option<PreciseLocation>,
    ) -> bool {
        location.is_some() ==> rough_location == self.rough_source || rough_location
            == self.rough_destination
    }

    /// The trip after it has been told that `rough_location` resolved to
    /// `location`.
    ///
    /// No attachment ends the trip. An attachment is recorded while the trip
    /// still lacks an end point: as the source if the place is the trip's
    /// source, as the destination if it is the trip's destination, as both
    /// if it is both. A trip that has both ends, or has ended, stays as it is.
    pub open spec fn resolved(
        self,
        rough_location: RoughLocationID,
        location: Option<PreciseLocation>,
    ) -> TripModel {
        let records = self.is_resolving() && location.is_some();
        TripModel {
            source: if records && rough_location == self.rough_source {
                location
            } else {
                self.source
            },
            destination: if records && rough_location == self.rough_destination {
                location
            } else {
                self.destination
            },
            terminated: self.terminated || location.is_none(),
            ..self
        }
    }

    /// The request to resolve the destination. It follows the answer for the
    /// source, unless that one answer serves for both.
    pub open spec fn destination_request(
        self,
        rough_location: RoughLocationID,
        instant: Instant,
    ) -> Seq<TripAction> {
        if rough_location == self.rough_source && self.rough_source != self.rough_destination {
            seq![
                TripAction::ResolveLocation {
                    requester: self.id,
                    location: self.rough_destination,
                    instant,
                },
            ]
        } else {
            Seq::empty()
        }
    }

    /// The request to take on the traveller, once both ends are known.
    pub open spec fn insertion(self, instant: Instant) -> Seq<TripAction> {
        if self.source.is_some() && self.destination.is_some() {
            seq![
                TripAction::InsertTraveler {
                    attachment: self.source.unwrap().node,
                    car: LaneCar::entering(
                        self.id,
                        self.source.unwrap(),
                        self.destination.unwrap(),
                    ),
                    instant,
                },
            ]
        } else {
            Seq::empty()
        }
    }

    /// What a trip sends when it is told that `rough_location` resolved to
    /// `location`.
    ///
    /// Without an attachment it ends as [`Self::unresolvable`] and sends what
    /// an ending sends, and nothing else. With one, while it still lacks an
    /// end point, it asks for the destination where that is due, and for
    /// the insertion if it now has both ends. A trip that has both ends, or
    /// has ended, sends nothing.
    pub open spec fn resolved_actions(
        self,
        rough_location: RoughLocationID,
        location: Option<PreciseLocation>,
        instant: Instant,
    ) -> Seq<TripAction> {
        if self.terminated {
            Seq::empty()
        } else if location.is_none() {
            self.finish_actions(self.unresolvable())
        } else if !self.is_resolving() {
            Seq::empty()
        } else {
            self.destination_request(rough_location, instant) + self.resolved(
                rough_location,
                location,
            ).insertion(instant)
        }
    }
}

/// One simulated journey.
#[derive(PartialEq, Eq, Debug)]
pub struct Trip {
    id: TripID,
    rough_source: RoughLocationID,
    rough_destination: RoughLocationID,
    source: Option<PreciseLocation>,
    destination: Option<PreciseLocation>,
    listener: Option<TripListenerID>,
    terminated: bool,
}

impl View for Trip {
    type V = TripModel;

    closed spec fn view(&self) -> TripModel {
        TripModel {
            id: self.id,
            rough_source: self.rough_source,
            rough_destination: self.rough_destination,
            source: self.source,
            destination: self.destination,
            listener: self.listener,
            terminated: self.terminated,
        }
    }
}

impl Trip {
    /// Creates a trip from `rough_source` to `rough_destination`. The trip
    /// asks for its source to be resolved and tells its listener, if it has
    /// one, that it exists.
    pub fn spawn(
        id: TripID,
        rough_source: RoughLocationID,
        rough_destination: RoughLocationID,
        listener: Option<TripListenerID>,
        instant: Instant,
    ) -> (spawned: (Trip, Vec<TripAction>))
        ensures
            spawned.0@ == TripModel::spawned(id, rough_source, rough_destination, listener),
            spawned.1@ == TripModel::spawn_actions(id, rough_source, listener, instant),
    {
        let mut actions: Vec<TripAction> = Vec::new();
        actions.push(TripAction::ResolveLocation { requester: id, location: rough_source, instant });
        if let Some(listener) = listener {
            actions.push(TripAction::NotifyCreated { listener, trip: id });
        }
        let trip = Trip {
            id,
            rough_source,
            rough_destination,
            source: None,
            destination: None,
            listener,
            terminated: false,
        };
        (trip, actions)
    }

    /// Ends the trip with `result`, from whatever state it is in. A failure
    /// goes to the diagnostic log with all that the trip knows; the result
    /// goes to the listener, if there is one. Afterwards the trip is dead:
    /// whatever it is told, it stays as it is and sends nothing.
    pub fn finish(&mut self, result: TripResult) -> (actions: Vec<TripAction>)
        ensures
            final(self)@ == old(self)@.finished(),
            actions@ == old(self)@.finish_actions(result),
    {
        let mut actions: Vec<TripAction> = Vec::new();
        if self.terminated {
            return actions;
        }
        if result.fate.failed() {
            actions.push(
                TripAction::ReportFailure {
                    record: FailureRecord {
                        trip: self.id,
                        fate: result.fate,
                        rough_source: self.rough_source,
                        source: self.source,
                        rough_destination: self.rough_destination,
                        destination: self.destination,
                    },
                },
            );
            if DEBUG_FAILED_TRIPS_VISUALLY {
                actions.push(
                    TripAction::VisualizeFailure {
                        rough_source: self.rough_source,
                        rough_destination: self.rough_destination,
                    },
                );
            }
        }
        if let Some(listener) = self.listener {
            actions.push(
                TripAction::NotifyResult {
                    listener,
                    trip: self.id,
                    result,
                    rough_source: self.rough_source,
                    rough_destination: self.rough_destination,
                },
            );
        }
        self.terminated = true;
        actions
    }

    /// Takes the answer to a resolution request: `rough_location` resolved
    /// to `location`, or to nothing.
    ///
    /// Without an attachment the trip ends at once, as
    /// [`TripModel::unresolvable`]. With one, the trip records it; after the
    /// source it asks for the destination, unless both are one place; and as
    /// soon as it has both ends it asks the network to take on its traveller.
    /// The two answers may come in either order.
    pub fn location_resolved(
        &mut self,
        rough_location: RoughLocationID,
        location: Option<PreciseLocation>,
        instant: Instant,
    ) -> (actions: Vec<TripAction>)
        requires
            old(self)@.admits(rough_location, location),
        ensures
            final(self)@ == old(self)@.resolved(rough_location, location),
            actions@ == old(self)@.resolved_actions(rough_location, location, instant),
    {
        if self.terminated {
            return Vec::new();
        }
        let precise = match location {
            Some(precise) => precise,
            None => {
                return self.finish(
                    TripResult {
                        location_now: Some(self.rough_source),
                        fate: TripFate::SourceOrDestinationNotResolvable,
                    },
                );
            },
        };
        let mut actions: Vec<TripAction> = Vec::new();
        if self.source.is_some() && self.destination.is_some() {
            return actions;
        }
        if rough_location == self.rough_source {
            self.source = Some(precise);
            if self.rough_source == self.rough_destination {
                self.destination = Some(precise);
            } else {
                actions.push(
                    TripAction::ResolveLocation {
                        requester: self.id,
                        location: self.rough_destination,
                        instant,
                    },
                );
            }
        } else if rough_location == self.rough_destination {
            self.destination = Some(precise);
        }
        if let Some(source) = self.source {
            if let Some(destination) = self.destination {
                actions.push(
                    TripAction::InsertTraveler {
                        attachment: source.node,
                        car: LaneCar {
                            trip: self.id,
                            as_obstacle: Obstacle {
                                position: source.offset,
                                velocity: Scalar { bits: ZERO_BITS },
                                max_velocity: Scalar { bits: MAX_VELOCITY_BITS },
                            },
                            acceleration: Scalar { bits: ZERO_BITS },
                            destination,
                            next_hop_interaction: None,
                        },
                        instant,
                    },
                );
            }
        }
        actions
    }

    /// Whether the trip may be told that `rough_location` resolved to
    /// `location`: to test before [`Self::location_resolved`].
    pub fn admits(&self, rough_location: RoughLocationID, location: &Option<PreciseLocation>) -> (admitted: bool)
        ensures
            admitted == self@.admits(rough_location, *location),
    {
        location.is_none() || rough_location == self.rough_source || rough_location
            == self.rough_destination
    }

    pub fn id(&self) -> (id: TripID)
        ensures
            id == self@.id,
    {
        self.id
    }

    pub fn rough_source(&self) -> (rough_source: RoughLocationID)
        ensures
            rough_source == self@.rough_source,
    {
        self.rough_source
    }

    pub fn rough_destination(&self) -> (rough_destination: RoughLocationID)
        ensures
            rough_destination == self@.rough_destination,
    {
        self.rough_destination
    }

    /// The attachment of the source, once it is resolved.
    pub fn source(&self) -> (source: Option<PreciseLocation>)
        ensures
            source == self@.source,
    {
        self.source
    }

    /// The attachment of the destination, once it is resolved.
    pub fn destination(&self) -> (destination: Option<PreciseLocation>)
        ensures
            destination == self@.destination,
    {
        self.destination
    }

    pub fn listener(&self) -> (listener: Option<TripListenerID>)
        ensures
            listener == self@.listener,
    {
        self.listener
    }

    /// Whether the trip has ended.
    pub fn is_terminated(&self) -> (terminated: bool)
        ensures
            terminated == self@.terminated,
    {
        self.terminated
    }

    /// Where the trip stands in its life.
    pub fn phase(&self) -> (phase: TripPhase)
        ensures
            phase == self@.phase(),
    {
        if self.terminated {
            TripPhase::Terminated
        } else if self.source.is_some() && self.destination.is_some() {
            TripPhase::Inserted
        } else if self.source.is_some() {
            TripPhase::AwaitingDestination
        } else if self.rough_source == self.rough_destination {
            TripPhase::AwaitingBoth
        } else {
            TripPhase::AwaitingSource
        }
    }
}

} // verus!
