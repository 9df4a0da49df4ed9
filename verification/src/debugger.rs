//! Shows a failed trip on the map: it asks where the two ends of the trip
//! lie and, once it knows both, has them drawn.

use vstd::prelude::*;
use crate::ids::{FailedTripDebuggerID, RoughLocationID};
use crate::location::Position;

verus! {

/// A message that the visualiser wants sent.
#[derive(Clone, Copy, PartialEq, Eq, Debug)]
pub enum DebuggerAction {
    /// Ask `location` where in the plane it lies, and to answer to
    /// `requester`.
    ResolvePosition { requester: FailedTripDebuggerID, location: RoughLocationID },
    /// Draw the failed trip: a mark at each end and a line between them.
    Draw { source_position: Position, destination_position: Position },
}

/// What the visualiser is, as a plain value.
pub struct FailedTripDebuggerModel {
    pub id: FailedTripDebuggerID,
    pub rough_source: RoughLocationID,
    pub source_position: Option<Position>,
    pub rough_destination: RoughLocationID,
    pub destination_position: Option<Position>,
    pub done: bool,
}

impl FailedTripDebuggerModel {
    /// A new visualiser: it knows no position yet.
    pub open spec fn spawned(
        id: FailedTripDebuggerID,
        rough_source: RoughLocationID,
        rough_destination: RoughLocationID,
    ) -> FailedTripDebuggerModel {
        FailedTripDebuggerModel {
            id,
            rough_source,
            source_position: None,
            rough_destination,
            destination_position: None,
            done: false,
        }
    }

    /// What a new visualiser sends: the question for the position of the
    /// source, then the one for the destination.
    pub open spec fn spawn_actions(
        id: FailedTripDebuggerID,
        rough_source: RoughLocationID,
        rough_destination: RoughLocationID,
    ) -> Seq<DebuggerAction> {
        seq![
            DebuggerAction::ResolvePosition { requester: id, location: rough_source },
            DebuggerAction::ResolvePosition { requester: id, location: rough_destination },
        ]
    }

    /// The visualiser after it has recorded that `rough_location` lies at
    /// `position`: as the position of the source if the place is the source,
    /// else as that of the destination.
    pub open spec fn recorded(
        self,
        rough_location: RoughLocationID,
        position: Position,
    ) -> FailedTripDebuggerModel {
        if rough_location == self.rough_source {
            FailedTripDebuggerModel { source_position: Some(position), ..self }
        } else {
            FailedTripDebuggerModel { destination_position: Some(position), ..self }
        }
    }

    /// Whether both positions are known.
    pub open spec fn is_complete(self) -> bool {
        self.source_position.is_some() && self.destination_position.is_some()
    }

    /// The visualiser after it has been told that `rough_location` lies at
    /// `position`. It records the position and, if it knows both then, it is
    /// done. One that is done stays as it is.
    pub open spec fn resolved(
        self,
        rough_location: RoughLocationID,
        position: Position,
    ) -> FailedTripDebuggerModel {
        if self.done {
            self
        } else {
            FailedTripDebuggerModel {
                done: self.recorded(rough_location, position).is_complete(),
                ..self.recorded(rough_location, position)
            }
        }
    }

    /// What the visualiser sends when it is told that `rough_location` lies
    /// at `position`: the drawing, if it now knows both positions, else
    /// nothing. One that is done sends nothing.
    pub open spec fn resolved_actions(
        self,
        rough_location: RoughLocationID,
        position: Position,
    ) -> Seq<DebuggerAction> {
        if !self.done && self.recorded(rough_location, position).is_complete() {
            seq![
                DebuggerAction::Draw {
                    source_position: self.recorded(
                        rough_location,
                        position,
                    ).source_position.unwrap(),
                    destination_position: self.recorded(
                        rough_location,
                        position,
                    ).destination_position.unwrap(),
                },
            ]
        } else {
            Seq::empty()
        }
    }
}

/// The visualiser of one failed trip.
#[derive(PartialEq, Eq, Debug)]
pub struct FailedTripDebugger {
    id: FailedTripDebuggerID,
    rough_source: RoughLocationID,
    source_position: Option<Position>,
    rough_destination: RoughLocationID,
    destination_position: Option<Position>,
    done: bool,
}

impl View for FailedTripDebugger {
    type V = FailedTripDebuggerModel;

    closed spec fn view(&self) -> FailedTripDebuggerModel {
        FailedTripDebuggerModel {
            id: self.id,
            rough_source: self.rough_source,
            source_position: self.source_position,
            rough_destination: self.rough_destination,
            destination_position: self.destination_position,
            done: self.done,
        }
    }
}

impl FailedTripDebugger {
    /// Creates the visualiser of a trip that failed on its way from
    /// `rough_source` to `rough_destination`. It asks both places where they
    /// lie.
    pub fn spawn(
        id: FailedTripDebuggerID,
        rough_source: RoughLocationID,
        rough_destination: RoughLocationID,
    ) -> (spawned: (FailedTripDebugger, Vec<DebuggerAction>))
        ensures
            spawned.0@ == FailedTripDebuggerModel::spawned(id, rough_source, rough_destination),
            spawned.1@ == FailedTripDebuggerModel::spawn_actions(
                id,
                rough_source,
                rough_destination,
            ),
    {
        let mut actions: Vec<DebuggerAction> = Vec::new();
        actions.push(DebuggerAction::ResolvePosition { requester: id, location: rough_source });
        actions.push(
            DebuggerAction::ResolvePosition { requester: id, location: rough_destination },
        );
        let debugger = FailedTripDebugger {
            id,
            rough_source,
            source_position: None,
            rough_destination,
            destination_position: None,
            done: false,
        };
        (debugger, actions)
    }

    /// Ends the visualiser.
    pub fn done(&mut self)
        ensures
            final(self)@ == (FailedTripDebuggerModel { done: true, ..old(self)@ }),
    {
        self.done = true;
    }

    /// Takes the answer to a question for a position.
    pub fn position_resolved(&mut self, rough_location: RoughLocationID, position: Position) -> (
        actions: Vec<DebuggerAction>)
        ensures
            final(self)@ == old(self)@.resolved(rough_location, position),
            actions@ == old(self)@.resolved_actions(rough_location, position),
    {
        let mut actions: Vec<DebuggerAction> = Vec::new();
        if self.done {
            return actions;
        }
        if rough_location == self.rough_source {
            self.source_position = Some(position);
        } else {
            self.destination_position = Some(position);
        }
        if let Some(source_position) = self.source_position {
            if let Some(destination_position) = self.destination_position {
                actions.push(DebuggerAction::Draw { source_position, destination_position });
                self.done();
            }
        }
        actions
    }

    pub fn id(&self) -> (id: FailedTripDebuggerID)
        ensures
            id == self@.id,
    {
        self.id
    }

    pub fn rough_source(&self) -> (rough_source: RoughLocationID)
        ensures
            rough_source == self@.rough_source,
    {
        self.rough_source
    }

    pub fn rough_destination(&self) -> (rough_destination: RoughLocationID)
        ensures
            rough_destination == self@.rough_destination,
    {
        self.rough_destination
    }

    /// Where the source lies, once that is known.
    pub fn source_position(&self) -> (position: Option<Position>)
        ensures
            position == self@.source_position,
    {
        self.source_position
    }

    /// Where the destination lies, once that is known.
    pub fn destination_position(&self) -> (position: Option<Position>)
        ensures
            position == self@.destination_position,
    {
        self.destination_position
    }

    /// Whether the visualiser has ended.
    pub fn is_done(&self) -> (done: bool)
        ensures
            done == self@.done,
    {
        self.done
    }
}

} // verus!
