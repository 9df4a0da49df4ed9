//! What holds of a trip over its whole life, whatever it is told and in
//! whatever order.
//!
//! A life is a sequence of messages. [`TripModel::after_all`] is the state in
//! which a sequence leaves a trip, [`TripModel::actions_over`] all that the
//! trip sends meanwhile. The laws below are stated over these two.

use vstd::prelude::*;
use crate::fate::{TripFate, TripResult};
use crate::ids::{RoughLocationID, TripID, TripListenerID};
use crate::location::PreciseLocation;
use crate::time::Instant;
use crate::trip::{TripAction, TripModel};

verus! {

/// A message that a trip can receive.
pub enum TripEvent {
    /// The answer to a resolution request.
    LocationResolved {
        rough_location: RoughLocationID,
        location: Option<PreciseLocation>,
        instant: Instant,
    },
    /// The order to end.
    Finish { result: TripResult },
}

impl TripModel {
    /// The trip after `event`.
    pub open spec fn after(self, event: TripEvent) -> TripModel {
        match event {
            TripEvent::LocationResolved { rough_location, location, instant } => self.resolved(
                rough_location,
                location,
            ),
            TripEvent::Finish { result } => self.finished(),
        }
    }

    /// What the trip sends on `event`.
    pub open spec fn actions_on(self, event: TripEvent) -> Seq<TripAction> {
        match event {
            TripEvent::LocationResolved {
                rough_location,
                location,
                instant,
            } => self.resolved_actions(rough_location, location, instant),
            TripEvent::Finish { result } => self.finish_actions(result),
        }
    }

    /// The trip after all of `events`, in order.
    pub open spec fn after_all(self, events: Seq<TripEvent>) -> TripModel
        decreases events.len(),
    {
        if events.len() == 0 {
            self
        } else {
            self.after_all(events.drop_last()).after(events.last())
        }
    }

    /// All that the trip sends over `events`, in order.
    pub open spec fn actions_over(self, events: Seq<TripEvent>) -> Seq<TripAction>
        decreases events.len(),
    {
        if events.len() == 0 {
            Seq::empty()
        } else {
            self.actions_over(events.drop_last()) + self.after_all(events.drop_last()).actions_on(
                events.last(),
            )
        }
    }

    /// Whether `action` speaks for this trip: it names the trip, and what
    /// else it names of listener and rough locations is the trip's own.
    pub open spec fn speaks_in(self, action: TripAction) -> bool {
        match action {
            TripAction::ResolveLocation { requester, location, instant } => {
                &&& requester == self.id
                &&& location == self.rough_source || location == self.rough_destination
            },
            TripAction::NotifyCreated { listener, trip } => {
                &&& trip == self.id
                &&& self.listener == Some(listener)
            },
            TripAction::InsertTraveler { attachment, car, instant } => car.trip == self.id,
            TripAction::ReportFailure { record } => {
                &&& record.trip == self.id
                &&& record.rough_source == self.rough_source
                &&& record.rough_destination == self.rough_destination
            },
            TripAction::VisualizeFailure { rough_source, rough_destination } => {
                &&& rough_source == self.rough_source
                &&& rough_destination == self.rough_destination
            },
            TripAction::NotifyResult {
                listener,
                trip,
                result,
                rough_source,
                rough_destination,
            } => {
                &&& trip == self.id
                &&& self.listener == Some(listener)
                &&& rough_source == self.rough_source
                &&& rough_destination == self.rough_destination
            },
        }
    }
}

/// How many of `actions` are of the kind that `kind` picks.
pub open spec fn count(actions: Seq<TripAction>, kind: spec_fn(TripAction) -> bool) -> nat {
    actions.filter(kind).len()
}

/// How many resolution requests `actions` holds.
pub open spec fn location_requests(actions: Seq<TripAction>) -> nat {
    count(actions, |action: TripAction| action is ResolveLocation)
}

/// How many requests to take on a traveller `actions` holds.
pub open spec fn insertions(actions: Seq<TripAction>) -> nat {
    count(actions, |action: TripAction| action is InsertTraveler)
}

/// How many entries for the failure log `actions` holds.
pub open spec fn failure_reports(actions: Seq<TripAction>) -> nat {
    count(actions, |action: TripAction| action is ReportFailure)
}

/// How many results for a listener `actions` holds.
pub open spec fn result_notices(actions: Seq<TripAction>) -> nat {
    count(actions, |action: TripAction| action is NotifyResult)
}

/// Counting goes through concatenation: nothing is in the empty list, a list
/// of one holds one or none, and lists put together add up.
pub proof fn lemma_count()
    ensures
        forall|kind: spec_fn(TripAction) -> bool| #[trigger] count(Seq::empty(), kind) == 0,
        forall|action: TripAction, kind: spec_fn(TripAction) -> bool| #[trigger]
            count(Seq::empty().push(action), kind) == if kind(action) {
                1nat
            } else {
                0nat
            },
        forall|
            first: Seq<TripAction>,
            second: Seq<TripAction>,
            kind: spec_fn(TripAction) -> bool,
        | #[trigger]
            count(first + second, kind) == count(first, kind) + count(second, kind),
{
    assert forall|kind: spec_fn(TripAction) -> bool| #[trigger]
        count(Seq::empty(), kind) == 0 by {
        Seq::<TripAction>::empty().lemma_filter_len(kind);
    }
    assert forall|action: TripAction, kind: spec_fn(TripAction) -> bool| #[trigger]
        count(Seq::empty().push(action), kind) == if kind(action) {
            1nat
        } else {
            0nat
        } by {
        Seq::<TripAction>::empty().lemma_filter_len(kind);
        Seq::<TripAction>::empty().lemma_filter_len_push(kind, action);
    }
    assert forall|
        first: Seq<TripAction>,
        second: Seq<TripAction>,
        kind: spec_fn(TripAction) -> bool,
    | #[trigger] count(first + second, kind) == count(first, kind) + count(second, kind) by {
        Seq::filter_distributes_over_add(first, second, kind);
    }
}

/// What a trip sends on one message, counted by kind.
proof fn lemma_actions_on(trip: TripModel, event: TripEvent)
    ensures
        result_notices(trip.actions_on(event)) == if !trip.terminated && trip.after(
            event,
        ).terminated && trip.listener.is_some() {
            1nat
        } else {
            0nat
        },
        failure_reports(trip.actions_on(event)) <= if !trip.terminated && trip.after(
            event,
        ).terminated {
            1nat
        } else {
            0nat
        },
        insertions(trip.actions_on(event)) == if trip.is_resolving() && trip.after(
            event,
        ).is_inserted() {
            1nat
        } else {
            0nat
        },
        location_requests(trip.actions_on(event)) <= if trip.is_resolving() && trip.rough_source
            != trip.rough_destination {
            1nat
        } else {
            0nat
        },
{
    lemma_count();
}

/// A trip keeps its name.
///
/// Over any sequence of messages a trip keeps its identity, its two rough
/// locations and its listener, and all that it sends speaks for it: under
/// its own identity, of its own rough locations, to its own listener.
pub proof fn lemma_keeps_its_name(trip: TripModel, events: Seq<TripEvent>)
    ensures
        trip.after_all(events).id == trip.id,
        trip.after_all(events).rough_source == trip.rough_source,
        trip.after_all(events).rough_destination == trip.rough_destination,
        trip.after_all(events).listener == trip.listener,
        forall|i: int|
            0 <= i < trip.actions_over(events).len() ==> trip.speaks_in(
                #[trigger] trip.actions_over(events)[i],
            ),
    decreases events.len(),
{
    if events.len() > 0 {
        let before = trip.actions_over(events.drop_last());
        let then = trip.after_all(events.drop_last());
        lemma_keeps_its_name(trip, events.drop_last());
        assert forall|i: int| 0 <= i < trip.actions_over(events).len() implies trip.speaks_in(
            #[trigger] trip.actions_over(events)[i],
        ) by {
            if i < before.len() {
                assert(trip.actions_over(events)[i] == before[i]);
            } else {
                assert(trip.actions_over(events)[i] == then.actions_on(events.last())[i
                    - before.len()]);
                assert(then.speaks_in(trip.actions_over(events)[i]));
            }
        }
    }
}

/// A trip ends once.
///
/// Over any sequence of messages the listener of a trip is told of exactly
/// one result if the trip has ended by then, and of none if it has not; the
/// failure log gets at most one entry; and a trip that has ended stays so.
pub proof fn lemma_ends_once(trip: TripModel, events: Seq<TripEvent>)
    ensures
        trip.terminated ==> trip.after_all(events) == trip,
        trip.terminated ==> trip.actions_over(events) == Seq::<TripAction>::empty(),
        trip.after_all(events).listener == trip.listener,
        result_notices(trip.actions_over(events)) == if !trip.terminated && trip.after_all(
            events,
        ).terminated && trip.listener.is_some() {
            1nat
        } else {
            0nat
        },
        failure_reports(trip.actions_over(events)) <= if !trip.terminated && trip.after_all(
            events,
        ).terminated {
            1nat
        } else {
            0nat
        },
    decreases events.len(),
{
    lemma_count();
    if events.len() > 0 {
        lemma_ends_once(trip, events.drop_last());
        lemma_actions_on(trip.after_all(events.drop_last()), events.last());
    }
}

/// A trip puts its traveller on the road once.
///
/// Over any sequence of messages a trip asks for exactly one insertion if it
/// began without both ends and has both now, and for none otherwise. Once it
/// has both ends, they stay as they are.
pub proof fn lemma_inserts_once(trip: TripModel, events: Seq<TripEvent>)
    ensures
        trip.source.is_some() && trip.destination.is_some() ==> {
            &&& trip.after_all(events).source == trip.source
            &&& trip.after_all(events).destination == trip.destination
        },
        insertions(trip.actions_over(events)) == if trip.is_resolving() && trip.after_all(
            events,
        ).source.is_some() && trip.after_all(events).destination.is_some() {
            1nat
        } else {
            0nat
        },
    decreases events.len(),
{
    lemma_count();
    if events.len() > 0 {
        lemma_ends_once(trip, events.drop_last());
        lemma_inserts_once(trip, events.drop_last());
        lemma_actions_on(trip.after_all(events.drop_last()), events.last());
    }
}

/// One place, one request.
///
/// A trip whose source and destination are one place asks for one resolution
/// at its creation and for none ever after, and the first attachment that
/// it is given serves for both ends. At any time it has resolved both ends
/// to the same attachment, or neither.
pub proof fn lemma_one_place_one_request(
    id: TripID,
    place: RoughLocationID,
    listener: Option<TripListenerID>,
    instant: Instant,
    attachment: PreciseLocation,
    events: Seq<TripEvent>,
)
    ensures
        location_requests(TripModel::spawn_actions(id, place, listener, instant)) == 1,
        location_requests(TripModel::spawned(id, place, place, listener).actions_over(events))
            == 0,
        TripModel::spawned(id, place, place, listener).after_all(events).source
            == TripModel::spawned(id, place, place, listener).after_all(events).destination,
        TripModel::spawned(id, place, place, listener).resolved(place, Some(attachment)).source
            == Some(attachment),
        TripModel::spawned(id, place, place, listener).resolved(
            place,
            Some(attachment),
        ).destination == Some(attachment),
{
    lemma_count();
    lemma_one_place(TripModel::spawned(id, place, place, listener), events);
}

/// A trip with one place for both ends that has resolved both or neither
/// stays so and asks for no resolution.
proof fn lemma_one_place(trip: TripModel, events: Seq<TripEvent>)
    requires
        trip.rough_source == trip.rough_destination,
        trip.source == trip.destination,
    ensures
        trip.after_all(events).rough_source == trip.after_all(events).rough_destination,
        trip.after_all(events).source == trip.after_all(events).destination,
        location_requests(trip.actions_over(events)) == 0,
    decreases events.len(),
{
    lemma_count();
    if events.len() > 0 {
        lemma_one_place(trip, events.drop_last());
        lemma_actions_on(trip.after_all(events.drop_last()), events.last());
    }
}

/// A place that cannot be resolved ends the trip.
///
/// Told that a rough location has no attachment, a trip ends, whichever of
/// its two locations it was and whatever it has resolved so far. It records
/// nothing, asks for no resolution and for no insertion, then or later. If
/// it was alive, it logs the failure and tells its listener, if it has one,
/// that source or destination could not be resolved, naming the source as
/// the place where the traveller is.
pub proof fn lemma_unresolvable_ends_trip(
    trip: TripModel,
    rough_location: RoughLocationID,
    instant: Instant,
    later: Seq<TripEvent>,
)
    ensures
        trip.resolved(rough_location, None) == trip.finished(),
        location_requests(trip.resolved_actions(rough_location, None, instant)) == 0,
        insertions(trip.resolved_actions(rough_location, None, instant)) == 0,
        trip.resolved(rough_location, None).actions_over(later) == Seq::<TripAction>::empty(),
        !trip.terminated ==> trip.resolved_actions(rough_location, None, instant)
            == trip.failure_report(trip.unresolvable()) + trip.result_notice(trip.unresolvable()),
        !trip.terminated ==> failure_reports(trip.resolved_actions(rough_location, None, instant))
            == 1,
        !trip.terminated && trip.listener.is_some() ==> trip.resolved_actions(
            rough_location,
            None,
            instant,
        ).last() == (TripAction::NotifyResult {
            listener: trip.listener.unwrap(),
            trip: trip.id,
            result: TripResult {
                location_now: Some(trip.rough_source),
                fate: TripFate::SourceOrDestinationNotResolvable,
            },
            rough_source: trip.rough_source,
            rough_destination: trip.rough_destination,
        }),
{
    lemma_count();
    lemma_ends_once(trip.resolved(rough_location, None), later);
}

/// The two answers may come in either order.
///
/// A trip that has resolved nothing yet ends up in the same state whether it
/// hears of its source first or of its destination first, and either way it
/// asks for exactly one insertion if it is alive. Where source and
/// destination are one place there is one answer only; two different
/// attachments for that one place are left out.
pub proof fn lemma_answers_in_either_order(
    trip: TripModel,
    source: PreciseLocation,
    destination: PreciseLocation,
    first: Instant,
    second: Instant,
)
    requires
        trip.source.is_none(),
        trip.destination.is_none(),
        trip.rough_source != trip.rough_destination || source == destination,
    ensures
        trip.resolved(trip.rough_source, Some(source)).resolved(
            trip.rough_destination,
            Some(destination),
        ) == trip.resolved(trip.rough_destination, Some(destination)).resolved(
            trip.rough_source,
            Some(source),
        ),
        !trip.terminated ==> {
            &&& trip.resolved(trip.rough_source, Some(source)).resolved(
                trip.rough_destination,
                Some(destination),
            ).source == Some(source)
            &&& trip.resolved(trip.rough_source, Some(source)).resolved(
                trip.rough_destination,
                Some(destination),
            ).destination == Some(destination)
            &&& insertions(
                trip.resolved_actions(trip.rough_source, Some(source), first)
                    + trip.resolved(trip.rough_source, Some(source)).resolved_actions(
                    trip.rough_destination,
                    Some(destination),
                    second,
                ),
            ) == 1
            &&& insertions(
                trip.resolved_actions(trip.rough_destination, Some(destination), first)
                    + trip.resolved(trip.rough_destination, Some(destination)).resolved_actions(
                    trip.rough_source,
                    Some(source),
                    second,
                ),
            ) == 1
        },
{
    lemma_count();
}

} // verus!
