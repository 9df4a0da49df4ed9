use trip::{
    FailureRecord, Instant, LaneCar, NodeID, Obstacle, PreciseLocation, RawID, RoughLocationID,
    Scalar, Trip, TripAction, TripFate, TripID, TripListener, TripListenerID, TripPhase,
    TripResult, DEBUG_FAILED_TRIPS_VISUALLY, MAX_VELOCITY_BITS, ZERO_BITS,
};

fn raw(type_id: u16, instance_id: u32) -> RawID {
    RawID { instance_id, type_id, machine: 0, version: 0 }
}

fn trip_id() -> TripID {
    TripID { raw: raw(1, 7) }
}

fn listener() -> TripListenerID {
    TripListenerID { raw: raw(2, 3) }
}

fn place(n: u32) -> RoughLocationID {
    RoughLocationID { raw: raw(3, n) }
}

fn precise(node: u32, offset: f32) -> PreciseLocation {
    PreciseLocation { node: NodeID { raw: raw(4, node) }, offset: Scalar { bits: offset.to_bits() } }
}

fn unresolvable(source: RoughLocationID) -> TripResult {
    TripResult {
        location_now: Some(source),
        fate: TripFate::SourceOrDestinationNotResolvable,
    }
}

fn count(actions: &[TripAction], kind: fn(&TripAction) -> bool) -> usize {
    actions.iter().filter(|action| kind(action)).count()
}

fn is_request(action: &TripAction) -> bool {
    matches!(action, TripAction::ResolveLocation { .. })
}

fn is_insertion(action: &TripAction) -> bool {
    matches!(action, TripAction::InsertTraveler { .. })
}

fn is_result(action: &TripAction) -> bool {
    matches!(action, TripAction::NotifyResult { .. })
}

fn is_failure_report(action: &TripAction) -> bool {
    matches!(action, TripAction::ReportFailure { .. })
}

#[test]
fn spawn_requests_source_then_tells_listener() {
    let (trip, actions) = Trip::spawn(trip_id(), place(1), place(2), Some(listener()), Instant(5));
    assert_eq!(
        actions,
        vec![
            TripAction::ResolveLocation {
                requester: trip_id(),
                location: place(1),
                instant: Instant(5)
            },
            TripAction::NotifyCreated { listener: listener(), trip: trip_id() },
        ]
    );
    assert_eq!(trip.id(), trip_id());
    assert_eq!(trip.rough_source(), place(1));
    assert_eq!(trip.rough_destination(), place(2));
    assert_eq!(trip.source(), None);
    assert_eq!(trip.destination(), None);
    assert_eq!(trip.listener(), Some(listener()));
    assert!(!trip.is_terminated());
    assert_eq!(trip.phase(), TripPhase::AwaitingSource);
}

#[test]
fn spawn_without_listener_tells_nobody() {
    let (trip, actions) = Trip::spawn(trip_id(), place(1), place(2), None, Instant(0));
    assert_eq!(
        actions,
        vec![TripAction::ResolveLocation {
            requester: trip_id(),
            location: place(1),
            instant: Instant(0)
        }]
    );
    assert_eq!(trip.listener(), None);
}

#[test]
fn both_ends_resolve_and_the_traveller_is_inserted_once() {
    let (mut trip, created) =
        Trip::spawn(trip_id(), place(1), place(2), Some(listener()), Instant(0));
    assert_eq!(
        created[1],
        TripAction::NotifyCreated { listener: listener(), trip: trip_id() }
    );

    let after_source = trip.location_resolved(place(1), Some(precise(10, 5.0)), Instant(1));
    assert_eq!(
        after_source,
        vec![TripAction::ResolveLocation {
            requester: trip_id(),
            location: place(2),
            instant: Instant(1)
        }]
    );
    assert_eq!(trip.phase(), TripPhase::AwaitingDestination);
    assert_eq!(trip.source(), Some(precise(10, 5.0)));
    assert_eq!(trip.destination(), None);

    let after_destination = trip.location_resolved(place(2), Some(precise(20, 1.0)), Instant(2));
    assert_eq!(
        after_destination,
        vec![TripAction::InsertTraveler {
            attachment: NodeID { raw: raw(4, 10) },
            car: LaneCar {
                trip: trip_id(),
                as_obstacle: Obstacle {
                    position: Scalar { bits: 5.0f32.to_bits() },
                    velocity: Scalar { bits: 0.0f32.to_bits() },
                    max_velocity: Scalar { bits: 8.0f32.to_bits() },
                },
                acceleration: Scalar { bits: 0.0f32.to_bits() },
                destination: precise(20, 1.0),
                next_hop_interaction: None,
            },
            instant: Instant(2),
        }]
    );
    assert_eq!(trip.phase(), TripPhase::Inserted);
    assert_eq!(trip.destination(), Some(precise(20, 1.0)));
    assert!(!trip.is_terminated());

    let all: Vec<TripAction> =
        created.into_iter().chain(after_source).chain(after_destination).collect();
    assert_eq!(count(&all, is_insertion), 1);
    assert_eq!(count(&all, is_result), 0);
}

#[test]
fn unresolvable_destination_ends_the_trip_and_names_the_source() {
    let (mut trip, _) = Trip::spawn(trip_id(), place(1), place(2), Some(listener()), Instant(0));
    trip.location_resolved(place(1), Some(precise(10, 5.0)), Instant(1));
    let actions = trip.location_resolved(place(2), None, Instant(2));
    assert_eq!(
        actions,
        vec![
            TripAction::ReportFailure {
                record: FailureRecord {
                    trip: trip_id(),
                    fate: TripFate::SourceOrDestinationNotResolvable,
                    rough_source: place(1),
                    source: Some(precise(10, 5.0)),
                    rough_destination: place(2),
                    destination: None,
                }
            },
            TripAction::NotifyResult {
                listener: listener(),
                trip: trip_id(),
                result: unresolvable(place(1)),
                rough_source: place(1),
                rough_destination: place(2),
            },
        ]
    );
    assert!(trip.is_terminated());
    assert_eq!(trip.phase(), TripPhase::Terminated);
    assert_eq!(count(&actions, is_result), 1);
    assert_eq!(count(&actions, is_insertion), 0);
}

#[test]
fn unresolvable_source_asks_for_nothing_more() {
    let (mut trip, _) = Trip::spawn(trip_id(), place(1), place(2), Some(listener()), Instant(0));
    let actions = trip.location_resolved(place(1), None, Instant(1));
    assert_eq!(count(&actions, is_request), 0);
    assert_eq!(count(&actions, is_insertion), 0);
    assert_eq!(count(&actions, is_failure_report), 1);
    assert_eq!(
        actions.last(),
        Some(&TripAction::NotifyResult {
            listener: listener(),
            trip: trip_id(),
            result: unresolvable(place(1)),
            rough_source: place(1),
            rough_destination: place(2),
        })
    );
    assert!(trip.is_terminated());
    assert_eq!(trip.source(), None);
    assert_eq!(trip.destination(), None);
}

#[test]
fn unresolvable_place_that_is_neither_end_still_ends_the_trip() {
    let (mut trip, _) = Trip::spawn(trip_id(), place(1), place(2), None, Instant(0));
    assert!(trip.admits(place(9), &None));
    let actions = trip.location_resolved(place(9), None, Instant(1));
    assert_eq!(
        actions,
        vec![TripAction::ReportFailure {
            record: FailureRecord {
                trip: trip_id(),
                fate: TripFate::SourceOrDestinationNotResolvable,
                rough_source: place(1),
                source: None,
                rough_destination: place(2),
                destination: None,
            }
        }]
    );
    assert!(trip.is_terminated());
}

#[test]
fn answers_in_either_order_give_the_same_trip() {
    let source = precise(10, 5.0);
    let destination = precise(20, 1.0);

    let (mut forward, _) = Trip::spawn(trip_id(), place(1), place(2), Some(listener()), Instant(0));
    let mut forward_actions = forward.location_resolved(place(1), Some(source), Instant(1));
    forward_actions.extend(forward.location_resolved(place(2), Some(destination), Instant(2)));

    let (mut backward, _) =
        Trip::spawn(trip_id(), place(1), place(2), Some(listener()), Instant(0));
    let early = backward.location_resolved(place(2), Some(destination), Instant(1));
    assert_eq!(early, vec![]);
    assert_eq!(backward.phase(), TripPhase::AwaitingSource);
    assert_eq!(backward.destination(), Some(destination));
    let late = backward.location_resolved(place(1), Some(source), Instant(2));
    assert_eq!(late.len(), 2);
    assert_eq!(
        late[0],
        TripAction::ResolveLocation {
            requester: trip_id(),
            location: place(2),
            instant: Instant(2)
        }
    );
    assert!(is_insertion(&late[1]));

    assert_eq!(forward, backward);
    assert_eq!(forward.phase(), TripPhase::Inserted);
    assert_eq!(forward.source(), Some(source));
    assert_eq!(forward.destination(), Some(destination));
    assert_eq!(count(&forward_actions, is_insertion), 1);
    assert_eq!(count(&late, is_insertion), 1);
    assert_eq!(forward_actions.last(), late.last());
}

#[test]
fn one_place_for_both_ends_takes_one_request_and_one_answer() {
    let (mut trip, created) = Trip::spawn(trip_id(), place(1), place(1), None, Instant(0));
    assert_eq!(trip.phase(), TripPhase::AwaitingBoth);
    let actions = trip.location_resolved(place(1), Some(precise(10, 2.5)), Instant(1));
    assert_eq!(trip.source(), Some(precise(10, 2.5)));
    assert_eq!(trip.destination(), Some(precise(10, 2.5)));
    assert_eq!(trip.phase(), TripPhase::Inserted);
    assert_eq!(count(&created, is_request), 1);
    assert_eq!(count(&actions, is_request), 0);
    assert_eq!(count(&actions, is_insertion), 1);
    assert_eq!(actions.len(), 1);
}

#[test]
fn a_trip_that_has_both_ends_ignores_further_attachments() {
    let (mut trip, _) = Trip::spawn(trip_id(), place(1), place(2), None, Instant(0));
    trip.location_resolved(place(1), Some(precise(10, 5.0)), Instant(1));
    trip.location_resolved(place(2), Some(precise(20, 1.0)), Instant(2));
    let again = trip.location_resolved(place(2), Some(precise(21, 3.0)), Instant(3));
    assert_eq!(again, vec![]);
    let and_again = trip.location_resolved(place(1), Some(precise(11, 4.0)), Instant(4));
    assert_eq!(and_again, vec![]);
    assert_eq!(trip.source(), Some(precise(10, 5.0)));
    assert_eq!(trip.destination(), Some(precise(20, 1.0)));
    assert_eq!(trip.phase(), TripPhase::Inserted);
}

#[test]
fn a_trip_ends_once() {
    let (mut trip, _) = Trip::spawn(trip_id(), place(1), place(2), Some(listener()), Instant(0));
    trip.location_resolved(place(1), Some(precise(10, 5.0)), Instant(1));
    trip.location_resolved(place(2), Some(precise(20, 1.0)), Instant(2));
    let arrived = TripResult { location_now: Some(place(2)), fate: TripFate::Success(Instant(90)) };
    let first = trip.finish(arrived);
    assert_eq!(
        first,
        vec![TripAction::NotifyResult {
            listener: listener(),
            trip: trip_id(),
            result: arrived,
            rough_source: place(1),
            rough_destination: place(2),
        }]
    );
    assert!(trip.is_terminated());
    let second = trip.finish(TripResult { location_now: None, fate: TripFate::NoRoute });
    assert_eq!(second, vec![]);
    let third = trip.location_resolved(place(1), None, Instant(3));
    assert_eq!(third, vec![]);
    let fourth = trip.location_resolved(place(2), Some(precise(20, 1.0)), Instant(4));
    assert_eq!(fourth, vec![]);
    assert!(trip.is_terminated());
    assert_eq!(trip.source(), Some(precise(10, 5.0)));
    assert_eq!(trip.destination(), Some(precise(20, 1.0)));
}

#[test]
fn every_failure_is_logged_and_no_success_is() {
    let failures = [
        TripFate::SourceOrDestinationNotResolvable,
        TripFate::NoRoute,
        TripFate::RouteForgotten,
        TripFate::HopDisconnected,
        TripFate::LaneUnbuilt,
    ];
    for fate in failures {
        assert!(fate.failed());
        let (mut trip, _) = Trip::spawn(trip_id(), place(1), place(2), None, Instant(0));
        trip.location_resolved(place(1), Some(precise(10, 5.0)), Instant(1));
        let actions = trip.finish(TripResult { location_now: None, fate });
        assert_eq!(
            actions,
            vec![TripAction::ReportFailure {
                record: FailureRecord {
                    trip: trip_id(),
                    fate,
                    rough_source: place(1),
                    source: Some(precise(10, 5.0)),
                    rough_destination: place(2),
                    destination: None,
                }
            }]
        );
        assert!(trip.is_terminated());
    }
    for fate in [TripFate::Success(Instant(12)), TripFate::ForceStopped] {
        assert!(!fate.failed());
        let (mut trip, _) = Trip::spawn(trip_id(), place(1), place(2), None, Instant(0));
        let actions = trip.finish(TripResult { location_now: None, fate });
        assert_eq!(actions, vec![]);
        assert!(trip.is_terminated());
    }
}

#[test]
fn a_cancelled_trip_tells_its_listener_without_logging() {
    let (mut trip, _) = Trip::spawn(trip_id(), place(1), place(2), Some(listener()), Instant(0));
    let cancelled = TripResult { location_now: None, fate: TripFate::ForceStopped };
    let actions = trip.finish(cancelled);
    assert_eq!(
        actions,
        vec![TripAction::NotifyResult {
            listener: listener(),
            trip: trip_id(),
            result: cancelled,
            rough_source: place(1),
            rough_destination: place(2),
        }]
    );
}

#[test]
fn failed_trips_are_not_drawn() {
    assert!(!DEBUG_FAILED_TRIPS_VISUALLY);
    let (mut trip, _) = Trip::spawn(trip_id(), place(1), place(2), Some(listener()), Instant(0));
    let actions = trip.finish(TripResult { location_now: None, fate: TripFate::LaneUnbuilt });
    assert!(!actions.iter().any(|action| matches!(action, TripAction::VisualizeFailure { .. })));
    assert_eq!(actions.len(), 2);
}

#[test]
fn only_the_two_ends_are_admitted_with_an_attachment() {
    let (trip, _) = Trip::spawn(trip_id(), place(1), place(2), None, Instant(0));
    assert!(trip.admits(place(1), &Some(precise(1, 0.0))));
    assert!(trip.admits(place(2), &Some(precise(1, 0.0))));
    assert!(!trip.admits(place(3), &Some(precise(1, 0.0))));
    assert!(trip.admits(place(3), &None));
}

#[test]
fn speeds_are_the_bits_of_zero_and_eight() {
    assert_eq!(f32::from_bits(ZERO_BITS), 0.0);
    assert_eq!(f32::from_bits(MAX_VELOCITY_BITS), 8.0);
}

struct Recorder {
    id: TripListenerID,
    created: Vec<TripID>,
    results: Vec<(TripID, TripResult, RoughLocationID, RoughLocationID)>,
}

impl TripListener for Recorder {
    fn trip_created(&mut self, trip: TripID) {
        self.created.push(trip);
    }

    fn trip_result(
        &mut self,
        trip: TripID,
        result: TripResult,
        rough_source: RoughLocationID,
        rough_destination: RoughLocationID,
    ) {
        self.results.push((trip, result, rough_source, rough_destination));
    }
}

fn deliver(actions: &[TripAction], recorder: &mut Recorder) {
    for action in actions {
        match *action {
            TripAction::NotifyCreated { listener, trip } if listener == recorder.id => {
                recorder.trip_created(trip)
            }
            TripAction::NotifyResult { listener, trip, result, rough_source, rough_destination }
                if listener == recorder.id =>
            {
                recorder.trip_result(trip, result, rough_source, rough_destination)
            }
            _ => {}
        }
    }
}

#[test]
fn a_listener_hears_of_the_creation_and_of_nothing_else_until_the_end() {
    let mut recorder = Recorder { id: listener(), created: vec![], results: vec![] };
    let (mut trip, actions) =
        Trip::spawn(trip_id(), place(1), place(2), Some(listener()), Instant(0));
    deliver(&actions, &mut recorder);
    assert_eq!(recorder.created, vec![trip_id()]);
    deliver(&trip.location_resolved(place(1), Some(precise(10, 5.0)), Instant(1)), &mut recorder);
    deliver(&trip.location_resolved(place(2), Some(precise(20, 1.0)), Instant(2)), &mut recorder);
    assert_eq!(recorder.created, vec![trip_id()]);
    assert_eq!(recorder.results, vec![]);
    let lost = TripResult { location_now: None, fate: TripFate::RouteForgotten };
    deliver(&trip.finish(lost), &mut recorder);
    deliver(&trip.finish(lost), &mut recorder);
    assert_eq!(recorder.results, vec![(trip_id(), lost, place(1), place(2))]);
}

#[test]
fn a_listener_hears_once_of_an_end_that_cannot_be_resolved() {
    let mut recorder = Recorder { id: listener(), created: vec![], results: vec![] };
    let (mut trip, actions) =
        Trip::spawn(trip_id(), place(1), place(2), Some(listener()), Instant(0));
    deliver(&actions, &mut recorder);
    deliver(&trip.location_resolved(place(1), Some(precise(10, 5.0)), Instant(1)), &mut recorder);
    deliver(&trip.location_resolved(place(2), None, Instant(2)), &mut recorder);
    deliver(&trip.location_resolved(place(2), None, Instant(3)), &mut recorder);
    assert_eq!(recorder.results, vec![(trip_id(), unresolvable(place(1)), place(1), place(2))]);
}
