use trip::{
    DebuggerAction, FailedTripDebugger, FailedTripDebuggerID, Position, RawID, RoughLocationID,
    Scalar,
};

fn raw(type_id: u16, instance_id: u32) -> RawID {
    RawID { instance_id, type_id, machine: 0, version: 0 }
}

fn id() -> FailedTripDebuggerID {
    FailedTripDebuggerID { raw: raw(8, 1) }
}

fn place(n: u32) -> RoughLocationID {
    RoughLocationID { raw: raw(3, n) }
}

fn position(x: f32, y: f32) -> Position {
    Position { x: Scalar { bits: x.to_bits() }, y: Scalar { bits: y.to_bits() } }
}

#[test]
fn the_visualiser_asks_for_both_positions() {
    let (debugger, actions) = FailedTripDebugger::spawn(id(), place(1), place(2));
    assert_eq!(
        actions,
        vec![
            DebuggerAction::ResolvePosition { requester: id(), location: place(1) },
            DebuggerAction::ResolvePosition { requester: id(), location: place(2) },
        ]
    );
    assert_eq!(debugger.id(), id());
    assert_eq!(debugger.rough_source(), place(1));
    assert_eq!(debugger.rough_destination(), place(2));
    assert_eq!(debugger.source_position(), None);
    assert_eq!(debugger.destination_position(), None);
    assert!(!debugger.is_done());
}

#[test]
fn the_visualiser_draws_once_it_knows_both_positions() {
    let (mut debugger, _) = FailedTripDebugger::spawn(id(), place(1), place(2));
    assert_eq!(debugger.position_resolved(place(2), position(3.0, 4.0)), vec![]);
    assert_eq!(debugger.destination_position(), Some(position(3.0, 4.0)));
    assert!(!debugger.is_done());
    assert_eq!(
        debugger.position_resolved(place(1), position(1.0, 2.0)),
        vec![DebuggerAction::Draw {
            source_position: position(1.0, 2.0),
            destination_position: position(3.0, 4.0),
        }]
    );
    assert!(debugger.is_done());
    assert_eq!(debugger.position_resolved(place(1), position(9.0, 9.0)), vec![]);
    assert_eq!(debugger.source_position(), Some(position(1.0, 2.0)));
}

#[test]
fn a_place_that_is_not_the_source_counts_as_the_destination() {
    let (mut debugger, _) = FailedTripDebugger::spawn(id(), place(1), place(2));
    debugger.position_resolved(place(7), position(5.0, 6.0));
    assert_eq!(debugger.source_position(), None);
    assert_eq!(debugger.destination_position(), Some(position(5.0, 6.0)));
}

#[test]
fn one_place_for_both_ends_never_completes_the_drawing() {
    let (mut debugger, _) = FailedTripDebugger::spawn(id(), place(1), place(1));
    assert_eq!(debugger.position_resolved(place(1), position(1.0, 1.0)), vec![]);
    assert_eq!(debugger.position_resolved(place(1), position(2.0, 2.0)), vec![]);
    assert_eq!(debugger.source_position(), Some(position(2.0, 2.0)));
    assert_eq!(debugger.destination_position(), None);
    assert!(!debugger.is_done());
}

#[test]
fn a_visualiser_that_is_done_stays_done() {
    let (mut debugger, _) = FailedTripDebugger::spawn(id(), place(1), place(2));
    debugger.done();
    assert!(debugger.is_done());
    assert_eq!(debugger.position_resolved(place(1), position(1.0, 2.0)), vec![]);
    assert_eq!(debugger.position_resolved(place(2), position(3.0, 4.0)), vec![]);
    assert_eq!(debugger.source_position(), None);
}
