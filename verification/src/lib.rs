//! Trips of a traffic simulation: how a journey between two roughly described
//! places is set up, how its end points are resolved to attachments on the
//! road network, how it is handed to the lanes, and how its outcome is
//! reported. Every entity is a state machine that turns one incoming message
//! into its next state and a list of messages to send; nothing here sends
//! anything itself.

pub mod creator;
pub mod debugger;
pub mod fate;
pub mod ids;
pub mod lifecycle;
pub mod location;
pub mod time;
pub mod trip;

pub use crate::creator::{
    pair_up, Lane, TripCreator, TripRequest, WakeUpRequest, DEBUG_MANUALLY_SPAWN_CARS,
    LANES_PER_TRIP, WAKE_DELAY_TICKS,
};
pub use crate::debugger::{DebuggerAction, FailedTripDebugger};
pub use crate::fate::{FailureRecord, TripFate, TripResult};
pub use crate::ids::{
    FailedTripDebuggerID, LaneID, NodeID, RawID, RoughLocationID, SimulationID, TripCreatorID,
    TripID, TripListenerID,
};
pub use crate::location::{Position, PreciseLocation, Scalar, ZERO_BITS};
pub use crate::time::{Instant, Ticks};
pub use crate::trip::{
    LaneCar, Obstacle, Trip, TripAction, TripListener, TripPhase, DEBUG_FAILED_TRIPS_VISUALLY,
    MAX_VELOCITY_BITS,
};
