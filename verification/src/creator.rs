//! The scheduler that makes up trips to put load on the network: it collects
//! lane ends and, when woken, pairs them at random into trips.

use itertools::Itertools;
use rand::Rng;
use vstd::prelude::*;
use vstd::seq_lib::to_multiset_contains;
use crate::ids::{LaneID, RoughLocationID, SimulationID, TripCreatorID, TripListenerID};
use crate::time::{Instant, Ticks};

verus! {

/// For tests by hand: whether lanes offer themselves as ends of made-up trips.
pub const DEBUG_MANUALLY_SPAWN_CARS: bool = false;

/// How many ticks after a second lane has come in the scheduler wants to be
/// woken.
pub const WAKE_DELAY_TICKS: usize = 50;

/// How many lanes make a trip: one to start from and one to go to.
pub const LANES_PER_TRIP: usize = 2;

/// The request to be woken after a delay.
#[derive(Clone, Copy, PartialEq, Eq, Debug)]
pub struct WakeUpRequest {
    pub simulation: SimulationID,
    pub delay: Ticks,
    pub sleeper: TripCreatorID,
}

/// The request to create a trip.
#[derive(Clone, Copy, PartialEq, Eq, Debug)]
pub struct TripRequest {
    pub rough_source: RoughLocationID,
    pub rough_destination: RoughLocationID,
    pub listener: Option<TripListenerID>,
    pub instant: Instant,
}

/// The trips that come of lanes in a given order: the first lane with the
/// second, the third with the fourth, and so on, each pair a trip from the
/// one to the other that nobody listens to. A lane left over at the end
/// gets no trip.
pub open spec fn paired_trips(order: Seq<LaneID>, instant: Instant) -> Seq<TripRequest> {
    Seq::new(
        order.len() / 2,
        |i: int|
            TripRequest {
                rough_source: order[2 * i].rough_location(),
                rough_destination: order[2 * i + 1].rough_location(),
                listener: None,
                instant,
            },
    )
}

/// The chunk at `index` when `items` is cut into runs of `size`: the items
/// from `index * size` on, `size` of them or as many as are left.
pub open spec fn chunk_at(items: Seq<LaneID>, size: int, index: int) -> Seq<LaneID> {
    items.subrange(
        index * size,
        if (index + 1) * size <= items.len() {
            (index + 1) * size
        } else {
            items.len() as int
        },
    )
}

/// The generator of random numbers that `rand` keeps for each thread. What
/// is inside it is not looked at here.
#[verifier::external_type_specification]
#[verifier::external_body]
pub struct ExThreadRng(rand::ThreadRng);

/// Fetches the generator of the running thread, with `rand::thread_rng`.
///
/// Not proved, and nothing is claimed of the generator. (It takes its seed
/// from the machine when a thread first asks for it; the outside function
/// does not return where the machine has none to give.)
#[verifier::external_body]
fn thread_rng() -> rand::ThreadRng {
    rand::thread_rng()
}

/// Puts `lanes` into a random order, with `rand::Rng::shuffle`.
///
/// Not proved. Claimed of the outside code: it only swaps items, so the same
/// lanes are there afterwards, each as often as before. Which order comes
/// out is left open.
#[verifier::external_body]
fn shuffle(rng: &mut rand::ThreadRng, lanes: &mut Vec<LaneID>)
    ensures
        final(lanes)@.to_multiset() == old(lanes)@.to_multiset(),
{
    rng.shuffle(lanes);
}

/// Cuts `lanes` into chunks of `size`, with `itertools::Itertools::chunks`.
///
/// Not proved. Claimed of the outside code: the chunks come in order and
/// hold the lanes in order, each chunk `size` of them, but for the last,
/// which holds what is left and so may be shorter, never empty. No lanes, no
/// chunks. The outside function panics on a size of zero.
#[verifier::external_body]
fn chunks(lanes: &Vec<LaneID>, size: usize) -> (chunks: Vec<Vec<LaneID>>)
    requires
        size > 0,
    ensures
        chunks@.len() == (lanes@.len() + size - 1) / (size as int),
        forall|i: int|
            0 <= i < chunks@.len() ==> (#[trigger] chunks@[i])@ == chunk_at(
                lanes@,
                size as int,
                i,
            ),
{
    let chunked = lanes.iter().chunks(size);
    chunked.into_iter().map(|chunk| chunk.copied().collect()).collect()
}

/// Pairs lanes into trips in the order in which they stand: the exact
/// [`paired_trips`] of that order.
pub fn pair_up(order: &Vec<LaneID>, instant: Instant) -> (trips: Vec<TripRequest>)
    ensures
        trips@ == paired_trips(order@, instant),
{
    let pairs = chunks(order, LANES_PER_TRIP);
    let mut trips: Vec<TripRequest> = Vec::new();
    let mut i: usize = 0;
    while i < pairs.len()
        invariant
            i <= pairs@.len(),
            pairs@.len() == (order@.len() + 1) / 2,
            forall|k: int|
                0 <= k < pairs@.len() ==> (#[trigger] pairs@[k])@ == chunk_at(order@, 2, k),
            trips@.len() == if i <= order@.len() / 2 {
                i as int
            } else {
                order@.len() as int / 2
            },
            forall|k: int|
                0 <= k < trips@.len() ==> trips@[k] == paired_trips(order@, instant)[k],
        decreases pairs@.len() - i,
    {
        let pair = &pairs[i];
        if pair.len() == LANES_PER_TRIP {
            let source: LaneID = pair[0];
            let destination: LaneID = pair[1];
            trips.push(
                TripRequest {
                    rough_source: RoughLocationID::from(source),
                    rough_destination: RoughLocationID::from(destination),
                    listener: None,
                    instant,
                },
            );
        }
        i += 1;
    }
    trips
}

/// What the scheduler is, as a plain value.
pub struct TripCreatorModel {
    pub id: TripCreatorID,
    pub simulation: SimulationID,
    /// The lanes that wait to be paired, in the order in which they came.
    pub lanes: Seq<LaneID>,
}

impl TripCreatorModel {
    /// The scheduler with nothing waiting.
    pub open spec fn emptied(self) -> TripCreatorModel {
        TripCreatorModel { lanes: Seq::empty(), ..self }
    }

    /// The scheduler after `lane` has come in.
    pub open spec fn with_lane(self, lane: LaneID) -> TripCreatorModel {
        TripCreatorModel { lanes: self.lanes.push(lane), ..self }
    }

    /// What the scheduler asks for when a lane comes in: to be woken after
    /// the fixed delay if more than one lane waits then, else nothing.
    pub open spec fn wake_on_lane(self) -> Option<WakeUpRequest> {
        if self.lanes.len() + 1 > 1 {
            Some(
                WakeUpRequest {
                    simulation: self.simulation,
                    delay: Ticks(WAKE_DELAY_TICKS),
                    sleeper: self.id,
                },
            )
        } else {
            None
        }
    }
}

/// The scheduler of made-up trips. There is one for the whole simulation.
#[derive(PartialEq, Eq, Debug)]
pub struct TripCreator {
    id: TripCreatorID,
    simulation: SimulationID,
    lanes: Vec<LaneID>,
}

impl View for TripCreator {
    type V = TripCreatorModel;

    closed spec fn view(&self) -> TripCreatorModel {
        TripCreatorModel { id: self.id, simulation: self.simulation, lanes: self.lanes@ }
    }
}

impl TripCreator {
    /// Creates the scheduler, with nothing waiting.
    pub fn spawn(id: TripCreatorID, simulation: SimulationID) -> (creator: TripCreator)
        ensures
            creator@ == (TripCreatorModel { id, simulation, lanes: Seq::empty() }),
    {
        TripCreator { id, simulation, lanes: Vec::new() }
    }

    /// Takes in a lane. A wake-up is asked for whenever more than one lane
    /// waits afterwards, also when one has been asked for already.
    pub fn add_lane_for_trip(&mut self, lane_id: LaneID) -> (wake_up: Option<WakeUpRequest>)
        ensures
            final(self)@ == old(self)@.with_lane(lane_id),
            wake_up == old(self)@.wake_on_lane(),
    {
        self.lanes.push(lane_id);
        if self.lanes.len() > 1 {
            Some(
                WakeUpRequest {
                    simulation: self.simulation,
                    delay: Ticks(WAKE_DELAY_TICKS),
                    sleeper: self.id,
                },
            )
        } else {
            None
        }
    }

    /// Wakes the scheduler: the waiting lanes are put into a random order
    /// and paired into trips in that order, and then nothing waits any more,
    /// whether or not every lane found a partner.
    ///
    /// Which order it was is not known beforehand; whatever it was, the
    /// trips are its [`paired_trips`].
    pub fn wake(&mut self, current_instant: Instant) -> (trips: Vec<TripRequest>)
        ensures
            final(self)@ == old(self)@.emptied(),
            exists|order: Seq<LaneID>|
                #[trigger] order.to_multiset() == old(self)@.lanes.to_multiset() && trips@
                    == paired_trips(order, current_instant),
            trips@.len() == old(self)@.lanes.len() / 2,
    {
        let mut rng = thread_rng();
        shuffle(&mut rng, &mut self.lanes);
        let trips = pair_up(&self.lanes, current_instant);
        proof {
            self.lanes@.to_multiset_ensures();
            old(self).lanes@.to_multiset_ensures();
        }
        self.lanes = Vec::new();
        trips
    }

    pub fn id(&self) -> (id: TripCreatorID)
        ensures
            id == self@.id,
    {
        self.id
    }

    pub fn simulation(&self) -> (simulation: SimulationID)
        ensures
            simulation == self@.simulation,
    {
        self.simulation
    }

    /// The lanes that wait to be paired, in the order in which they came.
    pub fn lanes(&self) -> (lanes: &Vec<LaneID>)
        ensures
            lanes@ == self@.lanes,
    {
        &self.lanes
    }
}

/// What the scheduler needs to know of a lane.
#[derive(Clone, Copy, PartialEq, Eq, Debug)]
pub struct Lane {
    pub id: LaneID,
    /// Whether the lane crosses an intersection. Such a lane is no place to
    /// start from or to go to.
    pub on_intersection: bool,
}

impl Lane {
    /// Offers the lane to the scheduler as an end of a made-up trip, unless
    /// it lies on an intersection.
    pub fn manually_spawn_car_add_lane(&self, creator: &mut TripCreator) -> (wake_up: Option<
        WakeUpRequest,
    >)
        ensures
            self.on_intersection ==> final(creator)@ == old(creator)@ && wake_up is None,
            !self.on_intersection ==> final(creator)@ == old(creator)@.with_lane(self.id)
                && wake_up == old(creator)@.wake_on_lane(),
    {
        if !self.on_intersection {
            creator.add_lane_for_trip(self.id)
        } else {
            None
        }
    }
}

/// The second of two lanes gets the scheduler woken.
///
/// A lane that comes in while another waits has the scheduler ask to be
/// woken after [`WAKE_DELAY_TICKS`] ticks. So of any two lanes that come in
/// one after the other the second asks for it, whatever waited before; and
/// the first does too if anything waited.
pub proof fn lemma_second_lane_wakes(creator: TripCreatorModel, first: LaneID, second: LaneID)
    ensures
        creator.lanes.len() > 0 ==> creator.wake_on_lane() == Some(
            WakeUpRequest {
                simulation: creator.simulation,
                delay: Ticks(WAKE_DELAY_TICKS),
                sleeper: creator.id,
            },
        ),
        creator.lanes.len() == 0 ==> creator.wake_on_lane() is None,
        creator.with_lane(first).wake_on_lane() == Some(
            WakeUpRequest {
                simulation: creator.simulation,
                delay: Ticks(WAKE_DELAY_TICKS),
                sleeper: creator.id,
            },
        ),
        creator.with_lane(first).with_lane(second).lanes.len() == creator.lanes.len() + 2,
{
}

/// Pairing takes the lanes two by two.
///
/// There are half as many trips as lanes, rounded down. The trip at place
/// `i` goes from the lane at place `2 i` to the lane at place `2 i + 1`, so
/// no lane is in two trips, and of an odd number of lanes the last is in
/// none.
pub proof fn lemma_pairing(order: Seq<LaneID>, instant: Instant)
    ensures
        paired_trips(order, instant).len() == order.len() / 2,
        order.len() - 2 * paired_trips(order, instant).len() == order.len() % 2,
        forall|i: int|
            0 <= i < paired_trips(order, instant).len() ==> #[trigger] paired_trips(
                order,
                instant,
            )[i] == (TripRequest {
                rough_source: order[2 * i].rough_location(),
                rough_destination: order[2 * i + 1].rough_location(),
                listener: None,
                instant,
            }),
{
}

/// Whether `place` is one of the lanes in `waiting`.
pub open spec fn waits(waiting: Seq<LaneID>, place: RoughLocationID) -> bool {
    exists|k: int| 0 <= k < waiting.len() && (#[trigger] waiting[k]).rough_location() == place
}

/// Trips join lanes that waited.
///
/// Whatever the order into which the waiting lanes were put, as long as it
/// holds the same lanes as often, every trip that comes of it starts at a
/// lane that waited and goes to a lane that waited.
pub proof fn lemma_trips_join_waiting_lanes(
    waiting: Seq<LaneID>,
    order: Seq<LaneID>,
    instant: Instant,
)
    requires
        order.to_multiset() == waiting.to_multiset(),
    ensures
        paired_trips(order, instant).len() == waiting.len() / 2,
        forall|i: int|
            #![trigger paired_trips(order, instant)[i]]
            0 <= i < paired_trips(order, instant).len() ==> {
                &&& waits(waiting, paired_trips(order, instant)[i].rough_source)
                &&& waits(waiting, paired_trips(order, instant)[i].rough_destination)
            },
{
    order.to_multiset_ensures();
    waiting.to_multiset_ensures();
    assert forall|i: int|
        #![trigger paired_trips(order, instant)[i]]
        0 <= i < paired_trips(order, instant).len() implies {
        &&& waits(waiting, paired_trips(order, instant)[i].rough_source)
        &&& waits(waiting, paired_trips(order, instant)[i].rough_destination)
    } by {
        assert(order.contains(order[2 * i]));
        assert(order.contains(order[2 * i + 1]));
        to_multiset_contains(order, order[2 * i]);
        to_multiset_contains(waiting, order[2 * i]);
        to_multiset_contains(order, order[2 * i + 1]);
        to_multiset_contains(waiting, order[2 * i + 1]);
        let from = choose|k: int| 0 <= k < waiting.len() && waiting[k] == order[2 * i];
        let to = choose|k: int| 0 <= k < waiting.len() && waiting[k] == order[2 * i + 1];
        assert(waiting[from].rough_location() == paired_trips(order, instant)[i].rough_source);
        assert(waiting[to].rough_location() == paired_trips(order, instant)[i].rough_destination);
    }
}

/// Two lanes, one trip.
///
/// When exactly two lanes wait, whatever the order into which they are put,
/// one trip comes of it: from the one lane to the other, in one direction
/// or the other.
pub proof fn lemma_two_lanes_one_trip(
    first: LaneID,
    second: LaneID,
    order: Seq<LaneID>,
    instant: Instant,
)
    requires
        order.to_multiset() == seq![first, second].to_multiset(),
    ensures
        paired_trips(order, instant) == seq![
            TripRequest {
                rough_source: first.rough_location(),
                rough_destination: second.rough_location(),
                listener: None,
                instant,
            },
        ] || paired_trips(order, instant) == seq![
            TripRequest {
                rough_source: second.rough_location(),
                rough_destination: first.rough_location(),
                listener: None,
                instant,
            },
        ],
{
    broadcast use vstd::multiset::group_multiset_axioms;

    let waiting = seq![first, second];
    order.to_multiset_ensures();
    waiting.to_multiset_ensures();
    assert(order =~= Seq::empty().push(order[0]).push(order[1]));
    assert(waiting =~= Seq::empty().push(first).push(second));
    Seq::<LaneID>::empty().to_multiset_ensures();
    Seq::<LaneID>::empty().push(order[0]).to_multiset_ensures();
    Seq::<LaneID>::empty().push(first).to_multiset_ensures();
    assert(order.to_multiset().count(first) == waiting.to_multiset().count(first));
    assert(order.to_multiset().count(second) == waiting.to_multiset().count(second));
    assert(order[0] == first && order[1] == second || order[0] == second && order[1] == first);
}

} // verus!
