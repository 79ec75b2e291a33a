//! The whole simulation: registry plus controller, advanced once per
//! discrete tick. Each tick updates the signals, lets every vehicle
//! decide and move against a snapshot of the tick-start positions, and
//! prunes vehicles that left the field.

use vstd::prelude::*;
use crate::vehicle::{Car, Direction, advanced, coord_ok, is_blocked, progress_along, turn_applied,
    SAFE_DISTANCE};
use crate::lights::{TrafficLights, lights_next, signal_checked, traffic_lights,
    traffic_lights_sys};
use crate::registry::{key_down, key_left, key_right, key_up, prune, pruned, spawn_step};

verus! {

/// One vehicle's behavior for one tick, against the signal state `l` and
/// the snapshot `all` of all tick-start positions: recompute the go/no-go
/// decision from the signals, advance one unit unless held at a red
/// stop line or blocked by a leader, then apply the one-shot turn table
/// if the vehicle has not yet turned.
pub open spec fn step_car(c: Car, l: TrafficLights, all: Seq<Car>) -> Car {
    let checked = signal_checked(c, l);
    let moved = if checked.moving && !is_blocked(checked, all) {
        advanced(checked)
    } else {
        checked
    };
    if !moved.turned {
        turn_applied(moved)
    } else {
        moved
    }
}

/// Every vehicle stepped for one tick against the same signal state and
/// the same tick-start snapshot.
pub open spec fn step_all(cars: Seq<Car>, l: TrafficLights) -> Seq<Car> {
    cars.map_values(|c: Car| step_car(c, l, cars))
}

/// The explicit simulation state: the registry's vehicle set and the
/// controller's signal state. No process-wide statics: ticks are
/// deterministic given the vehicle set and the time readings.
pub struct SimulationState {
    pub cars: Vec<Car>,
    pub lights: TrafficLights,
}

/// An exact copy of the vehicle set, taken at tick start so that
/// leader detection is stable while vehicles move.
fn snapshot(cars: &Vec<Car>) -> (r: Vec<Car>)
    ensures
        r@ == cars@,
{
    let n = cars.len();
    let mut copy: Vec<Car> = Vec::new();
    let mut i: usize = 0;
    while i < n
        invariant
            n == cars@.len(),
            0 <= i <= n,
            copy@ == cars@.subrange(0, i as int),
        decreases n - i,
    {
        copy.push(cars[i]);
        proof {
            assert(copy@ =~= cars@.subrange(0, i as int + 1));
        }
        i = i + 1;
    }
    proof {
        assert(cars@.subrange(0, n as int) =~= cars@);
    }
    copy
}

impl SimulationState {
    /// An empty simulation: no vehicles, all signals red, phase clock
    /// started at `start_ms`.
    pub fn new(start_ms: u64) -> (r: SimulationState)
        ensures
            r.cars@ == Seq::<Car>::empty(),
            r.lights == (TrafficLights {
                lights_top: false,
                lights_down: false,
                lights_left: false,
                lights_right: false,
                current_direction: Direction::Right,
                state: false,
                time: start_ms,
            }),
    {
        SimulationState { cars: Vec::new(), lights: TrafficLights::new(start_ms) }
    }

    /// Advance the simulation by one tick at monotonic time `now_ms`:
    /// one controller update, then every vehicle's behavior against the
    /// updated signals and the tick-start snapshot, then pruning.
    pub fn tick(&mut self, now_ms: u64)
        requires
            old(self).lights.time <= now_ms,
            forall|i: int| 0 <= i < old(self).cars@.len() ==> coord_ok(#[trigger] old(self).cars@[i]),
        ensures
            final(self).lights == lights_next(old(self).lights, old(self).cars@, now_ms),
            final(self).cars@ == pruned(
                step_all(old(self).cars@, lights_next(old(self).lights, old(self).cars@, now_ms)),
            ),
    {
        traffic_lights_sys(&mut self.lights, &self.cars, now_ms);
        let copy_cars = snapshot(&self.cars);
        let n = self.cars.len();
        let mut i: usize = 0;
        while i < n
            invariant
                n == self.cars@.len(),
                copy_cars@ == old(self).cars@,
                self.lights == lights_next(old(self).lights, old(self).cars@, now_ms),
                forall|j: int| 0 <= j < n ==> coord_ok(#[trigger] old(self).cars@[j]),
                0 <= i <= n,
                forall|j: int| 0 <= j < i ==> self.cars@[j] == step_car(
                    #[trigger] old(self).cars@[j],
                    lights_next(old(self).lights, old(self).cars@, now_ms),
                    old(self).cars@,
                ),
                forall|j: int| i <= j < n ==> self.cars@[j] == old(self).cars@[j],
            decreases n - i,
        {
            let mut c = self.cars[i];
            traffic_lights(&mut c, &self.lights);
            if c.moving && !c.next_car(&copy_cars) {
                c.move_car();
            }
            if !c.turned {
                c.redirect();
            }
            self.cars.set(i, c);
            i = i + 1;
        }
        proof {
            assert(self.cars@ =~= step_all(
                old(self).cars@,
                lights_next(old(self).lights, old(self).cars@, now_ms),
            ));
        }
        prune(&mut self.cars);
    }

    /// One spawn command for travel direction `d`, leaving the signal
    /// state untouched. Returns whether the vehicle was admitted.
    pub fn spawn_request(&mut self, d: Direction) -> (r: bool)
        ensures
            spawn_step(old(self).cars@, final(self).cars@, r, d),
            final(self).lights == old(self).lights,
    {
        match d {
            Direction::Top => key_down(&mut self.cars),
            Direction::Down => key_up(&mut self.cars),
            Direction::Right => key_left(&mut self.cars),
            Direction::Left => key_right(&mut self.cars),
        }
    }
}

/// Single turn: `turned` is monotonic and, once set, the turn table is
/// never applied again, so a vehicle turns at most once in its lifetime;
/// and a vehicle that has not turned has never changed direction.
pub proof fn lemma_single_turn(c: Car, l: TrafficLights, all: Seq<Car>)
    ensures
        c.turned ==> step_car(c, l, all).turned,
        c.turned ==> step_car(c, l, all).dir == c.dir,
        !step_car(c, l, all).turned ==> step_car(c, l, all).dir == c.dir,
{
}

/// A tick never grows the fleet: stepping every vehicle keeps the count
/// and pruning can only shrink it. Together with the capped spawn
/// admission, the vehicle count never exceeds the cap, and as a length
/// it never goes negative.
pub proof fn lemma_tick_never_grows(cars: Seq<Car>, l: TrafficLights)
    ensures
        pruned(step_all(cars, l)).len() <= cars.len(),
{
    crate::registry::lemma_pruned_len(step_all(cars, l));
}

/// No-overtake: for two same-direction vehicles of one tick-start
/// snapshot that the tick does not separate by a turn, the strict order
/// along the direction axis is preserved: the trailing vehicle never
/// passes the leading one.
pub proof fn lemma_no_overtake(trailing: Car, leading: Car, l: TrafficLights, all: Seq<Car>)
    requires
        coord_ok(trailing),
        coord_ok(leading),
        trailing.dir == leading.dir,
        progress_along(trailing.dir, leading) > progress_along(trailing.dir, trailing),
        all.contains(leading),
        step_car(trailing, l, all).dir == trailing.dir,
        step_car(leading, l, all).dir == leading.dir,
    ensures
        progress_along(trailing.dir, step_car(leading, l, all)) > progress_along(
            trailing.dir,
            step_car(trailing, l, all),
        ),
{
    let d = trailing.dir;
    let checked = signal_checked(trailing, l);
    if progress_along(d, leading) - progress_along(d, trailing) <= SAFE_DISTANCE {
        let i = choose|i: int| 0 <= i < all.len() && all[i] == leading;
        assert(crate::vehicle::leader_within_gap(checked, all[i]));
        assert(is_blocked(checked, all));
    }
}

} // verus!
