//! The intersection controller: a cyclic state machine selecting which of
//! the four approach directions currently has right-of-way, driven by
//! phase timers and approach-occupancy detection, plus the per-vehicle
//! stop-line signal check.
//!
//! Time is an injected monotonic reading in milliseconds, so the machine
//! is deterministic and frame-rate independent.

use vstd::prelude::*;
use crate::vehicle::{Car, Direction};

verus! {

/// Duration of a green phase, in milliseconds.
pub const GREEN_MS: u64 = 2500;

/// Duration of the all-red clearance interval, in milliseconds.
pub const CLEARANCE_MS: u64 = 1200;

/// Stop-line coordinate for each approach: a vehicle exactly on its
/// line while its signal is red must not move that tick.
pub const STOP_TOP_Y: i32 = 240;
pub const STOP_DOWN_Y: i32 = 420;
pub const STOP_RIGHT_X: i32 = 300;
pub const STOP_LEFT_X: i32 = 470;

/// The fixed lane coordinate of each approach (the axis the vehicles of
/// that approach do not move along).
pub const LANE_TOP_X: i32 = 360;
pub const LANE_DOWN_X: i32 = 410;
pub const LANE_RIGHT_Y: i32 = 310;
pub const LANE_LEFT_Y: i32 = 260;

/// Midpoint between each approach's entry point and its stop line: a
/// vehicle past it makes the approach active.
pub const MID_TOP_Y: i32 = 105;
pub const MID_DOWN_Y: i32 = 510;
pub const MID_RIGHT_X: i32 = 135;
pub const MID_LEFT_X: i32 = 635;

/// The traffic-light state: one signal boolean per approach, a pointer
/// into the ring of approaches, whether some approach is green, and the
/// phase-start time in milliseconds.
#[derive(Clone, Copy, Debug, PartialEq, Eq, Structural)]
pub struct TrafficLights {
    pub lights_top: bool,
    pub lights_down: bool,
    pub lights_left: bool,
    pub lights_right: bool,
    pub current_direction: Direction,
    pub state: bool,
    pub time: u64,
}

/// At most one of the four signal booleans is true: the core safety
/// property of the controller.
pub open spec fn at_most_one_green(l: TrafficLights) -> bool {
    &&& l.lights_top ==> !l.lights_down && !l.lights_left && !l.lights_right
    &&& l.lights_down ==> !l.lights_top && !l.lights_left && !l.lights_right
    &&& l.lights_left ==> !l.lights_top && !l.lights_down && !l.lights_right
    &&& l.lights_right ==> !l.lights_top && !l.lights_down && !l.lights_left
}

/// Well-formed controller state: when `state` is green exactly the
/// current direction's signal is on; otherwise all four are off.
pub open spec fn lights_wf(l: TrafficLights) -> bool {
    &&& l.lights_top == (l.state && l.current_direction == Direction::Top)
    &&& l.lights_down == (l.state && l.current_direction == Direction::Down)
    &&& l.lights_left == (l.state && l.current_direction == Direction::Left)
    &&& l.lights_right == (l.state && l.current_direction == Direction::Right)
}

/// The signal boolean of approach `d`.
pub open spec fn signal_of(l: TrafficLights, d: Direction) -> bool {
    match d {
        Direction::Top => l.lights_top,
        Direction::Down => l.lights_down,
        Direction::Left => l.lights_left,
        Direction::Right => l.lights_right,
    }
}

/// Vehicle `c` makes approach `d` active: it has not turned, still
/// travels in the approach's direction, and has advanced past the
/// midpoint between the approach's entry point and its stop line.
pub open spec fn activates(c: Car, d: Direction) -> bool {
    &&& !c.turned
    &&& c.dir == d
    &&& match d {
        Direction::Top => c.x == LANE_TOP_X && c.y >= MID_TOP_Y,
        Direction::Down => c.x == LANE_DOWN_X && c.y <= MID_DOWN_Y,
        Direction::Left => c.y == LANE_LEFT_Y && c.x <= MID_LEFT_X,
        Direction::Right => c.y == LANE_RIGHT_Y && c.x >= MID_RIGHT_X,
    }
}

/// Approach `d` is active: some vehicle of `cars` activates it.
pub open spec fn dir_active(cars: Seq<Car>, d: Direction) -> bool {
    exists|i: int| 0 <= i < cars.len() && activates(cars[i], d)
}

/// How many of the four approaches are active.
pub open spec fn active_count(cars: Seq<Car>) -> int {
    (if dir_active(cars, Direction::Right) { 1int } else { 0int })
        + (if dir_active(cars, Direction::Top) { 1int } else { 0int })
        + (if dir_active(cars, Direction::Left) { 1int } else { 0int })
        + (if dir_active(cars, Direction::Down) { 1int } else { 0int })
}

/// The unique active approach, in the fixed scan order, when exactly one
/// is active.
pub open spec fn sole_active_dir(cars: Seq<Car>) -> Direction {
    if dir_active(cars, Direction::Right) {
        Direction::Right
    } else if dir_active(cars, Direction::Top) {
        Direction::Top
    } else if dir_active(cars, Direction::Left) {
        Direction::Left
    } else {
        Direction::Down
    }
}

/// The successor of `d` on the fixed ring of approaches.
pub open spec fn ring_next(d: Direction) -> Direction {
    match d {
        Direction::Right => Direction::Top,
        Direction::Top => Direction::Left,
        Direction::Left => Direction::Down,
        Direction::Down => Direction::Right,
    }
}

/// The next active approach found by scanning the ring starting one step
/// after `cur`, wrapping around; `cur` itself if no other is active.
pub open spec fn next_active_dir(cur: Direction, cars: Seq<Car>) -> Direction {
    if dir_active(cars, ring_next(cur)) {
        ring_next(cur)
    } else if dir_active(cars, ring_next(ring_next(cur))) {
        ring_next(ring_next(cur))
    } else if dir_active(cars, ring_next(ring_next(ring_next(cur)))) {
        ring_next(ring_next(ring_next(cur)))
    } else {
        cur
    }
}

/// The controller state with all four signals off.
pub open spec fn all_red_cfg(l: TrafficLights) -> TrafficLights {
    TrafficLights {
        lights_top: false,
        lights_down: false,
        lights_left: false,
        lights_right: false,
        ..l
    }
}

/// The controller state granting green to `d` with phase start `now`.
pub open spec fn green_cfg(d: Direction, now: u64) -> TrafficLights {
    TrafficLights {
        lights_top: d == Direction::Top,
        lights_down: d == Direction::Down,
        lights_left: d == Direction::Left,
        lights_right: d == Direction::Right,
        current_direction: d,
        state: true,
        time: now,
    }
}

/// One controller update at time `now`, given the vehicle set:
/// zero active approaches force all-red; a single active approach is
/// granted green at once; under contention, a green phase lasts until
/// its approach goes inactive or the green timer elapses, and an all-red
/// clearance lasts until its timer elapses, after which the next active
/// approach on the ring is granted green.
pub open spec fn lights_next(l: TrafficLights, cars: Seq<Car>, now: u64) -> TrafficLights {
    let n = active_count(cars);
    if n == 0 {
        TrafficLights { state: false, ..all_red_cfg(l) }
    } else if n == 1 {
        green_cfg(sole_active_dir(cars), now)
    } else if l.state {
        if !dir_active(cars, l.current_direction) || now - l.time >= GREEN_MS {
            TrafficLights { state: false, time: now, ..all_red_cfg(l) }
        } else {
            l
        }
    } else {
        if now - l.time >= CLEARANCE_MS {
            green_cfg(next_active_dir(l.current_direction, cars), now)
        } else {
            l
        }
    }
}

/// `c` must hold this tick: its signal is red and it stands exactly on
/// its approach's stop line.
pub open spec fn stop_now(c: Car, l: TrafficLights) -> bool {
    ||| (!l.lights_down && c.dir == Direction::Down && c.y == STOP_DOWN_Y)
    ||| (!l.lights_top && c.dir == Direction::Top && c.y == STOP_TOP_Y)
    ||| (!l.lights_right && c.dir == Direction::Right && c.x == STOP_RIGHT_X)
    ||| (!l.lights_left && c.dir == Direction::Left && c.x == STOP_LEFT_X)
}

/// `c` with this tick's go/no-go decision recomputed from the signals.
pub open spec fn signal_checked(c: Car, l: TrafficLights) -> Car {
    Car { moving: !stop_now(c, l), ..c }
}

impl TrafficLights {
    /// The initial controller state: all-red, ring pointer at the first
    /// approach, phase clock started at `start_ms`.
    pub fn new(start_ms: u64) -> (r: TrafficLights)
        ensures
            r == (TrafficLights {
                lights_top: false,
                lights_down: false,
                lights_left: false,
                lights_right: false,
                current_direction: Direction::Right,
                state: false,
                time: start_ms,
            }),
            lights_wf(r),
    {
        TrafficLights {
            lights_top: false,
            lights_down: false,
            lights_left: false,
            lights_right: false,
            current_direction: Direction::Right,
            state: false,
            time: start_ms,
        }
    }
}

/// The per-vehicle signal check: red exactly at the stop line means the
/// vehicle holds this tick, anything else means it may move.
pub fn traffic_lights(car: &mut Car, lights: &TrafficLights)
    ensures
        *final(car) == signal_checked(*old(car), *lights),
{
    if (!lights.lights_down && car.dir == Direction::Down && car.y == STOP_DOWN_Y)
        || (!lights.lights_top && car.dir == Direction::Top && car.y == STOP_TOP_Y)
        || (!lights.lights_right && car.dir == Direction::Right && car.x == STOP_RIGHT_X)
        || (!lights.lights_left && car.dir == Direction::Left && car.x == STOP_LEFT_X)
    {
        car.moving = false;
    } else {
        car.moving = true;
    }
}

/// Does some vehicle of `cars` make approach `d` active?
fn dir_is_active(cars: &Vec<Car>, d: Direction) -> (r: bool)
    ensures
        r == dir_active(cars@, d),
{
    let n = cars.len();
    let mut i: usize = 0;
    while i < n
        invariant
            n == cars@.len(),
            0 <= i <= n,
            forall|j: int| 0 <= j < i ==> !activates(cars@[j], d),
        decreases n - i,
    {
        let c = cars[i];
        let hit = !c.turned && c.dir == d && match d {
            Direction::Top => c.x == LANE_TOP_X && c.y >= MID_TOP_Y,
            Direction::Down => c.x == LANE_DOWN_X && c.y <= MID_DOWN_Y,
            Direction::Left => c.y == LANE_LEFT_Y && c.x <= MID_LEFT_X,
            Direction::Right => c.y == LANE_RIGHT_Y && c.x >= MID_RIGHT_X,
        };
        if hit {
            assert(activates(cars@[i as int], d));
            return true;
        }
        i = i + 1;
    }
    false
}

/// The successor of `d` on the fixed ring of approaches.
fn ring_next_dir(d: Direction) -> (r: Direction)
    ensures
        r == ring_next(d),
{
    match d {
        Direction::Right => Direction::Top,
        Direction::Top => Direction::Left,
        Direction::Left => Direction::Down,
        Direction::Down => Direction::Right,
    }
}

/// One controller update: reads the vehicle set and the monotonic time
/// `now_ms`, and moves the signal state machine exactly one step.
pub fn traffic_lights_sys(lights: &mut TrafficLights, cars: &Vec<Car>, now_ms: u64)
    requires
        old(lights).time <= now_ms,
    ensures
        *final(lights) == lights_next(*old(lights), cars@, now_ms),
{
    let a_right = dir_is_active(cars, Direction::Right);
    let a_top = dir_is_active(cars, Direction::Top);
    let a_left = dir_is_active(cars, Direction::Left);
    let a_down = dir_is_active(cars, Direction::Down);

    let count: u32 = (if a_right { 1 } else { 0 }) + (if a_top { 1 } else { 0 })
        + (if a_left { 1 } else { 0 }) + (if a_down { 1 } else { 0 });

    if count == 0 {
        lights.lights_top = false;
        lights.lights_down = false;
        lights.lights_left = false;
        lights.lights_right = false;
        lights.state = false;
        return;
    }

    if count == 1 {
        let d = if a_right {
            Direction::Right
        } else if a_top {
            Direction::Top
        } else if a_left {
            Direction::Left
        } else {
            Direction::Down
        };
        set_green(lights, d, now_ms);
        return;
    }

    let elapsed = now_ms - lights.time;

    if lights.state {
        let cur_active = dir_is_active(cars, lights.current_direction);
        if !cur_active || elapsed >= GREEN_MS {
            lights.lights_top = false;
            lights.lights_down = false;
            lights.lights_left = false;
            lights.lights_right = false;
            lights.state = false;
            lights.time = now_ms;
        }
    } else if elapsed >= CLEARANCE_MS {
        let s1 = ring_next_dir(lights.current_direction);
        let s2 = ring_next_dir(s1);
        let s3 = ring_next_dir(s2);
        let d = if dir_is_active(cars, s1) {
            s1
        } else if dir_is_active(cars, s2) {
            s2
        } else if dir_is_active(cars, s3) {
            s3
        } else {
            lights.current_direction
        };
        set_green(lights, d, now_ms);
    }
}

/// Grant green to `d` and restart the phase clock at `now_ms`.
fn set_green(lights: &mut TrafficLights, d: Direction, now_ms: u64)
    ensures
        *final(lights) == green_cfg(d, now_ms),
{
    lights.lights_top = matches!(d, Direction::Top);
    lights.lights_down = matches!(d, Direction::Down);
    lights.lights_left = matches!(d, Direction::Left);
    lights.lights_right = matches!(d, Direction::Right);
    lights.current_direction = d;
    lights.state = true;
    lights.time = now_ms;
}

/// Mutual exclusion of the signals: a well-formed controller state has
/// at most one green, and one controller update preserves
/// well-formedness; so at every tick at most one of the four signal
/// booleans is true.
pub proof fn lemma_mutual_exclusion(l: TrafficLights, cars: Seq<Car>, now: u64)
    requires
        lights_wf(l),
    ensures
        at_most_one_green(l),
        lights_wf(lights_next(l, cars, now)),
        at_most_one_green(lights_next(l, cars, now)),
{
}

/// Under contention, the moment a clearance interval ends the controller
/// grants green to the next active approach on the ring after the
/// current one.
pub proof fn lemma_grant_scans_ring(l: TrafficLights, cars: Seq<Car>, now: u64)
    requires
        active_count(cars) >= 2,
        !l.state,
        now - l.time >= CLEARANCE_MS,
    ensures
        lights_next(l, cars, now) == green_cfg(next_active_dir(l.current_direction, cars), now),
{
}

/// Starvation-freedom of the ring scan: under a sustained set of active
/// approaches, repeated phase grants reach every active approach within
/// four steps, whatever approach holds the green first.
pub proof fn lemma_ring_scan_reaches_every_active(cur: Direction, cars: Seq<Car>, target: Direction)
    requires
        dir_active(cars, target),
    ensures
        ({
            let g1 = next_active_dir(cur, cars);
            let g2 = next_active_dir(g1, cars);
            let g3 = next_active_dir(g2, cars);
            let g4 = next_active_dir(g3, cars);
            target == g1 || target == g2 || target == g3 || target == g4
        }),
{
}

} // verus!
