//! The vehicle registry: spawn admission (capacity cap and minimum
//! following distance at the entry point) and pruning of vehicles that
//! have left the visible field.

use vstd::prelude::*;
use crate::vehicle::{Car, Direction, SAFE_DISTANCE};

verus! {

/// Admission cap: the registry never holds more vehicles than this.
pub const MAX_CARS: usize = 20;

/// Fixed entry coordinates of the four approaches, one per direction of
/// travel.
pub const ENTRY_TOP_X: i32 = 360;
pub const ENTRY_TOP_Y: i32 = -30;
pub const ENTRY_DOWN_X: i32 = 410;
pub const ENTRY_DOWN_Y: i32 = 600;
pub const ENTRY_RIGHT_X: i32 = -30;
pub const ENTRY_RIGHT_Y: i32 = 310;
pub const ENTRY_LEFT_X: i32 = 800;
pub const ENTRY_LEFT_Y: i32 = 260;

/// Spawn gap thresholds: the most recently added vehicle of an approach
/// must have advanced past the minimum gap from the entry point before
/// another vehicle may spawn there.
pub const LIMIT_TOP_Y: i32 = ENTRY_TOP_Y + SAFE_DISTANCE;
pub const LIMIT_DOWN_Y: i32 = ENTRY_DOWN_Y - SAFE_DISTANCE;
pub const LIMIT_RIGHT_X: i32 = ENTRY_RIGHT_X + SAFE_DISTANCE;
pub const LIMIT_LEFT_X: i32 = ENTRY_LEFT_X - SAFE_DISTANCE;

/// The most recently added vehicle traveling in direction `dir`, if any.
pub open spec fn last_with_dir(cars: Seq<Car>, dir: Direction) -> Option<Car>
    decreases cars.len(),
{
    if cars.len() == 0 {
        None
    } else if cars.last().dir == dir {
        Some(cars.last())
    } else {
        last_with_dir(cars.drop_last(), dir)
    }
}

/// The gap side of the admission policy: a vehicle with direction
/// `new_dir` may spawn unless the most recently added vehicle traveling
/// in `dir` still sits on the entry side of the given axis limit.
pub open spec fn can_admit(
    cars: Seq<Car>,
    new_dir: Direction,
    check_y: Option<i32>,
    check_x: Option<i32>,
    dir: Direction,
) -> bool {
    if cars.len() == 0 {
        true
    } else {
        match last_with_dir(cars, dir) {
            None => true,
            Some(lc) => match (check_y, check_x) {
                (Some(y_limit), None) => if new_dir == Direction::Down {
                    lc.y < y_limit
                } else {
                    lc.y > y_limit
                },
                (None, Some(x_limit)) => if new_dir == Direction::Right {
                    lc.x > x_limit
                } else {
                    lc.x < x_limit
                },
                _ => false,
            },
        }
    }
}

/// The whole admission policy: the gap side holds and the registry is
/// below its capacity cap.
pub open spec fn spawn_admitted(
    cars: Seq<Car>,
    new_dir: Direction,
    check_y: Option<i32>,
    check_x: Option<i32>,
    dir: Direction,
) -> bool {
    can_admit(cars, new_dir, check_y, check_x, dir) && cars.len() < MAX_CARS
}

/// The registry after one spawn request: the vehicle is appended when
/// admission allows it, otherwise the registry is unchanged.
pub open spec fn spawn_result(
    cars: Seq<Car>,
    car: Car,
    check_y: Option<i32>,
    check_x: Option<i32>,
    dir: Direction,
) -> Seq<Car> {
    if spawn_admitted(cars, car.dir, check_y, check_x, dir) {
        cars.push(car)
    } else {
        cars
    }
}

/// `c` is still inside the bounding rectangle that extends a generous
/// margin beyond each screen edge.
pub open spec fn in_field(c: Car) -> bool {
    &&& -40 <= c.x <= 840
    &&& -40 <= c.y <= 740
}

/// The registry with every vehicle outside the bounding rectangle
/// removed, order kept.
pub open spec fn pruned(cars: Seq<Car>) -> Seq<Car> {
    cars.filter(|c: Car| in_field(c))
}

/// Find the most recently added vehicle traveling in direction `dir`.
pub fn get_last_car_dir(cars_vec: &Vec<Car>, dir: Direction) -> (r: Option<Car>)
    ensures
        r == last_with_dir(cars_vec@, dir),
{
    let mut i: usize = cars_vec.len();
    proof {
        assert(cars_vec@.subrange(0, i as int) =~= cars_vec@);
    }
    while i > 0
        invariant
            0 <= i <= cars_vec@.len(),
            last_with_dir(cars_vec@, dir) == last_with_dir(cars_vec@.subrange(0, i as int), dir),
        decreases i,
    {
        let c = cars_vec[i - 1];
        proof {
            let s = cars_vec@.subrange(0, i as int);
            assert(s.last() == cars_vec@[i as int - 1]);
            assert(s.drop_last() =~= cars_vec@.subrange(0, i as int - 1));
        }
        if c.dir == dir {
            return Some(c);
        }
        i = i - 1;
    }
    None
}

/// One spawn request: append `car` when the admission policy allows it.
/// Returns whether the vehicle was actually added; a declined request is
/// an expected admission-control outcome, not an error.
pub fn push_car(
    cars_vec: &mut Vec<Car>,
    car: Car,
    check_y: Option<i32>,
    check_x: Option<i32>,
    dir: Direction,
) -> (r: bool)
    ensures
        r == spawn_admitted(old(cars_vec)@, car.dir, check_y, check_x, dir),
        final(cars_vec)@ == spawn_result(old(cars_vec)@, car, check_y, check_x, dir),
{
    let can_push = if cars_vec.len() == 0 {
        true
    } else {
        let last = get_last_car_dir(cars_vec, dir);
        match last {
            Some(last_car) => match (check_y, check_x) {
                (Some(y_limit), None) => {
                    if car.dir == Direction::Down {
                        last_car.y < y_limit
                    } else {
                        last_car.y > y_limit
                    }
                }
                (None, Some(x_limit)) => {
                    if car.dir == Direction::Right {
                        last_car.x > x_limit
                    } else {
                        last_car.x < x_limit
                    }
                }
                _ => false,
            },
            None => true,
        }
    };

    if can_push && cars_vec.len() < MAX_CARS {
        cars_vec.push(car);
        true
    } else {
        false
    }
}

/// Remove every vehicle whose position has left the bounding rectangle
/// around the visible field; the order of the kept vehicles is
/// unchanged. Runs after movement, once per tick.
pub fn prune(cars_vec: &mut Vec<Car>)
    ensures
        final(cars_vec)@ == pruned(old(cars_vec)@),
{
    let n = cars_vec.len();
    let mut kept: Vec<Car> = Vec::new();
    let mut i: usize = 0;
    proof {
        reveal(Seq::filter);
        assert(cars_vec@.subrange(0, 0) =~= Seq::<Car>::empty());
    }
    while i < n
        invariant
            n == cars_vec@.len(),
            cars_vec@ == old(cars_vec)@,
            0 <= i <= n,
            kept@ == pruned(cars_vec@.subrange(0, i as int)),
        decreases n - i,
    {
        let c = cars_vec[i];
        proof {
            reveal(Seq::filter);
            let s = cars_vec@.subrange(0, i as int + 1);
            assert(s.last() == cars_vec@[i as int]);
            assert(s.drop_last() =~= cars_vec@.subrange(0, i as int));
        }
        if c.x >= -40 && c.x <= 840 && c.y >= -40 && c.y <= 740 {
            kept.push(c);
        }
        i = i + 1;
    }
    proof {
        assert(cars_vec@.subrange(0, n as int) =~= cars_vec@);
    }
    *cars_vec = kept;
}

/// The admission side of one spawn command for travel direction `d`,
/// with the entry point and gap threshold that `d`'s approach uses.
pub open spec fn spawn_allowed(cars: Seq<Car>, d: Direction) -> bool {
    match d {
        Direction::Top => spawn_admitted(cars, d, Some(LIMIT_TOP_Y), None, d),
        Direction::Down => spawn_admitted(cars, d, Some(LIMIT_DOWN_Y), None, d),
        Direction::Right => spawn_admitted(cars, d, None, Some(LIMIT_RIGHT_X), d),
        Direction::Left => spawn_admitted(cars, d, None, Some(LIMIT_LEFT_X), d),
    }
}

/// `c` is a freshly spawned vehicle of approach `d`: at `d`'s entry
/// point, traveling in `d`, not yet turned, not yet moving.
pub open spec fn is_entry_car(c: Car, d: Direction) -> bool {
    &&& c.dir == d
    &&& !c.turned
    &&& !c.moving
    &&& match d {
        Direction::Top => c.x == ENTRY_TOP_X && c.y == ENTRY_TOP_Y,
        Direction::Down => c.x == ENTRY_DOWN_X && c.y == ENTRY_DOWN_Y,
        Direction::Right => c.x == ENTRY_RIGHT_X && c.y == ENTRY_RIGHT_Y,
        Direction::Left => c.x == ENTRY_LEFT_X && c.y == ENTRY_LEFT_Y,
    }
}

/// One spawn command for approach `d` took the registry from `before` to
/// `after` and reported `r`: admitted exactly when the policy allows it,
/// and on admission exactly one entry vehicle of `d` was appended.
pub open spec fn spawn_step(before: Seq<Car>, after: Seq<Car>, r: bool, d: Direction) -> bool {
    &&& r == spawn_allowed(before, d)
    &&& if r {
        &&& after.len() == before.len() + 1
        &&& after.drop_last() == before
        &&& is_entry_car(after.last(), d)
    } else {
        after == before
    }
}

/// Spawn command: a vehicle entering from the bottom edge, traveling in
/// direction `Down`, with a random lane class.
pub fn key_up(cars_vec: &mut Vec<Car>) -> (r: bool)
    ensures
        spawn_step(old(cars_vec)@, final(cars_vec)@, r, Direction::Down),
{
    let car = Car::new(ENTRY_DOWN_X, ENTRY_DOWN_Y, Direction::Down, Car::random_c());
    let r = push_car(cars_vec, car, Some(LIMIT_DOWN_Y), None, Direction::Down);
    proof {
        if r {
            assert(old(cars_vec)@.push(car).drop_last() =~= old(cars_vec)@);
        }
    }
    r
}

/// Spawn command: a vehicle entering from the top edge, traveling in
/// direction `Top`, with a random lane class.
pub fn key_down(cars_vec: &mut Vec<Car>) -> (r: bool)
    ensures
        spawn_step(old(cars_vec)@, final(cars_vec)@, r, Direction::Top),
{
    let car = Car::new(ENTRY_TOP_X, ENTRY_TOP_Y, Direction::Top, Car::random_c());
    let r = push_car(cars_vec, car, Some(LIMIT_TOP_Y), None, Direction::Top);
    proof {
        if r {
            assert(old(cars_vec)@.push(car).drop_last() =~= old(cars_vec)@);
        }
    }
    r
}

/// Spawn command: a vehicle entering from the left edge, traveling in
/// direction `Right`, with a random lane class.
pub fn key_left(cars_vec: &mut Vec<Car>) -> (r: bool)
    ensures
        spawn_step(old(cars_vec)@, final(cars_vec)@, r, Direction::Right),
{
    let car = Car::new(ENTRY_RIGHT_X, ENTRY_RIGHT_Y, Direction::Right, Car::random_c());
    let r = push_car(cars_vec, car, None, Some(LIMIT_RIGHT_X), Direction::Right);
    proof {
        if r {
            assert(old(cars_vec)@.push(car).drop_last() =~= old(cars_vec)@);
        }
    }
    r
}

/// Spawn command: a vehicle entering from the right edge, traveling in
/// direction `Left`, with a random lane class.
pub fn key_right(cars_vec: &mut Vec<Car>) -> (r: bool)
    ensures
        spawn_step(old(cars_vec)@, final(cars_vec)@, r, Direction::Left),
{
    let car = Car::new(ENTRY_LEFT_X, ENTRY_LEFT_Y, Direction::Left, Car::random_c());
    let r = push_car(cars_vec, car, None, Some(LIMIT_LEFT_X), Direction::Left);
    proof {
        if r {
            assert(old(cars_vec)@.push(car).drop_last() =~= old(cars_vec)@);
        }
    }
    r
}

/// The fixed draw-to-approach table of the random spawn command: draw
/// value 0 spawns the `Down` approach, 1 the `Top` approach, 2 the
/// `Right` approach, anything else the `Left` approach.
pub open spec fn dir_of_draw(k: u32) -> Direction {
    if k == 0 {
        Direction::Down
    } else if k == 1 {
        Direction::Top
    } else if k == 2 {
        Direction::Right
    } else {
        Direction::Left
    }
}

/// One spawn command dispatched by a draw value: exactly the spawner of
/// the approach that the draw-to-approach table fixes for `k`.
pub fn spawn_by_draw(cars_vec: &mut Vec<Car>, k: u32) -> (r: bool)
    ensures
        spawn_step(old(cars_vec)@, final(cars_vec)@, r, dir_of_draw(k)),
{
    match k {
        0 => key_up(cars_vec),
        1 => key_down(cars_vec),
        2 => key_left(cars_vec),
        _ => key_right(cars_vec),
    }
}

/// Spawn command: a vehicle from a random approach, a draw below four
/// put through the fixed draw-to-approach table.
pub fn key_r(cars_vec: &mut Vec<Car>) -> (r: bool)
    ensures
        exists|d: Direction| spawn_step(old(cars_vec)@, final(cars_vec)@, r, d),
{
    let k = crate::rng::gen_below(4);
    let r = spawn_by_draw(cars_vec, k);
    proof {
        assert(spawn_step(old(cars_vec)@, cars_vec@, r, dir_of_draw(k)));
    }
    r
}

/// The pruned registry is never longer than the registry it came from.
pub proof fn lemma_pruned_len(cars: Seq<Car>)
    ensures
        pruned(cars).len() <= cars.len(),
    decreases cars.len(),
{
    reveal(Seq::filter);
    if cars.len() > 0 {
        lemma_pruned_len(cars.drop_last());
    }
}

/// Bounded fleet: starting at or below the admission cap, one spawn
/// request leaves the registry at or below the cap, and pruning never
/// grows it. The count is a length and so never negative.
pub proof fn lemma_bounded_fleet(
    cars: Seq<Car>,
    car: Car,
    check_y: Option<i32>,
    check_x: Option<i32>,
    dir: Direction,
)
    requires
        cars.len() <= MAX_CARS,
    ensures
        spawn_result(cars, car, check_y, check_x, dir).len() <= MAX_CARS,
        pruned(cars).len() <= cars.len(),
{
    lemma_pruned_len(cars);
}

} // verus!
