//! The vehicle state model: position on the pixel grid, direction of
//! travel, lane class, and the per-vehicle motion rules (advance by one
//! grid unit, keep a safe following distance, one permitted turn).

use vstd::prelude::*;

verus! {

/// Direction of travel. `Top` moves toward growing `y`, `Down` toward
/// shrinking `y`, `Left` toward shrinking `x`, `Right` toward growing `x`.
#[derive(Clone, Copy, Debug, PartialEq, Eq, Structural)]
pub enum Direction {
    Top,
    Down,
    Left,
    Right,
}

/// Lane class of a vehicle, fixed at spawn time. It selects which of the
/// two turning lanes of an approach the vehicle uses: class `B` and `C`
/// vehicles turn at their waypoint, class `A` vehicles go straight.
#[derive(Clone, Copy, Debug, PartialEq, Eq, Structural)]
pub enum LaneClass {
    A,
    B,
    C,
}

/// A vehicle. `turned` records whether its one permitted turn has been
/// taken; `moving` is the current tick's go/no-go decision, recomputed
/// every tick from the signal state.
#[derive(Clone, Copy, Debug, PartialEq, Eq, Structural)]
pub struct Car {
    pub x: i32,
    pub y: i32,
    pub dir: Direction,
    pub class: LaneClass,
    pub turned: bool,
    pub moving: bool,
}

/// Minimum following distance along the direction axis, in grid units.
pub const SAFE_DISTANCE: i32 = 65;

/// Signed progress of `c` along the axis of direction `d`: larger means
/// farther along a lane that travels in direction `d`.
pub open spec fn progress_along(d: Direction, c: Car) -> int {
    match d {
        Direction::Top => c.y as int,
        Direction::Down => -(c.y as int),
        Direction::Left => -(c.x as int),
        Direction::Right => c.x as int,
    }
}

/// `o` travels in the same direction as `c` and lies strictly ahead of
/// `c` within the safe following distance.
pub open spec fn leader_within_gap(c: Car, o: Car) -> bool {
    &&& o.dir == c.dir
    &&& progress_along(c.dir, o) > progress_along(c.dir, c)
    &&& progress_along(c.dir, o) - progress_along(c.dir, c) <= SAFE_DISTANCE
}

/// `c` is blocked: some vehicle of the snapshot lies strictly ahead of it
/// within the safe following distance.
pub open spec fn is_blocked(c: Car, all: Seq<Car>) -> bool {
    exists|i: int| 0 <= i < all.len() && leader_within_gap(c, all[i])
}

/// `c` stepped one grid unit along its direction of travel.
pub open spec fn advanced(c: Car) -> Car {
    match c.dir {
        Direction::Top => Car { y: (c.y + 1) as i32, ..c },
        Direction::Down => Car { y: (c.y - 1) as i32, ..c },
        Direction::Left => Car { x: (c.x - 1) as i32, ..c },
        Direction::Right => Car { x: (c.x + 1) as i32, ..c },
    }
}

/// The turn table: for each entry direction crossed with the two turning
/// lane classes, the fixed waypoint at which the turn is taken and the
/// new heading. A vehicle matching no row is returned unchanged.
pub open spec fn turn_applied(c: Car) -> Car {
    if c.dir == Direction::Top && c.x == 360 && c.y == 260 && c.class == LaneClass::C {
        Car { dir: Direction::Left, turned: true, ..c }
    } else if c.dir == Direction::Top && c.x == 360 && c.y == 310 && c.class == LaneClass::B {
        Car { dir: Direction::Right, turned: true, ..c }
    } else if c.dir == Direction::Down && c.x == 410 && c.y == 260 && c.class == LaneClass::B {
        Car { dir: Direction::Left, turned: true, ..c }
    } else if c.dir == Direction::Down && c.x == 410 && c.y == 310 && c.class == LaneClass::C {
        Car { dir: Direction::Right, turned: true, ..c }
    } else if c.dir == Direction::Right && c.x == 360 && c.y == 310 && c.class == LaneClass::C {
        Car { dir: Direction::Top, turned: true, ..c }
    } else if c.dir == Direction::Right && c.x == 410 && c.y == 310 && c.class == LaneClass::B {
        Car { dir: Direction::Down, turned: true, ..c }
    } else if c.dir == Direction::Left && c.x == 360 && c.y == 260 && c.class == LaneClass::B {
        Car { dir: Direction::Top, turned: true, ..c }
    } else if c.dir == Direction::Left && c.x == 410 && c.y == 260 && c.class == LaneClass::C {
        Car { dir: Direction::Down, turned: true, ..c }
    } else {
        c
    }
}

/// The coordinates of `c` leave room for one step in either axis
/// direction without overflowing the machine integers.
pub open spec fn coord_ok(c: Car) -> bool {
    &&& i32::MIN < c.x < i32::MAX
    &&& i32::MIN < c.y < i32::MAX
}

impl Car {
    /// A freshly spawned vehicle: not yet turned, not yet moving.
    pub fn new(x: i32, y: i32, dir: Direction, class: LaneClass) -> (r: Car)
        ensures
            r == (Car { x, y, dir, class, turned: false, moving: false }),
    {
        Car { x, y, dir, class, turned: false, moving: false }
    }

    /// Step one grid unit along the direction of travel.
    pub fn move_car(&mut self)
        requires
            coord_ok(*old(self)),
        ensures
            *final(self) == advanced(*old(self)),
    {
        match self.dir {
            Direction::Top => self.y = self.y + 1,
            Direction::Down => self.y = self.y - 1,
            Direction::Left => self.x = self.x - 1,
            Direction::Right => self.x = self.x + 1,
        }
    }

    /// Apply the one-shot turn table: if the vehicle's exact position,
    /// direction and lane class match a waypoint row, redirect it and
    /// mark it turned; otherwise leave it unchanged.
    pub fn redirect(&mut self)
        ensures
            *final(self) == turn_applied(*old(self)),
    {
        if self.dir == Direction::Top {
            if self.x == 360 && self.y == 260 && self.class == LaneClass::C {
                self.dir = Direction::Left;
                self.turned = true;
            } else if self.x == 360 && self.y == 310 && self.class == LaneClass::B {
                self.dir = Direction::Right;
                self.turned = true;
            }
        } else if self.dir == Direction::Down {
            if self.y == 260 && self.x == 410 && self.class == LaneClass::B {
                self.dir = Direction::Left;
                self.turned = true;
            } else if self.y == 310 && self.x == 410 && self.class == LaneClass::C {
                self.dir = Direction::Right;
                self.turned = true;
            }
        } else if self.dir == Direction::Right {
            if self.x == 360 && self.y == 310 && self.class == LaneClass::C {
                self.dir = Direction::Top;
                self.turned = true;
            } else if self.x == 410 && self.y == 310 && self.class == LaneClass::B {
                self.dir = Direction::Down;
                self.turned = true;
            }
        } else if self.dir == Direction::Left {
            if self.x == 360 && self.y == 260 && self.class == LaneClass::B {
                self.dir = Direction::Top;
                self.turned = true;
            } else if self.x == 410 && self.y == 260 && self.class == LaneClass::C {
                self.dir = Direction::Down;
                self.turned = true;
            }
        }
    }

    /// The fixed draw-to-class table: draw value 0 is class `A`, 1 is
    /// class `B`, anything else is class `C`.
    pub fn class_of_draw(k: u32) -> (r: LaneClass)
        ensures
            r == (if k == 0 {
                LaneClass::A
            } else if k == 1 {
                LaneClass::B
            } else {
                LaneClass::C
            }),
    {
        match k {
            0 => LaneClass::A,
            1 => LaneClass::B,
            _ => LaneClass::C,
        }
    }

    /// A lane class drawn at random for a newly spawned vehicle: a draw
    /// below three put through the fixed draw-to-class table, so any of
    /// the three classes can come out.
    pub fn random_c() -> LaneClass {
        Car::class_of_draw(crate::rng::gen_below(3))
    }

    /// Leader check over a snapshot of all vehicles: is some vehicle of
    /// the snapshot strictly ahead of `self` in its own lane direction
    /// within the safe following distance?
    pub fn next_car(&self, cars_iter: &Vec<Car>) -> (r: bool)
        ensures
            r == is_blocked(*self, cars_iter@),
    {
        let n = cars_iter.len();
        let mut i: usize = 0;
        while i < n
            invariant
                n == cars_iter@.len(),
                0 <= i <= n,
                forall|j: int| 0 <= j < i ==> !leader_within_gap(*self, cars_iter@[j]),
            decreases n - i,
        {
            let other = cars_iter[i];
            if other.dir == self.dir {
                let ahead = match self.dir {
                    Direction::Top => {
                        other.y > self.y && (other.y as i64) - (self.y as i64) <= SAFE_DISTANCE as i64
                    }
                    Direction::Down => {
                        other.y < self.y && (self.y as i64) - (other.y as i64) <= SAFE_DISTANCE as i64
                    }
                    Direction::Left => {
                        other.x < self.x && (self.x as i64) - (other.x as i64) <= SAFE_DISTANCE as i64
                    }
                    Direction::Right => {
                        other.x > self.x && (other.x as i64) - (self.x as i64) <= SAFE_DISTANCE as i64
                    }
                };
                if ahead {
                    assert(leader_within_gap(*self, cars_iter@[i as int]));
                    return true;
                }
            }
            i = i + 1;
        }
        false
    }
}

} // verus!
