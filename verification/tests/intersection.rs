use road_intersection::{Car, Direction, LaneClass, SimulationState, TrafficLights};
use road_intersection::{get_last_car_dir, key_r, push_car, spawn_by_draw, traffic_lights,
    traffic_lights_sys};

fn car(x: i32, y: i32, dir: Direction, class: LaneClass) -> Car {
    Car::new(x, y, dir, class)
}

fn greens(l: &TrafficLights) -> u32 {
    (l.lights_top as u32) + (l.lights_down as u32) + (l.lights_left as u32)
        + (l.lights_right as u32)
}

// Scenario: a single vehicle from the west approach, no contention. It is
// never stopped and reaches the far boundary after exactly as many ticks
// as the travel distance in grid units.
#[test]
fn scenario_a_uncontended_west_vehicle() {
    let mut sim = SimulationState::new(0);
    sim.cars.push(car(-30, 310, Direction::Right, LaneClass::A));
    for t in 1..871u64 {
        sim.tick(t);
        assert_eq!(sim.cars.len(), 1, "tick {}", t);
        assert_eq!(sim.cars[0].x, -30 + t as i32, "tick {}", t);
        assert_eq!(sim.cars[0].y, 310);
        assert!(sim.cars[0].moving, "tick {}", t);
        // once past the midpoint the sole active approach is green at once
        if sim.cars[0].x >= 136 {
            assert!(sim.lights.lights_right);
        }
    }
    // travel distance: from x = -30 to past the +840 boundary in 871 steps
    sim.tick(871);
    assert_eq!(sim.cars.len(), 0);
}

// Scenario: a second spawn from the same approach is rejected while the
// leader is within the 65-unit gap of the entry point, and accepted once
// the leader has advanced past it.
#[test]
fn scenario_b_spawn_gap() {
    let mut cars: Vec<Car> = Vec::new();
    let entry = car(-30, 310, Direction::Right, LaneClass::A);
    assert!(push_car(&mut cars, entry, None, Some(35), Direction::Right));
    assert_eq!(cars.len(), 1);

    // leader only 10 units from the entry point: rejected
    cars[0].x = -20;
    assert!(!push_car(&mut cars, entry, None, Some(35), Direction::Right));
    assert_eq!(cars.len(), 1);

    // leader exactly at the 65-unit threshold: still rejected
    cars[0].x = 35;
    assert!(!push_car(&mut cars, entry, None, Some(35), Direction::Right));

    // leader past the threshold: accepted
    cars[0].x = 36;
    assert!(push_car(&mut cars, entry, None, Some(35), Direction::Right));
    assert_eq!(cars.len(), 2);
}

// Scenario: two vehicles from adjacent approaches are both past their
// midpoints before either is green. The ring-order winner is granted
// green, the other waits out that green phase and the 1.2 s clearance,
// then receives green.
#[test]
fn scenario_c_adjacent_contention() {
    let mut sim = SimulationState::new(0);
    sim.cars.push(car(135, 310, Direction::Right, LaneClass::A));
    sim.cars.push(car(360, 105, Direction::Top, LaneClass::A));

    // clearance not yet elapsed: all red
    sim.tick(0);
    assert_eq!(greens(&sim.lights), 0);
    assert!(!sim.lights.state);

    // clearance elapsed: the scan starts one step after Right, so Top wins
    sim.tick(1200);
    assert!(sim.lights.lights_top);
    assert!(!sim.lights.lights_right);
    assert_eq!(greens(&sim.lights), 1);

    // green timer (2.5 s) runs out while Top stays active: all red again
    sim.tick(3700);
    assert_eq!(greens(&sim.lights), 0);
    assert!(!sim.lights.state);

    // after the 1.2 s clearance the other approach receives green
    sim.tick(4900);
    assert!(sim.lights.lights_right);
    assert!(!sim.lights.lights_top);
    assert_eq!(greens(&sim.lights), 1);
}

// Scenario: a vehicle exactly on a red stop line has moving == false on
// that tick and does not advance; on the tick its signal turns green it
// has moving == true and advances.
#[test]
fn scenario_d_red_stop_line() {
    let mut sim = SimulationState::new(0);
    sim.lights = TrafficLights {
        lights_top: true,
        lights_down: false,
        lights_left: false,
        lights_right: false,
        current_direction: Direction::Top,
        state: true,
        time: 0,
    };
    sim.cars.push(car(300, 310, Direction::Right, LaneClass::A));
    sim.cars.push(car(360, 200, Direction::Top, LaneClass::A));

    // Top is green and stays so: the Right vehicle holds at its stop line
    sim.tick(0);
    assert!(sim.lights.lights_top);
    assert!(!sim.cars[0].moving);
    assert_eq!(sim.cars[0].x, 300);

    // green timer elapses: all red, the Right vehicle still holds
    sim.tick(2500);
    assert_eq!(greens(&sim.lights), 0);
    assert!(!sim.cars[0].moving);
    assert_eq!(sim.cars[0].x, 300);

    // clearance elapses: Right turns green, the vehicle moves that tick
    sim.tick(3700);
    assert!(sim.lights.lights_right);
    assert!(sim.cars[0].moving);
    assert_eq!(sim.cars[0].x, 301);
}

// Mutual exclusion observed over a long mixed run: never more than one
// green signal.
#[test]
fn mutual_exclusion_over_run() {
    let mut sim = SimulationState::new(0);
    sim.cars.push(car(-30, 310, Direction::Right, LaneClass::A));
    sim.cars.push(car(360, -30, Direction::Top, LaneClass::B));
    sim.cars.push(car(800, 260, Direction::Left, LaneClass::C));
    sim.cars.push(car(410, 600, Direction::Down, LaneClass::A));
    let mut now: u64 = 0;
    for _ in 0..2000 {
        now += 37;
        sim.tick(now);
        assert!(greens(&sim.lights) <= 1);
    }
}

// No-overtake: a trailing vehicle within the safe distance of its leader
// does not advance; outside it both advance and the order is kept.
#[test]
fn no_overtake_blocked_within_gap() {
    let mut sim = SimulationState::new(0);
    sim.cars.push(car(100, 310, Direction::Right, LaneClass::A));
    sim.cars.push(car(140, 310, Direction::Right, LaneClass::A));
    sim.tick(0);
    // gap 40 <= 65: the trailing vehicle holds while the leader moves
    assert_eq!(sim.cars[0].x, 100);
    assert_eq!(sim.cars[1].x, 141);
}

#[test]
fn no_overtake_free_beyond_gap() {
    let mut sim = SimulationState::new(0);
    sim.cars.push(car(100, 310, Direction::Right, LaneClass::A));
    sim.cars.push(car(170, 310, Direction::Right, LaneClass::A));
    sim.tick(0);
    // gap 70 > 65: both advance, order kept
    assert_eq!(sim.cars[0].x, 101);
    assert_eq!(sim.cars[1].x, 171);
}

// The safe-distance boundary of the leader check itself: exactly 65
// blocks, 66 does not.
#[test]
fn leader_gap_boundary() {
    let trailing = car(100, 310, Direction::Right, LaneClass::A);
    let at_65 = vec![car(165, 310, Direction::Right, LaneClass::B)];
    let at_66 = vec![car(166, 310, Direction::Right, LaneClass::B)];
    assert!(trailing.next_car(&at_65));
    assert!(!trailing.next_car(&at_66));
    // a vehicle in another lane direction never blocks
    let other_dir = vec![car(140, 310, Direction::Left, LaneClass::B)];
    assert!(!trailing.next_car(&other_dir));
    // a vehicle never blocks itself
    assert!(!trailing.next_car(&vec![trailing]));
}

// Bounded fleet: the admission cap of 20 is never exceeded.
#[test]
fn bounded_fleet_cap() {
    let mut cars: Vec<Car> = Vec::new();
    for i in 0..25 {
        let accepted = push_car(
            &mut cars,
            car(-30, 310, Direction::Right, LaneClass::A),
            None,
            Some(35),
            Direction::Right,
        );
        assert_eq!(accepted, i < 20);
        assert!(cars.len() <= 20);
        if accepted {
            // move the newcomer well past the spawn gap
            let n = cars.len();
            cars[n - 1].x = 100 + i;
        }
    }
    assert_eq!(cars.len(), 20);
}

// Single turn: the turn table redirects a matching vehicle exactly once;
// turned never reverts and the direction never changes again.
#[test]
fn single_turn_applied_once() {
    let mut sim = SimulationState::new(0);
    // class C vehicle traveling Right, one step before its waypoint
    sim.cars.push(car(359, 310, Direction::Right, LaneClass::C));
    sim.tick(0);
    assert_eq!(sim.cars[0].x, 360);
    assert_eq!(sim.cars[0].dir, Direction::Top);
    assert!(sim.cars[0].turned);
    for t in 1..50u64 {
        sim.tick(t);
        assert!(sim.cars[0].turned);
        assert_eq!(sim.cars[0].dir, Direction::Top);
    }
}

// A vehicle whose class matches no turn row passes the waypoint straight.
#[test]
fn no_turn_for_class_a() {
    let mut sim = SimulationState::new(0);
    sim.cars.push(car(359, 310, Direction::Right, LaneClass::A));
    sim.tick(0);
    assert_eq!(sim.cars[0].x, 360);
    assert_eq!(sim.cars[0].dir, Direction::Right);
    assert!(!sim.cars[0].turned);
}

// The whole turn table, row by row.
#[test]
fn turn_table_rows() {
    let rows = [
        (Direction::Top, 360, 260, LaneClass::C, Direction::Left),
        (Direction::Top, 360, 310, LaneClass::B, Direction::Right),
        (Direction::Down, 410, 260, LaneClass::B, Direction::Left),
        (Direction::Down, 410, 310, LaneClass::C, Direction::Right),
        (Direction::Right, 360, 310, LaneClass::C, Direction::Top),
        (Direction::Right, 410, 310, LaneClass::B, Direction::Down),
        (Direction::Left, 360, 260, LaneClass::B, Direction::Top),
        (Direction::Left, 410, 260, LaneClass::C, Direction::Down),
    ];
    for (dir, x, y, class, new_dir) in rows {
        let mut c = car(x, y, dir, class);
        c.redirect();
        assert_eq!(c.dir, new_dir);
        assert!(c.turned);
    }
    // off-waypoint and wrong-class vehicles are unchanged
    let mut straight = car(360, 259, Direction::Top, LaneClass::C);
    straight.redirect();
    assert_eq!(straight.dir, Direction::Top);
    assert!(!straight.turned);
    let mut wrong_class = car(360, 260, Direction::Top, LaneClass::B);
    wrong_class.redirect();
    assert_eq!(wrong_class.dir, Direction::Top);
    assert!(!wrong_class.turned);
}

// Starvation-freedom under sustained three-way contention: the ring scan
// grants every active approach within one pass of the ring.
#[test]
fn ring_rotation_three_approaches() {
    let mut sim = SimulationState::new(0);
    // hold three approaches active far from their stop lines
    sim.cars.push(car(200, 310, Direction::Right, LaneClass::A));
    sim.cars.push(car(360, 110, Direction::Top, LaneClass::A));
    sim.cars.push(car(600, 260, Direction::Left, LaneClass::A));

    let mut order: Vec<Direction> = Vec::new();
    let mut now: u64 = 0;
    let mut was_green = false;
    for _ in 0..40 {
        now += 1300;
        sim.tick(now);
        // keep the same three approaches active throughout
        sim.cars[0].x = 200;
        sim.cars[1].y = 110;
        sim.cars[2].x = 600;
        if sim.lights.state && !was_green {
            order.push(sim.lights.current_direction);
        }
        was_green = sim.lights.state;
    }
    // ring order from the initial pointer (Right): Top, Left, then Right
    assert!(order.len() >= 6);
    assert_eq!(order[0], Direction::Top);
    assert_eq!(order[1], Direction::Left);
    assert_eq!(order[2], Direction::Right);
    assert_eq!(order[3], Direction::Top);
    assert_eq!(order[4], Direction::Left);
    assert_eq!(order[5], Direction::Right);
}

// Zero active approaches force all-red; a single active approach is
// granted green at once, even during a clearance interval.
#[test]
fn controller_idle_and_sole_approach() {
    let mut lights = TrafficLights::new(0);
    let empty: Vec<Car> = Vec::new();
    traffic_lights_sys(&mut lights, &empty, 100);
    assert_eq!(greens(&lights), 0);
    assert!(!lights.state);

    // one vehicle past the midpoint of the north approach: green at once
    let one = vec![car(360, 105, Direction::Top, LaneClass::A)];
    traffic_lights_sys(&mut lights, &one, 150);
    assert!(lights.lights_top);
    assert!(lights.state);
    assert_eq!(lights.time, 150);

    // a vehicle short of the midpoint does not activate its approach
    let short = vec![car(360, 104, Direction::Top, LaneClass::A)];
    traffic_lights_sys(&mut lights, &short, 200);
    assert_eq!(greens(&lights), 0);

    // a turned vehicle does not activate its approach either
    let mut turned = car(360, 105, Direction::Top, LaneClass::A);
    turned.turned = true;
    traffic_lights_sys(&mut lights, &vec![turned], 250);
    assert_eq!(greens(&lights), 0);
}

// The per-vehicle signal check is a point check at the stop line.
#[test]
fn signal_point_check() {
    let red = TrafficLights::new(0);
    let mut at_line = car(300, 310, Direction::Right, LaneClass::A);
    traffic_lights(&mut at_line, &red);
    assert!(!at_line.moving);

    let mut before_line = car(299, 310, Direction::Right, LaneClass::A);
    traffic_lights(&mut before_line, &red);
    assert!(before_line.moving);

    let mut green = red;
    green.lights_right = true;
    green.state = true;
    green.current_direction = Direction::Right;
    let mut at_line_green = car(300, 310, Direction::Right, LaneClass::A);
    traffic_lights(&mut at_line_green, &green);
    assert!(at_line_green.moving);
}

// Pruning keeps exactly the bounding rectangle, boundaries included.
#[test]
fn prune_bounds() {
    let mut sim = SimulationState::new(0);
    sim.cars.push(car(840, 310, Direction::Right, LaneClass::A));
    sim.cars.push(car(-40, 260, Direction::Left, LaneClass::A));
    sim.cars.push(car(360, 740, Direction::Top, LaneClass::A));
    sim.cars.push(car(410, -40, Direction::Down, LaneClass::A));
    sim.tick(0);
    // each moved one unit outward and left the field
    assert_eq!(sim.cars.len(), 0);

    let mut stay = SimulationState::new(0);
    stay.cars.push(car(839, 310, Direction::Right, LaneClass::A));
    stay.tick(0);
    assert_eq!(stay.cars.len(), 1);
    assert_eq!(stay.cars[0].x, 840);
}

// The most recently added vehicle of a direction, not the first.
#[test]
fn last_car_of_direction() {
    let a = car(0, 310, Direction::Right, LaneClass::A);
    let b = car(50, 260, Direction::Left, LaneClass::B);
    let c = car(99, 310, Direction::Right, LaneClass::C);
    let cars = vec![a, b, c];
    assert_eq!(get_last_car_dir(&cars, Direction::Right), Some(c));
    assert_eq!(get_last_car_dir(&cars, Direction::Left), Some(b));
    assert_eq!(get_last_car_dir(&cars, Direction::Top), None);
}

// With both axis limits given the admission check declines (a malformed
// request), unless the registry is empty.
#[test]
fn push_car_malformed_limits() {
    let mut cars: Vec<Car> = Vec::new();
    let c = car(-30, 310, Direction::Right, LaneClass::A);
    assert!(push_car(&mut cars, c, Some(35), Some(35), Direction::Right));
    assert!(!push_car(&mut cars, c, Some(35), Some(35), Direction::Right));
    assert_eq!(cars.len(), 1);
}

// The random spawn command goes through the random draw: on an empty
// registry it must admit a vehicle at one of the four entry points.
#[test]
fn random_spawn_lands_on_an_entry() {
    for _ in 0..20 {
        let mut cars: Vec<Car> = Vec::new();
        assert!(key_r(&mut cars));
        assert_eq!(cars.len(), 1);
        let c = cars[0];
        let at_entry = match c.dir {
            Direction::Top => c.x == 360 && c.y == -30,
            Direction::Down => c.x == 410 && c.y == 600,
            Direction::Right => c.x == -30 && c.y == 310,
            Direction::Left => c.x == 800 && c.y == 260,
        };
        assert!(at_entry);
        assert!(!c.turned);
        assert!(!c.moving);
        assert!(matches!(c.class, LaneClass::A | LaneClass::B | LaneClass::C));
    }
}

// The draw-to-class table, value by value: 0 is A, 1 is B, everything
// else is C.
#[test]
fn class_of_draw_table() {
    assert_eq!(Car::class_of_draw(0), LaneClass::A);
    assert_eq!(Car::class_of_draw(1), LaneClass::B);
    assert_eq!(Car::class_of_draw(2), LaneClass::C);
    assert_eq!(Car::class_of_draw(7), LaneClass::C);
}

// The draw-to-approach dispatch, value by value: each draw runs exactly
// the spawner of its table entry.
#[test]
fn spawn_by_draw_table() {
    let expect = [
        (0u32, Direction::Down, 410, 600),
        (1u32, Direction::Top, 360, -30),
        (2u32, Direction::Right, -30, 310),
        (3u32, Direction::Left, 800, 260),
    ];
    for (k, dir, x, y) in expect {
        let mut cars: Vec<Car> = Vec::new();
        assert!(spawn_by_draw(&mut cars, k));
        assert_eq!(cars.len(), 1);
        assert_eq!(cars[0].dir, dir);
        assert_eq!((cars[0].x, cars[0].y), (x, y));
        assert!(!cars[0].turned);
        assert!(!cars[0].moving);
    }
    // a blocked approach declines through the dispatch too
    let mut cars: Vec<Car> = Vec::new();
    assert!(spawn_by_draw(&mut cars, 0));
    assert!(!spawn_by_draw(&mut cars, 0));
    assert_eq!(cars.len(), 1);
}

// The random draws really vary: over repeated spawns more than one lane
// class and more than one approach come out.
#[test]
fn random_draws_vary() {
    let mut classes = [false; 3];
    for _ in 0..40 {
        match Car::random_c() {
            LaneClass::A => classes[0] = true,
            LaneClass::B => classes[1] = true,
            LaneClass::C => classes[2] = true,
        }
    }
    assert!(classes.iter().filter(|&&b| b).count() >= 2);

    let mut dirs = [false; 4];
    for _ in 0..40 {
        let mut cars: Vec<Car> = Vec::new();
        assert!(key_r(&mut cars));
        match cars[0].dir {
            Direction::Top => dirs[0] = true,
            Direction::Down => dirs[1] = true,
            Direction::Left => dirs[2] = true,
            Direction::Right => dirs[3] = true,
        }
    }
    assert!(dirs.iter().filter(|&&b| b).count() >= 2);
}

// The directional spawn commands use their fixed entries and directions.
#[test]
fn spawn_requests_by_direction() {
    let mut sim = SimulationState::new(0);
    assert!(sim.spawn_request(Direction::Down));
    assert!(sim.spawn_request(Direction::Top));
    assert!(sim.spawn_request(Direction::Right));
    assert!(sim.spawn_request(Direction::Left));
    assert_eq!(sim.cars.len(), 4);
    assert_eq!((sim.cars[0].x, sim.cars[0].y), (410, 600));
    assert_eq!(sim.cars[0].dir, Direction::Down);
    assert_eq!((sim.cars[1].x, sim.cars[1].y), (360, -30));
    assert_eq!(sim.cars[1].dir, Direction::Top);
    assert_eq!((sim.cars[2].x, sim.cars[2].y), (-30, 310));
    assert_eq!(sim.cars[2].dir, Direction::Right);
    assert_eq!((sim.cars[3].x, sim.cars[3].y), (800, 260));
    assert_eq!(sim.cars[3].dir, Direction::Left);
    // a second spawn from an occupied entry is declined
    assert!(!sim.spawn_request(Direction::Down));
    assert_eq!(sim.cars.len(), 4);
}

// A green phase ends early when its approach goes inactive (the
// triggering vehicle turned), without waiting out the green timer.
#[test]
fn green_ends_when_approach_clears() {
    let mut sim = SimulationState::new(0);
    // the Right vehicle will turn at (360, 310); Top and Down keep the
    // contention up so the controller keeps cycling
    sim.cars.push(car(359, 310, Direction::Right, LaneClass::C));
    sim.cars.push(car(360, 105, Direction::Top, LaneClass::A));
    sim.cars.push(car(410, 510, Direction::Down, LaneClass::A));
    sim.lights = TrafficLights {
        lights_top: false,
        lights_down: false,
        lights_left: false,
        lights_right: true,
        current_direction: Direction::Right,
        state: true,
        time: 0,
    };
    // green holds while the Right vehicle is active; it turns this tick
    sim.tick(10);
    assert!(sim.cars[0].turned);
    // next update: Right inactive, so the green ends before its timer
    sim.tick(20);
    assert_eq!(greens(&sim.lights), 0);
    assert!(!sim.lights.state);
    assert_eq!(sim.lights.time, 20);
}
