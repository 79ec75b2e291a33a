//! A verified model of traffic flow through a single four-way intersection.
//!
//! Vehicles spawn from the four compass approaches, travel in straight
//! lanes on a pixel grid, optionally turn once at fixed intersection
//! waypoints, obey a traffic-light cycle, and keep a safe following
//! distance. The controller grants right-of-way to one approach at a
//! time; at most one signal is ever green.

pub mod vehicle;
pub mod lights;
pub mod registry;
pub mod rng;
pub mod sim;

pub use vehicle::{Car, Direction, LaneClass};
pub use lights::{TrafficLights, traffic_lights, traffic_lights_sys};
pub use registry::{get_last_car_dir, push_car, prune, key_up, key_down, key_left, key_right,
    key_r, spawn_by_draw};
pub use sim::SimulationState;
