use air_traffic::flight::{Direction, Flight};
use air_traffic::simulation::{Simulation, QUIET_TICKS};

fn start(traffic: Vec<Flight>) -> Simulation {
    Simulation::new(traffic).expect("every aircraft is on the map")
}

fn flight(id: &str, x: i32, y: i32, direction: Direction) -> Flight {
    Flight { id: id.to_string(), x, y, direction }
}

fn positions(traffic: &[Flight]) -> Vec<(i32, i32)> {
    traffic.iter().map(|f| (f.x, f.y)).collect()
}

#[test]
fn movement_comes_every_fourth_tick() {
    assert_eq!(QUIET_TICKS, 3);
    let mut sim = start(vec![flight("AB123", 0, 5, Direction::E)]);
    assert_eq!(sim.skip_counter(), 0);
    for quiet in 1..=3 {
        sim.tick(false);
        assert_eq!(sim.skip_counter(), quiet);
        assert_eq!(positions(&sim.snapshot()), vec![(0, 5)]);
    }
    sim.tick(false);
    assert_eq!(sim.skip_counter(), 0);
    assert_eq!(positions(&sim.snapshot()), vec![(1, 5)]);
}

#[test]
fn three_ticks_after_a_movement_change_no_position() {
    let mut sim = start(vec![
        flight("AB123", 0, 5, Direction::E),
        flight("CD45", 19, 0, Direction::NE),
    ]);
    for _ in 0..4 {
        sim.tick(false);
    }
    let moved = positions(&sim.snapshot());
    assert_eq!(moved, vec![(1, 5), (0, 9)]);
    for _ in 0..3 {
        sim.tick(true);
        assert_eq!(positions(&sim.snapshot()), moved);
    }
    sim.tick(false);
    assert_eq!(positions(&sim.snapshot()), vec![(2, 5), (1, 8)]);
}

#[test]
fn tick_publishes_only_on_request() {
    let mut sim = start(vec![flight("AB123", 0, 5, Direction::E)]);
    assert!(sim.tick(false).is_none());
    let copy = sim.tick(true).expect("a pending request is answered");
    assert_eq!(copy.len(), 1);
    assert_eq!(copy[0].id, "AB123");
    assert_eq!((copy[0].x, copy[0].y), (0, 5));
    assert_eq!(copy[0].direction, Direction::E);
}

#[test]
fn tick_publishes_the_picture_before_its_movement() {
    let mut sim = start(vec![flight("AB123", 0, 5, Direction::E)]);
    for _ in 0..3 {
        sim.tick(false);
    }
    let copy = sim.tick(true).expect("a pending request is answered");
    assert_eq!(positions(&copy), vec![(0, 5)]);
    assert_eq!(positions(&sim.snapshot()), vec![(1, 5)]);
}

#[test]
fn single_eastbound_aircraft_laps_the_map() {
    let mut sim = start(vec![flight("AB123", 0, 5, Direction::E)]);
    for _ in 0..4 {
        sim.tick(false);
    }
    assert_eq!(positions(&sim.snapshot()), vec![(1, 5)]);
    for _ in 0..19 * 4 {
        sim.tick(false);
    }
    assert_eq!(positions(&sim.snapshot()), vec![(0, 5)]);
}

#[test]
fn snapshot_is_a_copy_of_the_whole_picture() {
    let sim = start(vec![
        flight("AB123", 0, 5, Direction::E),
        flight("CD45", 7, 7, Direction::S),
        flight("EF6789", 19, 9, Direction::NW),
    ]);
    let copy = sim.snapshot();
    assert_eq!(copy.len(), 3);
    assert_eq!(copy[0].id, "AB123");
    assert_eq!(copy[1].id, "CD45");
    assert_eq!(copy[2].id, "EF6789");
    assert_eq!(positions(&copy), vec![(0, 5), (7, 7), (19, 9)]);
    assert_eq!(copy[2].direction, Direction::NW);
}

#[test]
fn simulation_of_no_aircraft_ticks() {
    let mut sim = start(Vec::new());
    for _ in 0..8 {
        let copy = sim.tick(true).expect("a pending request is answered");
        assert!(copy.is_empty());
    }
}

#[test]
fn no_simulation_of_aircraft_off_the_map() {
    assert!(Simulation::new(vec![flight("AB123", 20, 5, Direction::E)]).is_none());
    assert!(Simulation::new(vec![
        flight("AB123", 0, 5, Direction::E),
        flight("CD45", 0, -1, Direction::E),
    ])
    .is_none());
    assert!(Simulation::new(vec![flight("AB123", 19, 9, Direction::E)]).is_some());
    assert!(Simulation::new(Vec::new()).is_some());
}
