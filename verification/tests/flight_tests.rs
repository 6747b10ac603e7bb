use air_traffic::flight::{
    all_on_map, move_aircrafts, wrap, Direction, Flight, MAP_HEIGHT, MAP_WIDTH,
};

fn flight(id: &str, x: i32, y: i32, direction: Direction) -> Flight {
    Flight { id: id.to_string(), x, y, direction }
}

const HEADINGS: [Direction; 8] = [
    Direction::N,
    Direction::NE,
    Direction::E,
    Direction::SE,
    Direction::S,
    Direction::SW,
    Direction::W,
    Direction::NW,
];

#[test]
fn map_has_reference_size() {
    assert_eq!(MAP_WIDTH, 20);
    assert_eq!(MAP_HEIGHT, 10);
}

#[test]
fn wrap_follows_the_modular_formula() {
    assert_eq!(wrap(0, -1, 20), 19);
    assert_eq!(wrap(19, 1, 20), 0);
    assert_eq!(wrap(7, 1, 20), 8);
    assert_eq!(wrap(7, -1, 20), 6);
    assert_eq!(wrap(7, 0, 20), 7);
    assert_eq!(wrap(0, 1, 1), 0);
    assert_eq!(wrap(0, -1, 1), 0);
    for dimension in 1..30 {
        for coordinate in 0..dimension {
            for delta in -1..=1 {
                let expected = (coordinate + delta + dimension) % dimension;
                assert_eq!(wrap(coordinate, delta, dimension), expected);
            }
        }
    }
}

#[test]
fn headings_have_unit_displacements() {
    let expected = [(0, -1), (1, -1), (1, 0), (1, 1), (0, 1), (-1, 1), (-1, 0), (-1, -1)];
    for (heading, (dx, dy)) in HEADINGS.iter().zip(expected.iter()) {
        assert_eq!(heading.delta_x(), *dx);
        assert_eq!(heading.delta_y(), *dy);
    }
}

#[test]
fn step_moves_one_unit_on_each_axis_of_the_heading() {
    let expected = [(5, 4), (6, 4), (6, 5), (6, 6), (5, 6), (4, 6), (4, 5), (4, 4)];
    for (heading, (x, y)) in HEADINGS.iter().zip(expected.iter()) {
        let next = flight("AB123", 5, 5, *heading).step();
        assert_eq!((next.x, next.y), (*x, *y));
        assert_eq!(next.id, "AB123");
        assert_eq!(next.direction, *heading);
    }
}

#[test]
fn step_stays_on_the_map_from_every_cell() {
    for heading in HEADINGS.iter() {
        for x in 0..MAP_WIDTH {
            for y in 0..MAP_HEIGHT {
                let next = flight("CD45", x, y, *heading).step();
                assert!(next.on_map());
                assert_eq!(next.x, (x + heading.delta_x() + MAP_WIDTH) % MAP_WIDTH);
                assert_eq!(next.y, (y + heading.delta_y() + MAP_HEIGHT) % MAP_HEIGHT);
            }
        }
    }
}

#[test]
fn step_wraps_west_and_east() {
    assert_eq!(flight("AA10", 0, 3, Direction::W).step().x, MAP_WIDTH - 1);
    assert_eq!(flight("AA10", MAP_WIDTH - 1, 3, Direction::E).step().x, 0);
    assert_eq!(flight("AA10", 0, 3, Direction::W).step().y, 3);
}

#[test]
fn step_wraps_north_and_south() {
    assert_eq!(flight("AA10", 4, 0, Direction::N).step().y, MAP_HEIGHT - 1);
    assert_eq!(flight("AA10", 4, MAP_HEIGHT - 1, Direction::S).step().y, 0);
    assert_eq!(flight("AA10", 4, 0, Direction::N).step().x, 4);
}

#[test]
fn step_wraps_both_axes_in_a_corner() {
    let next = flight("AA10", 0, 0, Direction::NW).step();
    assert_eq!((next.x, next.y), (MAP_WIDTH - 1, MAP_HEIGHT - 1));
    let next = flight("AA10", MAP_WIDTH - 1, MAP_HEIGHT - 1, Direction::SE).step();
    assert_eq!((next.x, next.y), (0, 0));
    let next = flight("AA10", 0, MAP_HEIGHT - 1, Direction::SW).step();
    assert_eq!((next.x, next.y), (MAP_WIDTH - 1, 0));
    let next = flight("AA10", MAP_WIDTH - 1, 0, Direction::NE).step();
    assert_eq!((next.x, next.y), (0, MAP_HEIGHT - 1));
}

#[test]
fn move_aircrafts_steps_every_aircraft() {
    let mut data_set = vec![
        flight("AB123", 0, 5, Direction::E),
        flight("CD45", 0, 0, Direction::NW),
        flight("EF6789", 19, 9, Direction::S),
    ];
    move_aircrafts(&mut data_set);
    assert_eq!(data_set.len(), 3);
    assert_eq!((data_set[0].x, data_set[0].y), (1, 5));
    assert_eq!((data_set[1].x, data_set[1].y), (19, 9));
    assert_eq!((data_set[2].x, data_set[2].y), (19, 0));
    assert_eq!(data_set[0].id, "AB123");
    assert_eq!(data_set[1].id, "CD45");
    assert_eq!(data_set[2].id, "EF6789");
    assert_eq!(data_set[1].direction, Direction::NW);
}

#[test]
fn move_aircrafts_on_an_empty_map_does_nothing() {
    let mut data_set: Vec<Flight> = Vec::new();
    move_aircrafts(&mut data_set);
    assert!(data_set.is_empty());
}

#[test]
fn eastbound_aircraft_returns_after_a_full_lap() {
    let mut data_set = vec![flight("AB123", 0, 5, Direction::E)];
    move_aircrafts(&mut data_set);
    assert_eq!((data_set[0].x, data_set[0].y), (1, 5));
    for _ in 0..19 {
        move_aircrafts(&mut data_set);
    }
    assert_eq!((data_set[0].x, data_set[0].y), (0, 5));
}

#[test]
fn clone_copies_every_field() {
    let first = flight("GH77", 3, 4, Direction::SW);
    let copy = first.clone();
    assert_eq!(copy.id, "GH77");
    assert_eq!((copy.x, copy.y), (3, 4));
    assert_eq!(copy.direction, Direction::SW);
}

#[test]
fn on_map_tells_cells_of_the_map_from_others() {
    assert!(flight("AA10", 0, 0, Direction::N).on_map());
    assert!(flight("AA10", 19, 9, Direction::N).on_map());
    assert!(!flight("AA10", 20, 9, Direction::N).on_map());
    assert!(!flight("AA10", 19, 10, Direction::N).on_map());
    assert!(!flight("AA10", -1, 0, Direction::N).on_map());
    assert!(!flight("AA10", 0, -1, Direction::N).on_map());
}

#[test]
fn all_on_map_needs_every_aircraft_on_the_map() {
    assert!(all_on_map(&[]));
    assert!(all_on_map(&[flight("AA10", 1, 1, Direction::N), flight("BB20", 19, 9, Direction::S)]));
    assert!(!all_on_map(&[flight("AA10", 1, 1, Direction::N), flight("BB20", 20, 9, Direction::S)]));
}
