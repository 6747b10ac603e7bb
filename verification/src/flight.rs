//! Aircraft, their headings, and the one-step movement rule on the wrapping map.

use vstd::arithmetic::div_mod::{
    lemma_mod_add_multiples_vanish, lemma_mod_multiples_basic, lemma_small_mod,
};
use vstd::prelude::*;

verus! {

/// Number of columns of the map.
pub const MAP_WIDTH: i32 = 20;

/// Number of rows of the map.
pub const MAP_HEIGHT: i32 = 10;

/// One of the eight compass headings. North is towards row 0, east towards
/// higher columns.
#[derive(Clone, Copy, Debug, PartialEq, Eq, Structural)]
pub enum Direction {
    N,
    NE,
    E,
    SE,
    S,
    SW,
    W,
    NW,
}

impl Direction {
    /// Displacement along the x axis of one step on this heading.
    pub open spec fn dx(self) -> int {
        match self {
            Direction::NE | Direction::E | Direction::SE => 1,
            Direction::SW | Direction::W | Direction::NW => -1,
            Direction::N | Direction::S => 0,
        }
    }

    /// Displacement along the y axis of one step on this heading.
    pub open spec fn dy(self) -> int {
        match self {
            Direction::SE | Direction::S | Direction::SW => 1,
            Direction::NW | Direction::N | Direction::NE => -1,
            Direction::E | Direction::W => 0,
        }
    }

    /// Displacement along the x axis of one step on this heading.
    pub fn delta_x(&self) -> (d: i32)
        ensures
            d == self.dx(),
    {
        match self {
            Direction::NE | Direction::E | Direction::SE => 1,
            Direction::SW | Direction::W | Direction::NW => -1,
            Direction::N | Direction::S => 0,
        }
    }

    /// Displacement along the y axis of one step on this heading.
    pub fn delta_y(&self) -> (d: i32)
        ensures
            d == self.dy(),
    {
        match self {
            Direction::SE | Direction::S | Direction::SW => 1,
            Direction::NW | Direction::N | Direction::NE => -1,
            Direction::E | Direction::W => 0,
        }
    }
}

/// The coordinate reached from `coordinate` by moving `delta` along an axis
/// of length `dimension` whose two ends are joined.
pub open spec fn wrapped(coordinate: int, delta: int, dimension: int) -> int {
    (coordinate + delta + dimension) % dimension
}

/// Wrapping a move of at most one unit needs no division: the result is the
/// far end when the move leaves the axis at 0, 0 when it leaves at the far
/// end, and the plain sum otherwise.
pub proof fn lemma_wrapped_cases(coordinate: int, delta: int, dimension: int)
    requires
        0 <= coordinate < dimension,
        -1 <= delta <= 1,
    ensures
        coordinate + delta < 0 ==> wrapped(coordinate, delta, dimension) == dimension - 1,
        coordinate + delta >= dimension ==> wrapped(coordinate, delta, dimension) == 0,
        0 <= coordinate + delta < dimension ==> wrapped(coordinate, delta, dimension)
            == coordinate + delta,
        0 <= wrapped(coordinate, delta, dimension) < dimension,
{
    let moved = coordinate + delta;
    if moved < 0 {
        assert(moved + dimension == dimension - 1);
        lemma_small_mod((dimension - 1) as nat, dimension as nat);
    } else if moved >= dimension {
        assert(moved + dimension == 2 * dimension);
        lemma_mod_multiples_basic(2, dimension);
    } else {
        lemma_mod_add_multiples_vanish(moved, dimension);
        lemma_small_mod(moved as nat, dimension as nat);
    }
}

/// Moves a coordinate by at most one unit along an axis that wraps around.
pub fn wrap(coordinate: i32, delta: i32, dimension: i32) -> (r: i32)
    requires
        0 <= coordinate < dimension,
        -1 <= delta <= 1,
    ensures
        r == wrapped(coordinate as int, delta as int, dimension as int),
        0 <= r < dimension,
{
    let moved: i32 = coordinate + delta;
    proof {
        lemma_wrapped_cases(coordinate as int, delta as int, dimension as int);
    }
    if moved < 0 {
        dimension - 1
    } else if moved >= dimension {
        0
    } else {
        moved
    }
}

/// An aircraft on the map: its call sign, the cell it occupies and the
/// heading it keeps for as long as it flies.
#[derive(Debug)]
pub struct Flight {
    pub id: String,
    pub x: i32,
    pub y: i32,
    pub direction: Direction,
}

impl Clone for Flight {
    fn clone(&self) -> (copy: Self)
        ensures
            copy == *self,
    {
        Flight { id: self.id.clone(), x: self.x, y: self.y, direction: self.direction }
    }
}

impl Flight {
    /// The aircraft is on the map.
    pub open spec fn in_bounds(self) -> bool {
        0 <= self.x < MAP_WIDTH && 0 <= self.y < MAP_HEIGHT
    }

    /// Tells whether the aircraft is on the map.
    pub fn on_map(&self) -> (inside: bool)
        ensures
            inside == self.in_bounds(),
    {
        0 <= self.x && self.x < MAP_WIDTH && 0 <= self.y && self.y < MAP_HEIGHT
    }

    /// The aircraft after one step on its heading, leaving the map on one
    /// side and entering it again on the opposite one.
    pub open spec fn stepped(self) -> Flight {
        Flight {
            id: self.id,
            x: wrapped(self.x as int, self.direction.dx(), MAP_WIDTH as int) as i32,
            y: wrapped(self.y as int, self.direction.dy(), MAP_HEIGHT as int) as i32,
            direction: self.direction,
        }
    }

    /// Moves the aircraft one step on its heading.
    pub fn step(self) -> (next: Flight)
        requires
            self.in_bounds(),
        ensures
            next == self.stepped(),
            next.in_bounds(),
    {
        let x: i32 = wrap(self.x, self.direction.delta_x(), MAP_WIDTH);
        let y: i32 = wrap(self.y, self.direction.delta_y(), MAP_HEIGHT);
        Flight { id: self.id, x, y, direction: self.direction }
    }
}

/// One step keeps an aircraft on the map, keeps its call sign and heading,
/// and moves it along each axis by exactly the heading's displacement, counted
/// around the joined ends of the axis: the coordinate is unchanged on an axis
/// that the heading does not touch, and otherwise it is the neighbouring one,
/// or the opposite edge where the neighbour would lie off the map.
pub proof fn lemma_step_moves_one_unit(flight: Flight)
    requires
        flight.in_bounds(),
    ensures
        flight.stepped().in_bounds(),
        flight.stepped().id == flight.id,
        flight.stepped().direction == flight.direction,
        flight.direction.dx() == 0 ==> flight.stepped().x == flight.x,
        flight.direction.dy() == 0 ==> flight.stepped().y == flight.y,
        0 <= flight.x + flight.direction.dx() < MAP_WIDTH ==> flight.stepped().x == flight.x
            + flight.direction.dx(),
        0 <= flight.y + flight.direction.dy() < MAP_HEIGHT ==> flight.stepped().y == flight.y
            + flight.direction.dy(),
        (flight.stepped().x - flight.x - flight.direction.dx()) % (MAP_WIDTH as int) == 0,
        (flight.stepped().y - flight.y - flight.direction.dy()) % (MAP_HEIGHT as int) == 0,
{
    let w = MAP_WIDTH as int;
    let h = MAP_HEIGHT as int;
    lemma_wrapped_cases(flight.x as int, flight.direction.dx(), w);
    lemma_wrapped_cases(flight.y as int, flight.direction.dy(), h);
    let off_x = flight.stepped().x - flight.x - flight.direction.dx();
    let off_y = flight.stepped().y - flight.y - flight.direction.dy();
    assert(off_x == 0 || off_x == w || off_x == -w);
    assert(off_y == 0 || off_y == h || off_y == -h);
    lemma_mod_multiples_basic(off_x / w, w);
    lemma_mod_multiples_basic(off_y / h, h);
    assert(off_x == (off_x / w) * w);
    assert(off_y == (off_y / h) * h);
}

/// At the edges of the map a step wraps around: an aircraft in column 0 on a
/// westward heading arrives in the last column, one in the last column on an
/// eastward heading arrives in column 0, and likewise for rows with northward
/// and southward headings.
pub proof fn lemma_step_wraps_at_edges(flight: Flight)
    requires
        flight.in_bounds(),
    ensures
        flight.x == 0 && flight.direction.dx() == -1 ==> flight.stepped().x == MAP_WIDTH - 1,
        flight.x == MAP_WIDTH - 1 && flight.direction.dx() == 1 ==> flight.stepped().x == 0,
        flight.y == 0 && flight.direction.dy() == -1 ==> flight.stepped().y == MAP_HEIGHT - 1,
        flight.y == MAP_HEIGHT - 1 && flight.direction.dy() == 1 ==> flight.stepped().y == 0,
{
    lemma_wrapped_cases(flight.x as int, flight.direction.dx(), MAP_WIDTH as int);
    lemma_wrapped_cases(flight.y as int, flight.direction.dy(), MAP_HEIGHT as int);
}

/// Every aircraft of the collection is on the map.
pub open spec fn all_in_bounds(flights: Seq<Flight>) -> bool {
    forall|i: int| 0 <= i < flights.len() ==> (#[trigger] flights[i]).in_bounds()
}

/// Tells whether every aircraft of the collection is on the map.
pub fn all_on_map(data_set: &[Flight]) -> (inside: bool)
    ensures
        inside == all_in_bounds(data_set@),
{
    let mut i: usize = 0;
    while i < data_set.len()
        invariant
            i <= data_set@.len(),
            forall|j: int| 0 <= j < i ==> (#[trigger] data_set@[j]).in_bounds(),
        decreases data_set@.len() - i,
    {
        if !data_set[i].on_map() {
            return false;
        }
        i += 1;
    }
    true
}

/// The collection after every aircraft has taken one step.
pub open spec fn all_stepped(flights: Seq<Flight>) -> Seq<Flight> {
    Seq::new(flights.len(), |i: int| flights[i].stepped())
}

/// Moves every aircraft of the collection one step on its heading.
pub fn move_aircrafts(data_set: &mut [Flight])
    requires
        all_in_bounds(old(data_set)@),
    ensures
        final(data_set)@ == all_stepped(old(data_set)@),
        all_in_bounds(final(data_set)@),
{
    let n: usize = data_set.len();
    let mut i: usize = 0;
    while i < n
        invariant
            i <= n,
            n == data_set@.len(),
            n == old(data_set)@.len(),
            forall|j: int| 0 <= j < i ==> data_set@[j] == old(data_set)@[j].stepped(),
            forall|j: int| i <= j < n ==> data_set@[j] == old(data_set)@[j],
            all_in_bounds(old(data_set)@),
        decreases n - i,
    {
        let dx: i32 = data_set[i].direction.delta_x();
        let dy: i32 = data_set[i].direction.delta_y();
        let x: i32 = wrap(data_set[i].x, dx, MAP_WIDTH);
        let y: i32 = wrap(data_set[i].y, dy, MAP_HEIGHT);
        data_set[i].x = x;
        data_set[i].y = y;
        i += 1;
    }
    assert(data_set@ =~= all_stepped(old(data_set)@));
}

} // verus!
