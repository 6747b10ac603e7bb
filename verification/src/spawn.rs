//! Populating the map: call signs, random positions and headings.

use crate::decimal::{push_decimal, two_digit_decimal};
use crate::flight::{all_in_bounds, Direction, Flight, MAP_HEIGHT, MAP_WIDTH};
use rand::Rng;
use vstd::prelude::*;

verus! {

/// Fewest aircraft that a fresh map starts with.
pub const MIN_NUM_AIRCRAFTS: i32 = 10;

/// Most aircraft that a fresh map starts with.
pub const MAX_NUM_AIRCRAFTS: i32 = 10;

/// Draws an integer with `rand::Rng::gen_range` on the half-open range
/// `low..high`, from the generator that `rand::thread_rng` keeps for the
/// calling thread. The draw lies in the range; which value it is cannot be
/// known. An empty range makes `gen_range` panic and is excluded.
#[verifier::external_body]
fn random_in_range(low: i32, high: i32) -> (drawn: i32)
    requires
        low < high,
    ensures
        low <= drawn < high,
{
    rand::thread_rng().gen_range(low..high)
}

impl Direction {
    /// The heading with the given number, counted clockwise from north; a
    /// number that names no heading stands for north.
    pub open spec fn of_index(index: int) -> Direction {
        if index == 1 {
            Direction::NE
        } else if index == 2 {
            Direction::E
        } else if index == 3 {
            Direction::SE
        } else if index == 4 {
            Direction::S
        } else if index == 5 {
            Direction::SW
        } else if index == 6 {
            Direction::W
        } else if index == 7 {
            Direction::NW
        } else {
            Direction::N
        }
    }

    /// The heading with the given number, counted clockwise from north.
    pub fn from_index(index: i32) -> (heading: Direction)
        ensures
            heading == Direction::of_index(index as int),
    {
        match index {
            0 => Direction::N,
            1 => Direction::NE,
            2 => Direction::E,
            3 => Direction::SE,
            4 => Direction::S,
            5 => Direction::SW,
            6 => Direction::W,
            7 => Direction::NW,
            _ => Direction::N,
        }
    }
}

/// The call sign made of two letters and a number: the letters, then the
/// number in decimal notation with at least two digits.
pub open spec fn call_sign(letter1: u8, letter2: u8, number: u32) -> Seq<char> {
    seq![letter1 as char, letter2 as char] + two_digit_decimal(number as nat)
}

/// Builds the call sign of two letters, given by their codes, and a number.
pub fn make_call_sign(letter1: u8, letter2: u8, number: u32) -> (id: String)
    ensures
        id@ == call_sign(letter1, letter2, number),
{
    let mut id = String::new();
    id.push(letter1 as char);
    id.push(letter2 as char);
    if number < 10 {
        id.push('0');
    }
    push_decimal(&mut id, number as u64);
    assert(id@ =~= call_sign(letter1, letter2, number));
    id
}

/// The aircraft that the given draws describe: the call sign of the two
/// letters and the number, the cell, and the heading with the given number.
pub fn new_flight(letter1: u8, letter2: u8, number: u32, x: i32, y: i32, heading: i32) -> (flight:
    Flight)
    ensures
        flight.id@ == call_sign(letter1, letter2, number),
        flight.x == x,
        flight.y == y,
        flight.direction == Direction::of_index(heading as int),
{
    Flight {
        id: make_call_sign(letter1, letter2, number),
        x,
        y,
        direction: Direction::from_index(heading),
    }
}

/// What holds of every aircraft that enters the map: it lies on the map, and
/// its call sign is made of two capital letters before `Z` and a number from
/// 10 up to 9998.
pub open spec fn is_fresh_flight(flight: Flight) -> bool {
    &&& flight.in_bounds()
    &&& exists|letter1: u8, letter2: u8, number: u32|
        {
            &&& 65 <= letter1 < 90
            &&& 65 <= letter2 < 90
            &&& 10 <= number < 9999
            &&& flight.id@ == #[trigger] call_sign(letter1, letter2, number)
        }
}

/// Appends one aircraft with a random call sign, a random cell of the map
/// and a random heading. Call signs already in use are not looked at.
pub fn add_new_flight(data_set: &mut Vec<Flight>)
    ensures
        final(data_set)@.len() == old(data_set)@.len() + 1,
        final(data_set)@.drop_last() == old(data_set)@,
        is_fresh_flight(final(data_set)@.last()),
{
    let letter1: u8 = random_in_range(65, 90) as u8;
    let letter2: u8 = random_in_range(65, 90) as u8;
    let number: u32 = random_in_range(10, 9999) as u32;
    let new_x: i32 = random_in_range(0, MAP_WIDTH);
    let new_y: i32 = random_in_range(0, MAP_HEIGHT);
    let dir: i32 = random_in_range(0, 8);
    let flight = new_flight(letter1, letter2, number, new_x, new_y, dir);
    data_set.push(flight);
    assert(data_set@.drop_last() =~= old(data_set)@);
}

/// Fills the map with its starting traffic: a random number of new aircraft,
/// between the fewest and the most that a fresh map holds, appended to the
/// collection.
pub fn generate_map(data_set: &mut Vec<Flight>)
    ensures
        MIN_NUM_AIRCRAFTS <= final(data_set)@.len() - old(data_set)@.len() <= MAX_NUM_AIRCRAFTS,
        final(data_set)@.subrange(0, old(data_set)@.len() as int) == old(data_set)@,
        forall|i: int|
            old(data_set)@.len() <= i < final(data_set)@.len() ==> is_fresh_flight(
                #[trigger] final(data_set)@[i],
            ),
        all_in_bounds(old(data_set)@) ==> all_in_bounds(final(data_set)@),
{
    let num_aircrafts: i32 = random_in_range(MIN_NUM_AIRCRAFTS, MAX_NUM_AIRCRAFTS + 1);
    let mut added: i32 = 0;
    while added < num_aircrafts
        invariant
            0 <= added <= num_aircrafts,
            data_set@.len() == old(data_set)@.len() + added,
            data_set@.subrange(0, old(data_set)@.len() as int) == old(data_set)@,
            forall|i: int|
                old(data_set)@.len() <= i < data_set@.len() ==> is_fresh_flight(
                    #[trigger] data_set@[i],
                ),
        decreases num_aircrafts - added,
    {
        let ghost before = data_set@;
        add_new_flight(data_set);
        added += 1;
        proof {
            assert(before == data_set@.drop_last());
            assert(data_set@.subrange(0, old(data_set)@.len() as int) =~= before.subrange(
                0,
                old(data_set)@.len() as int,
            ));
            assert forall|i: int| old(data_set)@.len() <= i < data_set@.len() implies is_fresh_flight(
                #[trigger] data_set@[i],
            ) by {
                if i < before.len() {
                    assert(data_set@[i] == before[i]);
                }
            }
        }
    }
    proof {
        if all_in_bounds(old(data_set)@) {
            assert forall|i: int| 0 <= i < data_set@.len() implies (#[trigger] data_set@[i]).in_bounds() by {
                if i < old(data_set)@.len() {
                    assert(data_set@[i] == data_set@.subrange(0, old(data_set)@.len() as int)[i]);
                } else {
                    assert(is_fresh_flight(data_set@[i]));
                }
            }
        }
    }
}

} // verus!
