//! The traffic picture as text: one box per cell of the map, with an arrow
//! in every box that holds an aircraft.

use crate::flight::{Direction, Flight, MAP_HEIGHT, MAP_WIDTH};
use vstd::prelude::*;
use vstd::string::StringExecFns;

verus! {

impl Direction {
    /// The arrow that points along the heading, followed by a blank.
    pub open spec fn glyph(self) -> Seq<char> {
        match self {
            Direction::N => "\u{2191} "@,
            Direction::NE => "\u{2197} "@,
            Direction::E => "\u{2192} "@,
            Direction::SE => "\u{2198}\u{fe0e} "@,
            Direction::S => "\u{2193} "@,
            Direction::SW => "\u{2199} "@,
            Direction::W => "\u{2190} "@,
            Direction::NW => "\u{2196}\u{fe0e} "@,
        }
    }

    /// The heading as it is drawn on the map.
    pub fn to_string(&self) -> (text: String)
        ensures
            text@ == self.glyph(),
    {
        match self {
            Direction::N => String::from_str("\u{2191} "),
            Direction::NE => String::from_str("\u{2197} "),
            Direction::E => String::from_str("\u{2192} "),
            Direction::SE => String::from_str("\u{2198}\u{fe0e} "),
            Direction::S => String::from_str("\u{2193} "),
            Direction::SW => String::from_str("\u{2199} "),
            Direction::W => String::from_str("\u{2190} "),
            Direction::NW => String::from_str("\u{2196}\u{fe0e} "),
        }
    }
}

/// The first aircraft of the collection that occupies the cell, if any.
pub open spec fn first_at(flights: Seq<Flight>, x: int, y: int) -> Option<Flight>
    decreases flights.len(),
{
    if flights.len() == 0 {
        None
    } else if flights[0].x == x && flights[0].y == y {
        Some(flights[0])
    } else {
        first_at(flights.drop_first(), x, y)
    }
}

/// `unit` written `count` times in a row.
pub open spec fn repeated(unit: Seq<char>, count: int) -> Seq<char>
    decreases count,
{
    if count <= 0 {
        Seq::empty()
    } else {
        repeated(unit, count - 1) + unit
    }
}

/// The box of one cell: its left border, then the arrow of the first
/// aircraft in the cell, or two blanks where the cell is empty.
pub open spec fn cell_text(flights: Seq<Flight>, x: int, y: int) -> Seq<char> {
    "|"@ + match first_at(flights, x, y) {
        Some(flight) => flight.direction.glyph(),
        None => "  "@,
    }
}

/// The boxes of the first `count` cells of row `y`.
pub open spec fn cells_text(flights: Seq<Flight>, y: int, count: int) -> Seq<char>
    decreases count,
{
    if count <= 0 {
        Seq::empty()
    } else {
        cells_text(flights, y, count - 1) + cell_text(flights, count - 1, y)
    }
}

/// Row `y` of the map: the line above its boxes, then the boxes and the
/// right border.
pub open spec fn row_text(flights: Seq<Flight>, y: int) -> Seq<char> {
    " "@ + repeated("-- "@, MAP_WIDTH as int) + "\r\n"@ + cells_text(flights, y, MAP_WIDTH as int)
        + "|\r\n"@
}

/// The first `count` rows of the map.
pub open spec fn rows_text(flights: Seq<Flight>, count: int) -> Seq<char>
    decreases count,
{
    if count <= 0 {
        Seq::empty()
    } else {
        rows_text(flights, count - 1) + row_text(flights, count - 1)
    }
}

/// The whole map: its rows, then the line that closes the last of them.
pub open spec fn char_map(flights: Seq<Flight>) -> Seq<char> {
    rows_text(flights, MAP_HEIGHT as int) + repeated(" --"@, MAP_WIDTH as int) + "\r\n"@
}

/// Finds the first aircraft of the collection that occupies the cell.
pub fn find_at(data_set: &[Flight], x: i32, y: i32) -> (found: Option<&Flight>)
    ensures
        match found {
            Some(flight) => first_at(data_set@, x as int, y as int) == Some(*flight),
            None => first_at(data_set@, x as int, y as int).is_none(),
        },
{
    let mut i: usize = 0;
    assert(data_set@.subrange(0, data_set@.len() as int) =~= data_set@);
    while i < data_set.len()
        invariant
            i <= data_set@.len(),
            first_at(data_set@, x as int, y as int) == first_at(
                data_set@.subrange(i as int, data_set@.len() as int),
                x as int,
                y as int,
            ),
        decreases data_set@.len() - i,
    {
        let ghost rest = data_set@.subrange(i as int, data_set@.len() as int);
        assert(rest[0] == data_set@[i as int]);
        if data_set[i].x == x && data_set[i].y == y {
            return Some(&data_set[i]);
        }
        assert(rest.drop_first() =~= data_set@.subrange(i + 1, data_set@.len() as int));
        i += 1;
    }
    assert(data_set@.subrange(i as int, data_set@.len() as int).len() == 0);
    None
}

/// Appends `unit` to the text `count` times.
fn push_repeated(text: &mut String, unit: &str, count: i32)
    requires
        0 <= count,
    ensures
        final(text)@ == old(text)@ + repeated(unit@, count as int),
{
    let mut done: i32 = 0;
    while done < count
        invariant
            0 <= done <= count,
            text@ == old(text)@ + repeated(unit@, done as int),
        decreases count - done,
    {
        text.append(unit);
        done += 1;
        assert(text@ =~= old(text)@ + repeated(unit@, done as int));
    }
}

/// Draws the map as text, row by row.
pub fn draw_char_map(data_set: &[Flight]) -> (text: String)
    ensures
        text@ == char_map(data_set@),
{
    let mut text = String::new();
    let mut y: i32 = 0;
    while y < MAP_HEIGHT
        invariant
            0 <= y <= MAP_HEIGHT,
            text@ == rows_text(data_set@, y as int),
        decreases MAP_HEIGHT - y,
    {
        let ghost above = text@;
        text.append(" ");
        push_repeated(&mut text, "-- ", MAP_WIDTH);
        text.append("\r\n");
        let ghost open = text@;
        let mut x: i32 = 0;
        while x < MAP_WIDTH
            invariant
                0 <= x <= MAP_WIDTH,
                text@ == open + cells_text(data_set@, y as int, x as int),
            decreases MAP_WIDTH - x,
        {
            text.append("|");
            match find_at(data_set, x, y) {
                None => text.append("  "),
                Some(flight) => text.append(flight.direction.to_string().as_str()),
            }
            x += 1;
            assert(text@ =~= open + cells_text(data_set@, y as int, x as int));
        }
        text.append("|\r\n");
        y += 1;
        assert(text@ =~= above + row_text(data_set@, y - 1));
    }
    push_repeated(&mut text, " --", MAP_WIDTH);
    text.append("\r\n");
    assert(text@ =~= char_map(data_set@));
    text
}

} // verus!
