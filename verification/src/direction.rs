//! The two rotation senses and the rule that classifies one change event.

use vstd::prelude::*;

verus! {

/// The rotation sense decoded from one change event on the clock line.
#[derive(Clone, Copy, Debug, PartialEq, Eq, Structural)]
pub enum Direction {
    Left,
    Right,
}

/// The classification rule: at the instant the clock line changes, equal
/// levels on the clock and data lines mean a right turn, unequal levels a
/// left turn. The rule uses only the momentary relative phase of the two
/// lines, not a previous/current transition table.
pub open spec fn classified(clock_high: bool, data_high: bool) -> Direction {
    if clock_high == data_high {
        Direction::Right
    } else {
        Direction::Left
    }
}

/// Classifies one sampled pair of line levels into a direction.
pub fn classify(clock_high: bool, data_high: bool) -> (d: Direction)
    ensures
        d == classified(clock_high, data_high),
{
    if clock_high == data_high {
        Direction::Right
    } else {
        Direction::Left
    }
}

/// The text reported for one detected turn.
pub open spec fn label_of(d: Direction) -> Seq<char> {
    match d {
        Direction::Left => "Left"@,
        Direction::Right => "Right"@,
    }
}

/// The human-readable report for a direction, one line's worth of text.
pub fn label(d: Direction) -> (r: &'static str)
    ensures
        r@ == label_of(d),
{
    match d {
        Direction::Left => "Left",
        Direction::Right => "Right",
    }
}

/// Every call with equal levels classifies as `Right`, and every call with
/// unequal levels classifies as `Left`.
pub proof fn lemma_classification(clock_high: bool, data_high: bool)
    ensures
        clock_high == data_high ==> classified(clock_high, data_high) == Direction::Right,
        clock_high != data_high ==> classified(clock_high, data_high) == Direction::Left,
{
}

} // verus!
