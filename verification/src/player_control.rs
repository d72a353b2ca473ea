//! Steering the ship: the movement axes push the ship along x and y at its
//! speed, and their signs snap its heading to one of eight compass
//! directions, however far the axes are pushed.
//!
//! An axis value is counted in thousandths, as a speed is, so that their
//! product, a stride, is counted in millionths. A heading counts eighths of a
//! full turn, so that one step is 45 degrees.

use vstd::prelude::*;

verus! {

/// What steering reads and writes of a ship: its speed in thousandths and its
/// heading.
#[derive(Clone, Copy, Debug, PartialEq, Eq, Structural)]
pub struct Helm {
    pub speed: i32,
    pub heading: i32,
}

/// How far an entity moves in one frame along x and along y, in millionths.
#[derive(Clone, Copy, Debug, PartialEq, Eq, Structural)]
pub struct Stride {
    pub dx: i64,
    pub dy: i64,
}

/// The sign of an axis value: 1 where it is pushed forward, -1 where it is
/// pushed back, 0 at rest.
pub open spec fn sign(axis: int) -> int {
    if axis > 0 {
        1
    } else if axis < 0 {
        -1
    } else {
        0
    }
}

/// The stride that a pair of axis values gives at `speed`: each axis value
/// times the speed. For values of 32 bits the products fit the fields.
pub open spec fn stride(x_axis: int, y_axis: int, speed: int) -> Stride {
    Stride { dx: (x_axis * speed) as i64, dy: (y_axis * speed) as i64 }
}

/// Takes the sign of an axis value.
pub fn sign_of(axis: i32) -> (s: i32)
    ensures
        s == sign(axis as int),
{
    if axis > 0 {
        1
    } else if axis < 0 {
        -1
    } else {
        0
    }
}

/// Scales a pair of axis values by a speed.
pub fn stride_at(x_axis: i32, y_axis: i32, speed: i32) -> (s: Stride)
    ensures
        s == stride(x_axis as int, y_axis as int, speed as int),
        s.dx == x_axis * speed,
        s.dy == y_axis * speed,
{
    assert(-0x4000_0000_0000_0000 <= x_axis * speed <= 0x4000_0000_0000_0000) by (nonlinear_arith)
        requires
            -0x8000_0000 <= x_axis <= 0x7fff_ffff,
            -0x8000_0000 <= speed <= 0x7fff_ffff,
    ;
    assert(-0x4000_0000_0000_0000 <= y_axis * speed <= 0x4000_0000_0000_0000) by (nonlinear_arith)
        requires
            -0x8000_0000 <= y_axis <= 0x7fff_ffff,
            -0x8000_0000 <= speed <= 0x7fff_ffff,
    ;
    Stride { dx: (x_axis as i64) * (speed as i64), dy: (y_axis as i64) * (speed as i64) }
}

/// The system that turns the ship by the movement axes.
#[derive(Clone, Copy, Debug, Default)]
pub struct PlayerControlSystem;

/// The heading that a pair of axis signs asks of the ship, or `None` where
/// the pair asks for none: both axes at rest (or a value that is no sign).
pub open spec fn ship_heading(x: int, y: int) -> Option<int> {
    if x == 1 && y == 0 {
        Some(-2)
    } else if x == 1 && y == 1 {
        Some(7)
    } else if x == 0 && y == 1 {
        Some(0)
    } else if x == -1 && y == 1 {
        Some(1)
    } else if x == -1 && y == 0 {
        Some(2)
    } else if x == -1 && y == -1 {
        Some(3)
    } else if x == 0 && y == -1 {
        Some(4)
    } else if x == 1 && y == -1 {
        Some(5)
    } else {
        None
    }
}

/// A heading after one frame of steering: the one the axes ask for, or the
/// prior one where they ask for none.
pub open spec fn steered(prior: int, x: int, y: int) -> int {
    match ship_heading(x, y) {
        Some(h) => h,
        None => prior,
    }
}

/// Looks up the heading for a pair of axis signs.
pub fn heading_for(x_move: i32, y_move: i32) -> (heading: Option<i32>)
    ensures
        match heading {
            Some(h) => ship_heading(x_move as int, y_move as int) == Some(h as int),
            None => ship_heading(x_move as int, y_move as int) is None,
        },
{
    match (x_move, y_move) {
        (1, 0) => Some(-2),
        (1, 1) => Some(7),
        (0, 1) => Some(0),
        (-1, 1) => Some(1),
        (-1, 0) => Some(2),
        (-1, -1) => Some(3),
        (0, -1) => Some(4),
        (1, -1) => Some(5),
        (_, _) => None,
    }
}

impl PlayerControlSystem {
    /// One frame of steering. The result holds each ship's stride. Every
    /// ship's heading becomes the one that the signs of the axes ask for;
    /// with both axes at rest it stays as it is.
    pub fn run(&mut self, x_axis: i32, y_axis: i32, ships: &mut Vec<Helm>) -> (strides: Vec<Stride>)
        ensures
            final(ships)@.len() == old(ships)@.len(),
            strides@.len() == old(ships)@.len(),
            forall|i: int|
                0 <= i < old(ships)@.len() ==> {
                    &&& (#[trigger] final(ships)@[i]).speed == old(ships)@[i].speed
                    &&& final(ships)@[i].heading == steered(
                        old(ships)@[i].heading as int,
                        sign(x_axis as int),
                        sign(y_axis as int),
                    )
                },
            forall|i: int|
                0 <= i < old(ships)@.len() ==> #[trigger] strides@[i] == stride(
                    x_axis as int,
                    y_axis as int,
                    old(ships)@[i].speed as int,
                ),
    {
        let ghost before = ships@;
        let asked = heading_for(sign_of(x_axis), sign_of(y_axis));
        let mut strides: Vec<Stride> = Vec::new();
        let mut i: usize = 0;
        while i < ships.len()
            invariant
                0 <= i <= ships.len(),
                ships@.len() == before.len(),
                strides@.len() == i,
                match asked {
                    Some(h) => ship_heading(sign(x_axis as int), sign(y_axis as int)) == Some(
                        h as int,
                    ),
                    None => ship_heading(sign(x_axis as int), sign(y_axis as int)) is None,
                },
                forall|j: int|
                    0 <= j < i ==> {
                        &&& (#[trigger] ships@[j]).speed == before[j].speed
                        &&& ships@[j].heading == steered(
                            before[j].heading as int,
                            sign(x_axis as int),
                            sign(y_axis as int),
                        )
                    },
                forall|j: int|
                    0 <= j < i ==> #[trigger] strides@[j] == stride(
                        x_axis as int,
                        y_axis as int,
                        before[j].speed as int,
                    ),
                forall|j: int| i <= j < before.len() ==> ships@[j] == before[j],
            decreases ships.len() - i,
        {
            let helm = ships[i];
            strides.push(stride_at(x_axis, y_axis, helm.speed));
            match asked {
                Some(h) => {
                    ships[i] = Helm { speed: helm.speed, heading: h };
                },
                None => {},
            }
            i += 1;
        }
        strides
    }
}

/// With both axes at rest steering changes no heading, however often it runs.
pub proof fn lemma_rest_keeps_heading(prior: int)
    ensures
        steered(prior, sign(0), sign(0)) == prior,
        steered(steered(prior, sign(0), sign(0)), sign(0), sign(0)) == prior,
{
}

/// Only the direction of the push counts: axes pushed the same way, however
/// far, ask for the same heading, and any push asks for one.
pub proof fn lemma_heading_follows_signs(x_axis: int, y_axis: int, x_other: int, y_other: int)
    requires
        sign(x_axis) == sign(x_other),
        sign(y_axis) == sign(y_other),
    ensures
        ship_heading(sign(x_axis), sign(y_axis)) == ship_heading(sign(x_other), sign(y_other)),
        (x_axis != 0 || y_axis != 0) ==> ship_heading(sign(x_axis), sign(y_axis)) is Some,
{
}

/// Steering forgets the prior heading wherever the axes ask for one, so a
/// second frame with the same axes changes nothing.
pub proof fn lemma_steering_is_idempotent(prior: int, x: int, y: int)
    ensures
        steered(steered(prior, x, y), x, y) == steered(prior, x, y),
{
}

/// The table answers the eight pairs of -1, 0 and 1 other than rest, and no
/// other pair; each of its headings lies within one full turn either way.
pub proof fn lemma_ship_headings_are_bounded(x: int, y: int)
    ensures
        match ship_heading(x, y) {
            Some(h) => -8 < h < 8 && -1 <= x <= 1 && -1 <= y <= 1 && !(x == 0 && y == 0),
            None => !(-1 <= x <= 1 && -1 <= y <= 1) || (x == 0 && y == 0),
        },
{
}

} // verus!

