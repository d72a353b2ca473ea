//! Moving the backdrops with the movement axes, each at its own pace, and
//! turning the camera against the ship.
//!
//! Axis values, strides and headings are counted as for the ship.

use vstd::prelude::*;
use crate::components::Background;
use crate::player_control::{sign, sign_of, stride, stride_at, Stride};

verus! {

/// The system that moves the backdrop and turns the camera.
#[derive(Clone, Copy, Debug, Default)]
pub struct BackgroundMovementSystem;

/// The heading that a pair of axis signs asks of the camera, or `None` where
/// the pair asks for none: both axes at rest (or a value that is no sign).
pub open spec fn camera_heading(x: int, y: int) -> Option<int> {
    if x == 1 && y == 0 {
        Some(-6)
    } else if x == 1 && y == 1 {
        Some(1)
    } else if x == 0 && y == 1 {
        Some(0)
    } else if x == -1 && y == 1 {
        Some(7)
    } else if x == -1 && y == 0 {
        Some(6)
    } else if x == -1 && y == -1 {
        Some(5)
    } else if x == 0 && y == -1 {
        Some(4)
    } else if x == 1 && y == -1 {
        Some(3)
    } else {
        None
    }
}

/// A camera's heading after one frame: the one the axes ask for, or the prior
/// one where they ask for none.
pub open spec fn panned(prior: int, x: int, y: int) -> int {
    match camera_heading(x, y) {
        Some(h) => h,
        None => prior,
    }
}

/// Looks up the camera's heading for a pair of axis signs.
pub fn camera_heading_for(x_move: i32, y_move: i32) -> (heading: Option<i32>)
    ensures
        match heading {
            Some(h) => camera_heading(x_move as int, y_move as int) == Some(h as int),
            None => camera_heading(x_move as int, y_move as int) is None,
        },
{
    match (x_move, y_move) {
        (1, 0) => Some(-6),
        (1, 1) => Some(1),
        (0, 1) => Some(0),
        (-1, 1) => Some(7),
        (-1, 0) => Some(6),
        (-1, -1) => Some(5),
        (0, -1) => Some(4),
        (1, -1) => Some(3),
        (_, _) => None,
    }
}

impl BackgroundMovementSystem {
    /// One frame. The result holds each backdrop's stride at its own pace.
    /// Every camera's heading becomes the one that the signs of the axes ask
    /// for; with both axes at rest it stays as it is.
    pub fn run(
        &mut self,
        x_axis: i32,
        y_axis: i32,
        backgrounds: &Vec<Background>,
        headings: &mut Vec<i32>,
    ) -> (strides: Vec<Stride>)
        ensures
            final(headings)@.len() == old(headings)@.len(),
            forall|i: int|
                0 <= i < old(headings)@.len() ==> #[trigger] final(headings)@[i] == panned(
                    old(headings)@[i] as int,
                    sign(x_axis as int),
                    sign(y_axis as int),
                ),
            strides@.len() == backgrounds@.len(),
            forall|i: int|
                0 <= i < backgrounds@.len() ==> #[trigger] strides@[i] == stride(
                    x_axis as int,
                    y_axis as int,
                    backgrounds@[i].movement_speed as int,
                ),
    {
        let mut strides: Vec<Stride> = Vec::new();
        let mut k: usize = 0;
        while k < backgrounds.len()
            invariant
                0 <= k <= backgrounds.len(),
                strides@.len() == k,
                forall|j: int|
                    0 <= j < k ==> #[trigger] strides@[j] == stride(
                        x_axis as int,
                        y_axis as int,
                        backgrounds@[j].movement_speed as int,
                    ),
            decreases backgrounds.len() - k,
        {
            strides.push(stride_at(x_axis, y_axis, backgrounds[k].movement_speed));
            k += 1;
        }
        match camera_heading_for(sign_of(x_axis), sign_of(y_axis)) {
            Some(h) => {
                let ghost before = headings@;
                let mut i: usize = 0;
                while i < headings.len()
                    invariant
                        0 <= i <= headings.len(),
                        headings@.len() == before.len(),
                        forall|j: int| 0 <= j < i ==> headings@[j] == h,
                    decreases headings.len() - i,
                {
                    headings[i] = h;
                    i += 1;
                }
            },
            None => {},
        }
        strides
    }
}

/// With both axes at rest the camera keeps its heading; any push turns it.
pub proof fn lemma_rest_keeps_camera(prior: int, x_axis: int, y_axis: int)
    ensures
        panned(prior, sign(0), sign(0)) == prior,
        (x_axis != 0 || y_axis != 0) ==> camera_heading(sign(x_axis), sign(y_axis)) is Some,
{
}

/// The camera turns against the ship: for every pair of axes that asks for a
/// heading, the two headings add up to a whole number of full turns.
pub proof fn lemma_camera_counters_ship(x: int, y: int)
    requires
        camera_heading(x, y) is Some,
    ensures
        crate::player_control::ship_heading(x, y) is Some,
        (camera_heading(x, y)->0 + crate::player_control::ship_heading(x, y)->0) % 8 == 0,
{
}

} // verus!
