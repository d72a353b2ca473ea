//! Zooming the camera with the scroll wheel: each scroll event changes the
//! camera's scale by a fifth along each screen axis, and the scale is held
//! between one and two.

use vstd::prelude::*;

verus! {

/// Change of scale per scroll event, in thousandths.
pub const ZOOM_STEP: i32 = 200;

/// Smallest scale along a screen axis, in thousandths.
pub const MIN_SCALE: i32 = 1000;

/// Largest scale along a screen axis, in thousandths.
pub const MAX_SCALE: i32 = 2000;

/// The system that zooms the camera.
#[derive(Clone, Copy, Debug, Default)]
pub struct ZoomSystem;

/// Scale factors along the three axes, in thousandths.
#[derive(Clone, Copy, Debug, PartialEq, Eq, Structural)]
pub struct Scale {
    pub x: i32,
    pub y: i32,
    pub z: i32,
}

impl Scale {
    /// Both screen factors lie between the smallest and the largest scale.
    pub open spec fn in_range(self) -> bool {
        &&& MIN_SCALE <= self.x <= MAX_SCALE
        &&& MIN_SCALE <= self.y <= MAX_SCALE
    }
}

/// A factor held between the smallest and the largest scale.
pub open spec fn clamped(factor: int) -> int {
    if factor < MIN_SCALE {
        MIN_SCALE as int
    } else if factor > MAX_SCALE {
        MAX_SCALE as int
    } else {
        factor
    }
}

/// One screen factor after one scroll event: a step down when scrolling
/// forward (`zoom_level > 0`), a step up when scrolling back, then held
/// within the bounds; unchanged without a scroll.
pub open spec fn zoomed_factor(factor: int, zoom_level: int) -> int {
    if zoom_level > 0 {
        clamped(factor - ZOOM_STEP)
    } else if zoom_level < 0 {
        clamped(factor + ZOOM_STEP)
    } else {
        factor
    }
}

/// A scale after one scroll event: each screen axis on its own, depth never.
pub open spec fn zoomed(scale: Scale, zoom_level: int) -> Scale {
    Scale {
        x: zoomed_factor(scale.x as int, zoom_level) as i32,
        y: zoomed_factor(scale.y as int, zoom_level) as i32,
        z: scale.z,
    }
}

/// Applies one scroll event to one screen factor.
pub fn zoom_factor(factor: i32, zoom_level: i32) -> (next: i32)
    ensures
        next == zoomed_factor(factor as int, zoom_level as int),
        zoom_level != 0 ==> MIN_SCALE <= next <= MAX_SCALE,
        MIN_SCALE <= factor <= MAX_SCALE ==> MIN_SCALE <= next <= MAX_SCALE,
{
    if zoom_level > 0 {
        if factor < MIN_SCALE + ZOOM_STEP {
            MIN_SCALE
        } else if factor > MAX_SCALE + ZOOM_STEP {
            MAX_SCALE
        } else {
            factor - ZOOM_STEP
        }
    } else if zoom_level < 0 {
        if factor < MIN_SCALE - ZOOM_STEP {
            MIN_SCALE
        } else if factor > MAX_SCALE - ZOOM_STEP {
            MAX_SCALE
        } else {
            factor + ZOOM_STEP
        }
    } else {
        factor
    }
}

/// Applies one scroll event to a scale.
pub fn zoom(scale: Scale, zoom_level: i32) -> (next: Scale)
    ensures
        next == zoomed(scale, zoom_level as int),
        next.x == zoomed_factor(scale.x as int, zoom_level as int),
        next.y == zoomed_factor(scale.y as int, zoom_level as int),
        next.z == scale.z,
        scale.in_range() ==> next.in_range(),
        zoom_level != 0 ==> next.in_range(),
{
    Scale {
        x: zoom_factor(scale.x, zoom_level),
        y: zoom_factor(scale.y, zoom_level),
        z: scale.z,
    }
}

impl ZoomSystem {
    /// One frame of zooming: applies the scroll event to every camera's
    /// scale. A scale within the bounds stays within them.
    pub fn run(&mut self, zoom_level: i32, scales: &mut Vec<Scale>)
        ensures
            final(scales)@.len() == old(scales)@.len(),
            forall|i: int|
                0 <= i < old(scales)@.len() ==> #[trigger] final(scales)@[i] == zoomed(
                    old(scales)@[i],
                    zoom_level as int,
                ),
            forall|i: int|
                0 <= i < old(scales)@.len() && old(scales)@[i].in_range()
                    ==> (#[trigger] final(scales)@[i]).in_range(),
    {
        let ghost before = scales@;
        let mut i: usize = 0;
        while i < scales.len()
            invariant
                0 <= i <= scales.len(),
                scales@.len() == before.len(),
                forall|j: int| 0 <= j < i ==> scales@[j] == zoomed(before[j], zoom_level as int),
                forall|j: int| 0 <= j < i && before[j].in_range() ==> scales@[j].in_range(),
                forall|j: int| i <= j < before.len() ==> scales@[j] == before[j],
            decreases scales.len() - i,
        {
            let next = zoom(scales[i], zoom_level);
            scales[i] = next;
            i += 1;
        }
    }
}

/// Zooming never leaves the bounds: whatever the scroll, a scale within them
/// stays within them, and any scroll brings a scale from outside into them.
pub proof fn lemma_zoom_stays_in_range(scale: Scale, zoom_level: int)
    ensures
        scale.in_range() ==> zoomed(scale, zoom_level).in_range(),
        zoom_level != 0 ==> zoomed(scale, zoom_level).in_range(),
        zoomed(scale, zoom_level).z == scale.z,
{
}

/// Away from the bounds a scroll moves each screen factor by exactly one
/// step; at a bound, the factor stops there.
pub proof fn lemma_zoom_steps_then_stops(factor: int, zoom_level: int)
    requires
        MIN_SCALE <= factor <= MAX_SCALE,
    ensures
        zoom_level > 0 && factor >= MIN_SCALE + ZOOM_STEP ==> zoomed_factor(factor, zoom_level)
            == factor - ZOOM_STEP,
        zoom_level > 0 && factor < MIN_SCALE + ZOOM_STEP ==> zoomed_factor(factor, zoom_level)
            == MIN_SCALE,
        zoom_level < 0 && factor <= MAX_SCALE - ZOOM_STEP ==> zoomed_factor(factor, zoom_level)
            == factor + ZOOM_STEP,
        zoom_level < 0 && factor > MAX_SCALE - ZOOM_STEP ==> zoomed_factor(factor, zoom_level)
            == MAX_SCALE,
{
}

} // verus!
