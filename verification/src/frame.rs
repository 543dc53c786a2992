//! What the simulation is told each tick: elapsed time and viewport size.

use crate::fixed::Fixed;
use vstd::prelude::*;

verus! {

/// Time elapsed since the previous tick, in whole microseconds.
#[derive(Clone, Copy, Debug)]
pub struct Time {
    pub delta_micros: u32,
}

impl Time {
    pub fn new(delta_micros: u32) -> (r: Time)
        ensures
            r.delta_micros == delta_micros,
    {
        Time { delta_micros }
    }

    /// The elapsed time in seconds.
    pub open spec fn spec_delta_seconds(&self) -> Fixed {
        Fixed { raw: self.delta_micros as i64 }
    }

    #[verifier::when_used_as_spec(spec_delta_seconds)]
    pub fn delta_seconds(&self) -> (r: Fixed)
        ensures
            r == self.spec_delta_seconds(),
    {
        Fixed { raw: self.delta_micros as i64 }
    }
}

/// Size of the visible area, centred on the origin, in world units.
#[derive(Clone, Copy, Debug)]
pub struct Viewport {
    pub width: Fixed,
    pub height: Fixed,
}

/// Half of a viewport extent: how far the visible edge is from the centre.
pub open spec fn half(extent: Fixed) -> Fixed {
    extent.divided_by(Fixed { raw: 2_000_000 })
}

/// Whether a coordinate lies farther than `limit` from the centre, on
/// either side.
pub open spec fn beyond(position: Fixed, limit: Fixed) -> bool {
    position@ > limit@ || position@ < limit.negated()@
}

/// Whether a point has strayed: it is farther from the centre than a full
/// viewport extent on either axis, twice as far out as the visible edge.
pub open spec fn strays(viewport: Viewport, x: Fixed, y: Fixed) -> bool {
    beyond(x, viewport.width) || beyond(y, viewport.height)
}

pub fn half_of(extent: Fixed) -> (r: Fixed)
    ensures
        r == half(extent),
{
    extent.divided_by(Fixed { raw: 2_000_000 })
}

pub fn is_beyond(position: Fixed, limit: Fixed) -> (r: bool)
    ensures
        r == beyond(position, limit),
{
    position.raw > limit.raw || position.raw < limit.negated().raw
}

pub fn has_strayed(viewport: &Viewport, x: Fixed, y: Fixed) -> (r: bool)
    ensures
        r == strays(*viewport, x, y),
{
    is_beyond(x, viewport.width) || is_beyond(y, viewport.height)
}

} // verus!
