//! Where new entities appear: a random point of the viewport, pushed
//! outward so that it lies toward or past the visible edge.

use crate::fixed::Fixed;
use crate::frame::half;
use crate::frame::half_of;
use crate::frame::Viewport;
use crate::motion::Transform;
use crate::sample::sample_range;
use crate::sample::within;
use vstd::prelude::*;

verus! {

/// A coordinate drawn within the viewport, moved away from the centre by
/// the extent divided by `divisor`, to the side the draw fell on. A draw of
/// exactly zero stays where it is.
pub open spec fn pushed_outward(sample: Fixed, extent: Fixed, divisor: Fixed) -> Fixed {
    sample.plus(sample.signum().times(extent.divided_by(divisor)))
}

/// Whether a coordinate can be drawn at all along an extent: the range from
/// minus half the extent up to half the extent is not empty.
pub open spec fn samplable(extent: Fixed) -> bool {
    half(extent).negated()@ < half(extent)@
}

/// Whether `coordinate` is where some draw along `extent` ends up.
pub open spec fn placed_along(coordinate: Fixed, extent: Fixed, divisor: Fixed) -> bool {
    exists|sample: Fixed|
        #![trigger pushed_outward(sample, extent, divisor)]
        within(sample, half(extent).negated(), half(extent)) && coordinate == pushed_outward(
            sample,
            extent,
            divisor,
        )
}

/// Whether a transform is one that spawning can give: unturned, and each
/// coordinate where some draw along its extent ends up. Depth is not judged.
pub open spec fn placed_in(transform: Transform, viewport: Viewport, divisor: Fixed) -> bool {
    &&& placed_along(transform.x, viewport.width, divisor)
    &&& placed_along(transform.y, viewport.height, divisor)
    &&& transform.rotation@ == 0
}

pub fn push_outward(sample: Fixed, extent: Fixed, divisor: Fixed) -> (r: Fixed)
    requires
        divisor@ != 0,
    ensures
        r == pushed_outward(sample, extent, divisor),
{
    sample.plus(sample.signum().times(extent.divided_by(divisor)))
}

/// The transform of an entity whose draws along the two axes were
/// `sample_x` and `sample_y`, at depth `z`.
pub fn place(sample_x: Fixed, sample_y: Fixed, z: Fixed, viewport: &Viewport, divisor: Fixed) -> (r:
    Transform)
    requires
        divisor@ != 0,
    ensures
        r.x == pushed_outward(sample_x, viewport.width, divisor),
        r.y == pushed_outward(sample_y, viewport.height, divisor),
        r.z == z,
        r.rotation@ == 0,
{
    Transform {
        x: push_outward(sample_x, viewport.width, divisor),
        y: push_outward(sample_y, viewport.height, divisor),
        z,
        rotation: Fixed { raw: 0 },
    }
}

/// Draw a place for a new entity at depth `z`, or nothing when the viewport
/// is too small to draw from on either axis.
pub fn random_place(z: Fixed, viewport: &Viewport, divisor: Fixed) -> (r: Option<Transform>)
    requires
        divisor@ != 0,
    ensures
        r is Some <==> samplable(viewport.width) && samplable(viewport.height),
        r is Some ==> placed_in(r->0, *viewport, divisor) && (r->0).z == z,
{
    let half_width = half_of(viewport.width);
    let half_height = half_of(viewport.height);
    let sample_x = sample_range(half_width.negated(), half_width);
    let sample_y = sample_range(half_height.negated(), half_height);
    match (sample_x, sample_y) {
        (Some(x), Some(y)) => {
            let transform = place(x, y, z, viewport, divisor);
            assert(transform.x == pushed_outward(x, viewport.width, divisor));
            assert(transform.y == pushed_outward(y, viewport.height, divisor));
            Some(transform)
        },
        _ => None,
    }
}

} // verus!
