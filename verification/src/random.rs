//! The one place where chance enters: where the pickups of a level lie.

use vstd::prelude::*;
use rand::rngs::ThreadRng;
use rand::Rng;
use crate::fixed::Vec3;

verus! {

#[verifier::external_type_specification]
#[verifier::external_body]
pub struct ExThreadRng(ThreadRng);

/// A box of space, each side a half-open range of coordinates.
#[derive(Clone, Copy, Debug, PartialEq, Eq, Structural)]
pub struct Region {
    pub x_min: i32,
    pub x_end: i32,
    pub y_min: i32,
    pub y_end: i32,
    pub z_min: i32,
    pub z_end: i32,
}

impl Region {
    /// The box holds at least one point.
    pub open spec fn inhabited(self) -> bool {
        self.x_min < self.x_end && self.y_min < self.y_end && self.z_min < self.z_end
    }

    /// The point lies in the box.
    pub open spec fn contains(self, p: Vec3) -> bool {
        &&& self.x_min <= p.x < self.x_end
        &&& self.y_min <= p.y < self.y_end
        &&& self.z_min <= p.z < self.z_end
    }
}

/// `rand::Rng::gen_range` on `low..high`, from the thread's generator.
/// Trusted: the call returns, and what it returns lies in the range, `low`
/// included and `high` not. Nothing is claimed of which number it is. The
/// call panics on an empty range, which `requires` leaves out.
#[verifier::external_body]
pub(crate) fn random_in(rng: &mut ThreadRng, low: i32, high: i32) -> (r: i32)
    requires
        low < high,
    ensures
        low <= r < high,
{
    rng.gen_range(low..high)
}

/// Some point of `region`.
pub(crate) fn random_point(rng: &mut ThreadRng, region: &Region) -> (p: Vec3)
    requires
        region.inhabited(),
    ensures
        region.contains(p),
{
    let x = random_in(rng, region.x_min, region.x_end);
    let y = random_in(rng, region.y_min, region.y_end);
    let z = random_in(rng, region.z_min, region.z_end);
    Vec3 { x, y, z }
}

} // verus!
