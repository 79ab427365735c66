//! The normalization transform: translate the bounding-box center to the
//! origin, then scale uniformly by two over the longest extent, so that
//! the mesh fits the canonical cube from minus one to one and touches its
//! boundary on the longest axis.
//!
//! The transform is carried exactly: the doubled center `min + max` and
//! the longest extent.  The image of a point `p` on an axis is the
//! rational `(2 p - min - max) / longest`, delivered in fixed-point with
//! truncation toward zero.  For a box of zero extent on every axis the
//! scale is undefined; such a transform cannot be applied.

use crate::fixed::{div_trunc, lemma_div_trunc_bound, lemma_mul_scale_bound, LIMIT, SCALE};
use crate::geom::{BoundingBox, Vec3};
use crate::mesh::Mesh;
use vstd::arithmetic::div_mod::lemma_div_multiples_vanish;
use vstd::prelude::*;

verus! {

/// The translate-then-scale transform of a bounding box, held exactly:
/// `center2` is the doubled center `min + max`, `longest` the largest
/// extent.
#[derive(Clone, Copy, Debug, PartialEq, Eq, Structural)]
pub struct Transform {
    pub center2: Vec3,
    pub longest: i64,
}

impl Transform {
    /// A transform as [`Mesh::scale_and_center`] returns it: the doubled
    /// center within twice the coordinate range, the longest extent
    /// nonnegative and within four times the range.
    pub open spec fn wf(self) -> bool {
        &&& -(2 * LIMIT) <= self.center2.x <= 2 * LIMIT
        &&& -(2 * LIMIT) <= self.center2.y <= 2 * LIMIT
        &&& -(2 * LIMIT) <= self.center2.z <= 2 * LIMIT
        &&& 0 <= self.longest <= 2 * LIMIT
    }
}

/// The transform a bounding box induces.
pub open spec fn transform_spec(bb: BoundingBox) -> Transform {
    Transform {
        center2: Vec3 {
            x: (bb.min.x + bb.max.x) as i64,
            y: (bb.min.y + bb.max.y) as i64,
            z: (bb.min.z + bb.max.z) as i64,
        },
        longest: bb.longest_spec() as i64,
    }
}

/// The fixed-point image of one coordinate: `(2 p - c2) * SCALE / longest`,
/// truncated toward zero.
pub open spec fn apply_axis_spec(p: int, c2: int, longest: int) -> int {
    div_trunc((2 * p - c2) * SCALE, longest)
}

/// The fixed-point image of a point under the transform.  A coordinate of
/// `SCALE` stands for one: the boundary of the canonical cube.
pub open spec fn apply_spec(t: Transform, p: Vec3) -> Vec3
    recommends
        t.longest > 0,
{
    Vec3 {
        x: apply_axis_spec(p.x as int, t.center2.x as int, t.longest as int) as i64,
        y: apply_axis_spec(p.y as int, t.center2.y as int, t.longest as int) as i64,
        z: apply_axis_spec(p.z as int, t.center2.z as int, t.longest as int) as i64,
    }
}

impl Mesh {
    /// The transform that moves this mesh's bounding-box center to the
    /// origin and scales it by two over the longest extent.  For a
    /// single-point mesh the longest extent is zero and the transform
    /// cannot be applied.
    pub fn scale_and_center(&self) -> (t: Transform)
        requires
            self@.bounds.wf(),
        ensures
            t == transform_spec(self@.bounds),
            t.wf(),
    {
        let l = self.bounds.length();
        let w = self.bounds.width();
        let h = self.bounds.height();
        let longest = if l >= w && l >= h {
            l
        } else if w >= h {
            w
        } else {
            h
        };
        Transform {
            center2: Vec3 {
                x: self.bounds.min.x + self.bounds.max.x,
                y: self.bounds.min.y + self.bounds.max.y,
                z: self.bounds.min.z + self.bounds.max.z,
            },
            longest,
        }
    }
}

impl Transform {
    /// Apply the transform to a point, in fixed-point with truncation
    /// toward zero.
    pub fn apply(&self, p: &Vec3) -> (q: Vec3)
        requires
            self.wf(),
            self.longest > 0,
            crate::geom::vec3_in_range(*p),
        ensures
            q == apply_spec(*self, *p),
    {
        Vec3 {
            x: apply_axis(p.x, self.center2.x, self.longest),
            y: apply_axis(p.y, self.center2.y, self.longest),
            z: apply_axis(p.z, self.center2.z, self.longest),
        }
    }
}

/// One coordinate of the image: `(2 p - c2) * SCALE / longest`.
fn apply_axis(p: i64, c2: i64, longest: i64) -> (q: i64)
    requires
        -LIMIT <= p <= LIMIT,
        -(2 * LIMIT) <= c2 <= 2 * LIMIT,
        0 < longest <= 2 * LIMIT,
    ensures
        q == apply_axis_spec(p as int, c2 as int, longest as int),
{
    let num: i64 = (2 * p - c2) * SCALE;
    match num.checked_div(longest) {
        Some(q) => q,
        None => {
            proof {
                assert(false);
            }
            0
        },
    }
}

/// The transform sends the box's center to the origin: every point whose
/// doubled coordinates equal `min + max` — the exact center, whenever it
/// lies on the fixed-point grid — has the zero vector as its image.
pub proof fn lemma_transform_centers(bb: BoundingBox, p: Vec3)
    requires
        bb.wf(),
        2 * p.x == bb.min.x + bb.max.x,
        2 * p.y == bb.min.y + bb.max.y,
        2 * p.z == bb.min.z + bb.max.z,
    ensures
        apply_spec(transform_spec(bb), p) == Vec3::zero_spec(),
{
    let t = transform_spec(bb);
    assert(2 * p.x - t.center2.x == 0);
    assert(2 * p.y - t.center2.y == 0);
    assert(2 * p.z - t.center2.z == 0);
}

/// The transform maps the longest extent to length two: on every axis
/// whose extent is the longest, the box's two corners land exactly on the
/// cube boundary, at `-SCALE` and `SCALE` — fixed-point minus one and one.
pub proof fn lemma_transform_longest_extent(bb: BoundingBox)
    requires
        bb.wf(),
        bb.longest_spec() > 0,
    ensures
        bb.max.x - bb.min.x == bb.longest_spec() ==> apply_spec(transform_spec(bb), bb.max).x
            == SCALE && apply_spec(transform_spec(bb), bb.min).x == -SCALE,
        bb.max.y - bb.min.y == bb.longest_spec() ==> apply_spec(transform_spec(bb), bb.max).y
            == SCALE && apply_spec(transform_spec(bb), bb.min).y == -SCALE,
        bb.max.z - bb.min.z == bb.longest_spec() ==> apply_spec(transform_spec(bb), bb.max).z
            == SCALE && apply_spec(transform_spec(bb), bb.min).z == -SCALE,
{
    let l = bb.longest_spec();
    lemma_div_multiples_vanish(SCALE as int, l);
    assert((l * SCALE) / l == SCALE);
    if bb.max.x - bb.min.x == l {
        assert(2 * bb.max.x - (bb.min.x + bb.max.x) == l);
        assert(2 * bb.min.x - (bb.min.x + bb.max.x) == -l);
        assert(div_trunc(l * SCALE, l) == SCALE);
        assert((-l) * SCALE == -(l * SCALE));
        assert(div_trunc(-(l * SCALE), l) == -SCALE);
    }
    if bb.max.y - bb.min.y == l {
        assert(2 * bb.max.y - (bb.min.y + bb.max.y) == l);
        assert(2 * bb.min.y - (bb.min.y + bb.max.y) == -l);
        assert(div_trunc(l * SCALE, l) == SCALE);
        assert((-l) * SCALE == -(l * SCALE));
        assert(div_trunc(-(l * SCALE), l) == -SCALE);
    }
    if bb.max.z - bb.min.z == l {
        assert(2 * bb.max.z - (bb.min.z + bb.max.z) == l);
        assert(2 * bb.min.z - (bb.min.z + bb.max.z) == -l);
        assert(div_trunc(l * SCALE, l) == SCALE);
        assert((-l) * SCALE == -(l * SCALE));
        assert(div_trunc(-(l * SCALE), l) == -SCALE);
    }
}

/// The transform fits the whole box into the canonical cube: the image of
/// every point the box contains stays within `-SCALE` and `SCALE` on every
/// axis.
pub proof fn lemma_transform_fits(bb: BoundingBox, p: Vec3)
    requires
        bb.wf(),
        bb.longest_spec() > 0,
        bb.contains(p),
    ensures
        -SCALE <= apply_spec(transform_spec(bb), p).x <= SCALE,
        -SCALE <= apply_spec(transform_spec(bb), p).y <= SCALE,
        -SCALE <= apply_spec(transform_spec(bb), p).z <= SCALE,
{
    let l = bb.longest_spec();
    lemma_axis_fits(p.x as int, bb.min.x as int, bb.max.x as int, l);
    lemma_axis_fits(p.y as int, bb.min.y as int, bb.max.y as int, l);
    lemma_axis_fits(p.z as int, bb.min.z as int, bb.max.z as int, l);
}

/// One axis of the containment: with `min <= p <= max` and the extent at
/// most `longest`, the image numerator is bounded by `longest * SCALE`.
proof fn lemma_axis_fits(p: int, min: int, max: int, l: int)
    requires
        min <= p <= max,
        max - min <= l,
        l > 0,
    ensures
        -SCALE <= div_trunc((2 * p - (min + max)) * SCALE, l) <= SCALE,
{
    let num = 2 * p - (min + max);
    assert(-l <= num <= l);
    lemma_mul_scale_bound(num, l);
    lemma_div_trunc_bound(num * SCALE, l, SCALE as int);
}

} // verus!
