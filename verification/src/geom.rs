//! Fixed-point vectors and the axis-aligned bounding box.

use crate::fixed::{div_trunc, LIMIT};
use vstd::prelude::*;

verus! {

/// A point or direction in fixed-point coordinates.
#[derive(Clone, Copy, Debug, PartialEq, Eq, Structural)]
pub struct Vec3 {
    pub x: i64,
    pub y: i64,
    pub z: i64,
}

/// A coordinate the geometry routines can do arithmetic on without overflow.
pub open spec fn coord_in_range(c: int) -> bool {
    -LIMIT <= c <= LIMIT
}

/// All three coordinates within [`coord_in_range`].
pub open spec fn vec3_in_range(v: Vec3) -> bool {
    coord_in_range(v.x as int) && coord_in_range(v.y as int) && coord_in_range(v.z as int)
}

impl Vec3 {
    /// The origin.
    pub open spec fn zero_spec() -> Vec3 {
        Vec3 { x: 0, y: 0, z: 0 }
    }

    /// The origin.
    pub fn zero() -> (v: Vec3)
        ensures
            v == Vec3::zero_spec(),
    {
        Vec3 { x: 0, y: 0, z: 0 }
    }
}

/// Axis-aligned bounding box of the vertices absorbed so far.
///
/// Created from the first processed vertex and grown by [`BoundingBox::expand`];
/// it never shrinks.
#[derive(Clone, Copy, Debug, PartialEq, Eq, Structural)]
pub struct BoundingBox {
    pub min: Vec3,
    pub max: Vec3,
}

impl BoundingBox {
    /// `min <= max` holds componentwise and both corners are in range.
    pub open spec fn wf(self) -> bool {
        &&& self.min.x <= self.max.x
        &&& self.min.y <= self.max.y
        &&& self.min.z <= self.max.z
        &&& vec3_in_range(self.min)
        &&& vec3_in_range(self.max)
    }

    /// The point lies inside the box.
    pub open spec fn contains(self, v: Vec3) -> bool {
        &&& self.min.x <= v.x <= self.max.x
        &&& self.min.y <= v.y <= self.max.y
        &&& self.min.z <= v.z <= self.max.z
    }

    /// The degenerate box holding exactly one point.
    pub open spec fn seed_spec(v: Vec3) -> BoundingBox {
        BoundingBox { min: v, max: v }
    }

    /// The smallest box holding both `self` and `v`.
    pub open spec fn expand_spec(self, v: Vec3) -> BoundingBox {
        BoundingBox {
            min: Vec3 {
                x: if v.x < self.min.x {
                    v.x
                } else {
                    self.min.x
                },
                y: if v.y < self.min.y {
                    v.y
                } else {
                    self.min.y
                },
                z: if v.z < self.min.z {
                    v.z
                } else {
                    self.min.z
                },
            },
            max: Vec3 {
                x: if v.x > self.max.x {
                    v.x
                } else {
                    self.max.x
                },
                y: if v.y > self.max.y {
                    v.y
                } else {
                    self.max.y
                },
                z: if v.z > self.max.z {
                    v.z
                } else {
                    self.max.z
                },
            },
        }
    }

    /// Midpoint of the box, each sum halved with truncation toward zero.
    pub open spec fn center_spec(self) -> Vec3 {
        Vec3 {
            x: div_trunc(self.min.x + self.max.x, 2) as i64,
            y: div_trunc(self.min.y + self.max.y, 2) as i64,
            z: div_trunc(self.min.z + self.max.z, 2) as i64,
        }
    }

    /// Extent along the x axis.
    pub open spec fn length_spec(self) -> int {
        self.max.x - self.min.x
    }

    /// Extent along the y axis.
    pub open spec fn width_spec(self) -> int {
        self.max.y - self.min.y
    }

    /// Extent along the z axis.
    pub open spec fn height_spec(self) -> int {
        self.max.z - self.min.z
    }

    /// The largest of the three extents.
    pub open spec fn longest_spec(self) -> int {
        let l = self.length_spec();
        let w = self.width_spec();
        let h = self.height_spec();
        if l >= w && l >= h {
            l
        } else if w >= h {
            w
        } else {
            h
        }
    }

    /// Start a box from the first processed vertex.
    pub fn new(vert: &Vec3) -> (b: BoundingBox)
        requires
            vec3_in_range(*vert),
        ensures
            b == BoundingBox::seed_spec(*vert),
            b.wf(),
            b.contains(*vert),
    {
        BoundingBox { min: *vert, max: *vert }
    }

    /// Grow the box so that it also holds `vert`.
    pub fn expand(&mut self, vert: &Vec3)
        requires
            old(self).wf(),
            vec3_in_range(*vert),
        ensures
            *final(self) == old(self).expand_spec(*vert),
            final(self).wf(),
            final(self).contains(*vert),
    {
        if vert.x < self.min.x {
            self.min.x = vert.x;
        } else if vert.x > self.max.x {
            self.max.x = vert.x;
        }
        if vert.y < self.min.y {
            self.min.y = vert.y;
        } else if vert.y > self.max.y {
            self.max.y = vert.y;
        }
        if vert.z < self.min.z {
            self.min.z = vert.z;
        } else if vert.z > self.max.z {
            self.max.z = vert.z;
        }
    }

    /// Midpoint of the box.
    pub fn center(&self) -> (c: Vec3)
        requires
            self.wf(),
        ensures
            c == self.center_spec(),
    {
        Vec3 {
            x: half_trunc(self.min.x + self.max.x),
            y: half_trunc(self.min.y + self.max.y),
            z: half_trunc(self.min.z + self.max.z),
        }
    }

    /// Extent along the x axis.
    pub fn length(&self) -> (r: i64)
        requires
            self.wf(),
        ensures
            r == self.length_spec(),
    {
        self.max.x - self.min.x
    }

    /// Extent along the y axis.
    pub fn width(&self) -> (r: i64)
        requires
            self.wf(),
        ensures
            r == self.width_spec(),
    {
        self.max.y - self.min.y
    }

    /// Extent along the z axis.
    pub fn height(&self) -> (r: i64)
        requires
            self.wf(),
        ensures
            r == self.height_spec(),
    {
        self.max.z - self.min.z
    }
}

/// A bounding box never shrinks: growing it keeps every point it held
/// and absorbs the new one.
pub proof fn lemma_expand_grows(b: BoundingBox, v: Vec3, p: Vec3)
    requires
        b.contains(p),
    ensures
        b.expand_spec(v).contains(p),
        b.expand_spec(v).contains(v),
{
}

/// Halve with truncation toward zero.
fn half_trunc(a: i64) -> (r: i64)
    requires
        -(2 * LIMIT) <= a <= 2 * LIMIT,
    ensures
        r == div_trunc(a as int, 2),
{
    match a.checked_div(2) {
        Some(q) => q,
        None => {
            proof {
                assert(false);
            }
            0
        },
    }
}

} // verus!
