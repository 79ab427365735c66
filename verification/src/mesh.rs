//! The triangle-soup mesh and its ingestion from model data.
//!
//! A mesh holds one vertex and one normal per triangle corner (three per
//! triangle, no sharing), a bounding box grown from the first processed
//! vertex, and a flag recording whether every triangle's normal was
//! author-supplied.  The loaders decode STL, OBJ and 3MF data through
//! outside parsers that hand over raw IEEE-754 bit patterns; everything
//! from those bit patterns on is verified.

use crate::error::Error;
use crate::fixed::{
    div_trunc, fixed_from_f32_bits, fixed_from_f64_bits, fixed_of_bits, fixed_of_bits64, LIMIT,
    SCALE,
};
use crate::geom::{vec3_in_range, BoundingBox, Vec3};
use crate::text::{file_extension, file_extension_spec, lower_seq, str_eq_lower};
use vstd::string::StrSliceExecFns;
use crate::fixed::{lemma_div_trunc_bound, lemma_mul_scale_bound};
use vstd::arithmetic::div_mod::lemma_div_is_ordered;
use vstd::math::abs;
use vstd::prelude::*;

verus! {

/// A triangle corner as the render pipeline consumes it.
#[derive(Clone, Copy, Debug, PartialEq, Eq, Structural)]
pub struct Vertex {
    pub position: Vec3,
}

/// The normal attached to one triangle corner.
#[derive(Clone, Copy, Debug, PartialEq, Eq, Structural)]
pub struct Normal {
    pub normal: Vec3,
}

/// One triangle of a model source: three corners and the normal the source
/// supplied (the zero vector where the source supplied none).
#[derive(Clone, Copy, Debug, PartialEq, Eq, Structural)]
pub struct Triangle {
    pub normal: Vec3,
    pub v0: Vec3,
    pub v1: Vec3,
    pub v2: Vec3,
}

/// All corners and the supplied normal are within coordinate range.
pub open spec fn tri_in_range(t: Triangle) -> bool {
    vec3_in_range(t.normal) && vec3_in_range(t.v0) && vec3_in_range(t.v1) && vec3_in_range(t.v2)
}

/// Cross product of the two edge vectors `v1 - v0` and `v2 - v0`.
pub open spec fn cross_spec(t: Triangle) -> (int, int, int) {
    let ux = t.v1.x - t.v0.x;
    let uy = t.v1.y - t.v0.y;
    let uz = t.v1.z - t.v0.z;
    let vx = t.v2.x - t.v0.x;
    let vy = t.v2.y - t.v0.y;
    let vz = t.v2.z - t.v0.z;
    (uy * vz - uz * vy, uz * vx - ux * vz, ux * vy - uy * vx)
}

/// Sum of the absolute component values: the L1 norm.
pub open spec fn l1_spec(n: (int, int, int)) -> int {
    abs(n.0) + abs(n.1) + abs(n.2) as int
}

/// The normal this library computes for a triangle: the cross product of
/// two edge vectors, scaled by the reciprocal of the sum of the absolute
/// component values (an L1 normalization, not a Euclidean one).  A
/// degenerate triangle with collinear corners yields the zero vector.
pub open spec fn computed_normal_spec(t: Triangle) -> Vec3 {
    let n = cross_spec(t);
    let l = l1_spec(n);
    if l == 0 {
        Vec3::zero_spec()
    } else {
        Vec3 {
            x: div_trunc(n.0 * SCALE, l) as i64,
            y: div_trunc(n.1 * SCALE, l) as i64,
            z: div_trunc(n.2 * SCALE, l) as i64,
        }
    }
}

/// Whether a triangle's normal is computed rather than taken from the
/// source: on request, or when the source supplied the zero vector.
pub open spec fn normal_was_computed(t: Triangle, recalc: bool) -> bool {
    recalc || t.normal == Vec3::zero_spec()
}

/// The normal stored for a triangle's three corners.
pub open spec fn chosen_normal_spec(t: Triangle, recalc: bool) -> Vec3 {
    if normal_was_computed(t, recalc) {
        computed_normal_spec(t)
    } else {
        t.normal
    }
}

/// The mathematical value of a [`Mesh`].
pub ghost struct MeshView {
    pub vertices: Seq<Vec3>,
    pub normals: Seq<Vec3>,
    pub bounds: BoundingBox,
    pub had_normals: bool,
}

impl MeshView {
    /// Parallel vertex and normal sequences of equal length, a multiple of
    /// three; every vertex in range and inside the bounding box; every
    /// normal in range.
    pub open spec fn wf(self) -> bool {
        &&& self.normals.len() == self.vertices.len()
        &&& self.vertices.len() % 3 == 0
        &&& self.bounds.wf()
        &&& forall|i: int|
            0 <= i < self.vertices.len() ==> vec3_in_range(#[trigger] self.vertices[i])
                && self.bounds.contains(self.vertices[i])
        &&& forall|i: int| 0 <= i < self.normals.len() ==> vec3_in_range(#[trigger] self.normals[i])
    }
}

/// The mesh before any triangle: empty arrays, the box seeded at `seed`,
/// and the author-supplied-normals flag starting at `had0`.
pub open spec fn initial_mesh_view(seed: Vec3, had0: bool) -> MeshView {
    MeshView {
        vertices: Seq::empty(),
        normals: Seq::empty(),
        bounds: BoundingBox::seed_spec(seed),
        had_normals: had0,
    }
}

/// One triangle absorbed into the mesh: the box grows around its corners,
/// the corners are appended, and the chosen normal is replicated for all
/// three of them.
pub open spec fn process_tri_spec(m: MeshView, t: Triangle, recalc: bool) -> MeshView {
    let n = chosen_normal_spec(t, recalc);
    MeshView {
        vertices: m.vertices + seq![t.v0, t.v1, t.v2],
        normals: m.normals + seq![n, n, n],
        bounds: m.bounds.expand_spec(t.v0).expand_spec(t.v1).expand_spec(t.v2),
        had_normals: m.had_normals && !normal_was_computed(t, recalc),
    }
}

/// Three corners with their three normals absorbed into the mesh; the
/// author-supplied flag drops unless the normals came from the source.
pub open spec fn append_tri_spec(
    m: MeshView,
    v0: Vec3,
    v1: Vec3,
    v2: Vec3,
    n0: Vec3,
    n1: Vec3,
    n2: Vec3,
    had_file: bool,
) -> MeshView {
    MeshView {
        vertices: m.vertices + seq![v0, v1, v2],
        normals: m.normals + seq![n0, n1, n2],
        bounds: m.bounds.expand_spec(v0).expand_spec(v1).expand_spec(v2),
        had_normals: m.had_normals && had_file,
    }
}

/// The first `k` triangles absorbed in order, starting from `m0`.
pub open spec fn build_upto(m0: MeshView, tris: Seq<Triangle>, recalc: bool, k: int) -> MeshView
    decreases k,
{
    if k <= 0 {
        m0
    } else {
        process_tri_spec(build_upto(m0, tris, recalc, k - 1), tris[k - 1], recalc)
    }
}

/// The mesh a nonempty triangle list builds: the box is seeded from the
/// first triangle's first corner, then every triangle is absorbed in order.
pub open spec fn mesh_from_triangles_spec(tris: Seq<Triangle>, had0: bool, recalc: bool) -> MeshView
    recommends
        tris.len() > 0,
{
    build_upto(initial_mesh_view(tris[0].v0, had0), tris, recalc, tris.len() as int)
}

/// The triangle-soup mesh: flat per-corner vertex and normal arrays, a
/// running bounding box, and the flag saying whether every normal was
/// author-supplied.
#[derive(Clone)]
pub struct Mesh {
    pub vertices: Vec<Vertex>,
    pub normals: Vec<Normal>,
    pub indices: Vec<usize>,
    pub bounds: BoundingBox,
    pub stl_had_normals: bool,
}

impl View for Mesh {
    type V = MeshView;

    open spec fn view(&self) -> MeshView {
        MeshView {
            vertices: self.vertices@.map_values(|v: Vertex| v.position),
            normals: self.normals@.map_values(|n: Normal| n.normal),
            bounds: self.bounds,
            had_normals: self.stl_had_normals,
        }
    }
}

impl Mesh {
    /// A mesh as ingestion returns it: well-formed and nonempty.
    pub open spec fn wf(self) -> bool {
        self@.wf() && self@.vertices.len() > 0
    }

    /// Whether every triangle's normal was author-supplied; used only to
    /// emit one aggregate warning after ingestion.
    pub fn had_normals(&self) -> (r: bool)
        ensures
            r == self@.had_normals,
    {
        self.stl_had_normals
    }

    /// Absorb one triangle: grow the box around its corners, append them,
    /// and append the chosen normal three times.  The normal comes from the
    /// source unless recalculation was requested or the source supplied the
    /// zero vector, in which case it is computed.
    pub fn process_tri(&mut self, tri: &Triangle, recalc_normals: bool)
        requires
            old(self)@.wf(),
            tri_in_range(*tri),
        ensures
            final(self)@ == process_tri_spec(old(self)@, *tri, recalc_normals),
            final(self)@.wf(),
    {
        self.bounds.expand(&tri.v0);
        self.vertices.push(Vertex { position: tri.v0 });
        self.bounds.expand(&tri.v1);
        self.vertices.push(Vertex { position: tri.v1 });
        self.bounds.expand(&tri.v2);
        self.vertices.push(Vertex { position: tri.v2 });
        let n: Normal;
        if recalc_normals || (tri.normal.x == 0 && tri.normal.y == 0 && tri.normal.z == 0) {
            self.stl_had_normals = false;
            n = normal(tri);
        } else {
            n = Normal { normal: tri.normal };
        }
        self.normals.push(n);
        self.normals.push(n);
        self.normals.push(n);
        proof {
            let m = process_tri_spec(old(self)@, *tri, recalc_normals);
            assert(tri.normal == Vec3::zero_spec() <==> (tri.normal.x == 0 && tri.normal.y == 0
                && tri.normal.z == 0));
            assert(self@.vertices =~= m.vertices);
            assert(self@.normals =~= m.normals);
            assert forall|i: int| 0 <= i < self@.vertices.len() implies vec3_in_range(
                #[trigger] self@.vertices[i],
            ) && self@.bounds.contains(self@.vertices[i]) by {
                if i < old(self)@.vertices.len() {
                    assert(old(self)@.bounds.contains(old(self)@.vertices[i]));
                }
            }
        }
    }
}

impl Mesh {
    /// Absorb three corners with their normals, already decoded.
    fn push_tri_data(
        &mut self,
        v0: Vec3,
        v1: Vec3,
        v2: Vec3,
        n0: Vec3,
        n1: Vec3,
        n2: Vec3,
        had_file: bool,
    )
        requires
            old(self)@.wf(),
            vec3_in_range(v0),
            vec3_in_range(v1),
            vec3_in_range(v2),
            vec3_in_range(n0),
            vec3_in_range(n1),
            vec3_in_range(n2),
        ensures
            final(self)@ == append_tri_spec(old(self)@, v0, v1, v2, n0, n1, n2, had_file),
            final(self)@.wf(),
    {
        self.bounds.expand(&v0);
        self.vertices.push(Vertex { position: v0 });
        self.bounds.expand(&v1);
        self.vertices.push(Vertex { position: v1 });
        self.bounds.expand(&v2);
        self.vertices.push(Vertex { position: v2 });
        self.normals.push(Normal { normal: n0 });
        self.normals.push(Normal { normal: n1 });
        self.normals.push(Normal { normal: n2 });
        if !had_file {
            self.stl_had_normals = false;
        }
        proof {
            let m = append_tri_spec(old(self)@, v0, v1, v2, n0, n1, n2, had_file);
            assert(self@.vertices =~= m.vertices);
            assert(self@.normals =~= m.normals);
            assert forall|i: int| 0 <= i < self@.vertices.len() implies vec3_in_range(
                #[trigger] self@.vertices[i],
            ) && self@.bounds.contains(self@.vertices[i]) by {
                if i < old(self)@.vertices.len() {
                    assert(old(self)@.bounds.contains(old(self)@.vertices[i]));
                }
            }
        }
    }
}

/// Calculate the surface normal of a triangle: the cross product of two
/// edge vectors, L1-normalized to fixed-point scale.
pub fn normal(tri: &Triangle) -> (n: Normal)
    requires
        tri_in_range(*tri),
    ensures
        n.normal == computed_normal_spec(*tri),
        vec3_in_range(n.normal),
{
    let ux: i64 = tri.v1.x - tri.v0.x;
    let uy: i64 = tri.v1.y - tri.v0.y;
    let uz: i64 = tri.v1.z - tri.v0.z;
    let vx: i64 = tri.v2.x - tri.v0.x;
    let vy: i64 = tri.v2.y - tri.v0.y;
    let vz: i64 = tri.v2.z - tri.v0.z;
    proof {
        lemma_edge_products_bounded(ux as int, uy as int, uz as int, vx as int, vy as int, vz as int);
    }
    let nx: i128 = (uy as i128) * (vz as i128) - (uz as i128) * (vy as i128);
    let ny: i128 = (uz as i128) * (vx as i128) - (ux as i128) * (vz as i128);
    let nz: i128 = (ux as i128) * (vy as i128) - (uy as i128) * (vx as i128);
    let ax = abs_i128(nx);
    let ay = abs_i128(ny);
    let az = abs_i128(nz);
    let l = ax + ay + az;
    proof {
        assert(ax <= 8 * (LIMIT as int) * (LIMIT as int));
        assert(ay <= 8 * (LIMIT as int) * (LIMIT as int));
        assert(az <= 8 * (LIMIT as int) * (LIMIT as int));
    }
    if l == 0 {
        Normal { normal: Vec3::zero() }
    } else {
        let sx = scale_component(nx, l);
        let sy = scale_component(ny, l);
        let sz = scale_component(nz, l);
        Normal { normal: Vec3 { x: sx, y: sy, z: sz } }
    }
}

/// The six edge components of an in-range triangle keep every cross-product
/// term far inside the `i128` range.
proof fn lemma_edge_products_bounded(ux: int, uy: int, uz: int, vx: int, vy: int, vz: int)
    requires
        -(2 * LIMIT) <= ux <= 2 * LIMIT,
        -(2 * LIMIT) <= uy <= 2 * LIMIT,
        -(2 * LIMIT) <= uz <= 2 * LIMIT,
        -(2 * LIMIT) <= vx <= 2 * LIMIT,
        -(2 * LIMIT) <= vy <= 2 * LIMIT,
        -(2 * LIMIT) <= vz <= 2 * LIMIT,
    ensures
        -(4 * LIMIT * LIMIT) <= uy * vz <= 4 * LIMIT * LIMIT,
        -(4 * LIMIT * LIMIT) <= uz * vy <= 4 * LIMIT * LIMIT,
        -(4 * LIMIT * LIMIT) <= uz * vx <= 4 * LIMIT * LIMIT,
        -(4 * LIMIT * LIMIT) <= ux * vz <= 4 * LIMIT * LIMIT,
        -(4 * LIMIT * LIMIT) <= ux * vy <= 4 * LIMIT * LIMIT,
        -(4 * LIMIT * LIMIT) <= uy * vx <= 4 * LIMIT * LIMIT,
{
    lemma_mul_abs_bound(uy, vz);
    lemma_mul_abs_bound(uz, vy);
    lemma_mul_abs_bound(uz, vx);
    lemma_mul_abs_bound(ux, vz);
    lemma_mul_abs_bound(ux, vy);
    lemma_mul_abs_bound(uy, vx);
}

/// The product of two edge components stays within `4 * LIMIT^2`.
proof fn lemma_mul_abs_bound(a: int, b: int)
    requires
        -(2 * LIMIT) <= a <= 2 * LIMIT,
        -(2 * LIMIT) <= b <= 2 * LIMIT,
    ensures
        -(4 * LIMIT * LIMIT) <= a * b <= 4 * LIMIT * LIMIT,
{
    assert(-(4 * LIMIT * LIMIT) <= a * b <= 4 * LIMIT * LIMIT) by (nonlinear_arith)
        requires
            -(2 * LIMIT) <= a <= 2 * LIMIT,
            -(2 * LIMIT) <= b <= 2 * LIMIT,
    ;
}

/// Absolute value of a wide intermediate.
fn abs_i128(a: i128) -> (r: i128)
    requires
        a > i128::MIN,
    ensures
        r == abs(a as int),
{
    if a < 0 {
        -a
    } else {
        a
    }
}

/// One component of the L1 normalization: `n * SCALE / l`, truncating
/// toward zero.  The result never exceeds [`SCALE`] in magnitude.
fn scale_component(n: i128, l: i128) -> (r: i64)
    requires
        l > 0,
        -l <= n <= l,
        l <= 24 * (LIMIT as int) * (LIMIT as int),
    ensures
        r == div_trunc(n * SCALE, l as int),
        -SCALE <= r <= SCALE,
{
    proof {
        lemma_mul_scale_bound(n as int, l as int);
        vstd::arithmetic::mul::lemma_mul_inequality(
            l as int,
            24 * (LIMIT as int) * (LIMIT as int),
            SCALE as int,
        );
        lemma_div_trunc_bound(n * SCALE, l as int, SCALE as int);
    }
    let num: i128 = n * (SCALE as i128);
    let q = match num.checked_div(l) {
        Some(q) => q,
        None => {
            proof {
                assert(false);
            }
            0
        },
    };
    q as i64
}

/// Build a mesh from an already-decoded triangle list.  An empty list is
/// the one ingestion failure shared by every format: `EmptyMeshError`.
fn build_mesh(tris: &Vec<Triangle>, had0: bool, recalc: bool) -> (r: Result<Mesh, Error>)
    requires
        forall|i: int| 0 <= i < tris@.len() ==> tri_in_range(#[trigger] tris@[i]),
    ensures
        tris@.len() == 0 ==> (r matches Err(e) && e == Error::EmptyMeshError),
        tris@.len() > 0 ==> (r matches Ok(m) && m@ == mesh_from_triangles_spec(tris@, had0, recalc)
            && m.wf()),
{
    if tris.len() == 0 {
        return Err(Error::EmptyMeshError);
    }
    let seed = tris[0].v0;
    let mut mesh = Mesh {
        vertices: Vec::new(),
        normals: Vec::new(),
        indices: Vec::new(),
        bounds: BoundingBox::new(&seed),
        stl_had_normals: had0,
    };
    proof {
        assert(mesh@.vertices =~= initial_mesh_view(seed, had0).vertices);
        assert(mesh@.normals =~= initial_mesh_view(seed, had0).normals);
    }
    let mut i: usize = 0;
    while i < tris.len()
        invariant
            0 <= i <= tris@.len(),
            forall|j: int| 0 <= j < tris@.len() ==> tri_in_range(#[trigger] tris@[j]),
            tris@[0].v0 == seed,
            mesh@ == build_upto(initial_mesh_view(seed, had0), tris@, recalc, i as int),
            mesh@.wf(),
        decreases tris@.len() - i,
    {
        mesh.process_tri(&tris[i], recalc);
        i = i + 1;
    }
    proof {
        lemma_build_upto_counts(initial_mesh_view(seed, had0), tris@, recalc, tris@.len() as int);
    }
    Ok(mesh)
}

/// Absorbing `k` triangles appends exactly `3 * k` vertices and normals.
pub proof fn lemma_build_upto_counts(m0: MeshView, tris: Seq<Triangle>, recalc: bool, k: int)
    requires
        0 <= k,
    ensures
        build_upto(m0, tris, recalc, k).vertices.len() == m0.vertices.len() + 3 * k,
        build_upto(m0, tris, recalc, k).normals.len() == m0.normals.len() + 3 * k,
    decreases k,
{
    if k > 0 {
        lemma_build_upto_counts(m0, tris, recalc, k - 1);
    }
}

/// For any valid list of `N` triangles, ingestion yields exactly `3 * N`
/// vertices and `3 * N` normals.
pub proof fn lemma_ingestion_counts(tris: Seq<Triangle>, had0: bool, recalc: bool)
    requires
        tris.len() > 0,
    ensures
        mesh_from_triangles_spec(tris, had0, recalc).vertices.len() == 3 * tris.len(),
        mesh_from_triangles_spec(tris, had0, recalc).normals.len() == 3 * tris.len(),
{
    lemma_build_upto_counts(
        initial_mesh_view(tris[0].v0, had0),
        tris,
        recalc,
        tris.len() as int,
    );
}

/// A triangle whose corners do not lie on one line receives a nonzero
/// computed normal: the largest cross-product component is at least a third
/// of the L1 norm, so its scaled value is at least a third of [`SCALE`].
pub proof fn lemma_computed_normal_nonzero(t: Triangle)
    requires
        cross_spec(t) != (0int, 0int, 0int),
    ensures
        computed_normal_spec(t) != Vec3::zero_spec(),
{
    let n = cross_spec(t);
    let l = l1_spec(n);
    assert(l > 0);
    lemma_mul_scale_bound(n.0, l);
    lemma_mul_scale_bound(n.1, l);
    lemma_mul_scale_bound(n.2, l);
    lemma_div_trunc_bound(n.0 * SCALE, l, SCALE as int);
    lemma_div_trunc_bound(n.1 * SCALE, l, SCALE as int);
    lemma_div_trunc_bound(n.2 * SCALE, l, SCALE as int);
    if abs(n.0) * 3 >= l {
        lemma_scaled_component_nonzero(n.0, l);
        assert(computed_normal_spec(t).x != 0);
    } else if abs(n.1) * 3 >= l {
        lemma_scaled_component_nonzero(n.1, l);
        assert(computed_normal_spec(t).y != 0);
    } else {
        assert(abs(n.2) * 3 >= l);
        lemma_scaled_component_nonzero(n.2, l);
        assert(computed_normal_spec(t).z != 0);
    }
}

/// Three coordinates of a model source as raw IEEE-754 single bit patterns.
#[derive(Clone, Copy, Debug, PartialEq, Eq, Structural)]
pub struct RawVector {
    pub x: u32,
    pub y: u32,
    pub z: u32,
}

/// One triangle as a model source stores it: raw bit patterns for the
/// supplied normal and the three corners.
#[derive(Clone, Copy, Debug, PartialEq, Eq, Structural)]
pub struct RawTriangle {
    pub normal: RawVector,
    pub v0: RawVector,
    pub v1: RawVector,
    pub v2: RawVector,
}

/// The fixed-point point a raw coordinate triple decodes to.
pub open spec fn decode_vector_spec(r: RawVector) -> Vec3 {
    Vec3 {
        x: fixed_of_bits(r.x) as i64,
        y: fixed_of_bits(r.y) as i64,
        z: fixed_of_bits(r.z) as i64,
    }
}

/// The fixed-point triangle a raw triangle decodes to.
pub open spec fn decode_triangle_spec(r: RawTriangle) -> Triangle {
    Triangle {
        normal: decode_vector_spec(r.normal),
        v0: decode_vector_spec(r.v0),
        v1: decode_vector_spec(r.v1),
        v2: decode_vector_spec(r.v2),
    }
}

/// Decode a raw coordinate triple.
pub fn decode_vector(r: &RawVector) -> (v: Vec3)
    ensures
        v == decode_vector_spec(*r),
        vec3_in_range(v),
{
    Vec3 {
        x: fixed_from_f32_bits(r.x),
        y: fixed_from_f32_bits(r.y),
        z: fixed_from_f32_bits(r.z),
    }
}

/// Decode a raw triangle.
pub fn decode_triangle(r: &RawTriangle) -> (t: Triangle)
    ensures
        t == decode_triangle_spec(*r),
        tri_in_range(t),
{
    Triangle {
        normal: decode_vector(&r.normal),
        v0: decode_vector(&r.v0),
        v1: decode_vector(&r.v1),
        v2: decode_vector(&r.v2),
    }
}

/// The triangles that STL data decodes to, or `None` where the data is not
/// well-formed STL.  The outside STL reader is deterministic, so this is a
/// function of the bytes alone.
pub uninterp spec fn stl_parse_spec(data: Seq<u8>) -> Option<Seq<RawTriangle>>;

/// Relies on stl_io::create_stl_reader and its triangle iterator: they
/// decode ASCII or binary STL from an in-memory reader, and the outcome
/// depends on the bytes alone.
#[verifier::external_body]
fn read_stl_triangles(data: &[u8]) -> (r: Option<Vec<RawTriangle>>)
    ensures
        r matches Some(v) ==> stl_parse_spec(data@) == Some(v@),
        r is Some <==> stl_parse_spec(data@) is Some,
{
    let mut cursor = std::io::Cursor::new(data);
    let reader = stl_io::create_stl_reader(&mut cursor).ok()?;
    let conv = |v: &stl_io::Vertex| RawVector { x: v[0].to_bits(), y: v[1].to_bits(), z: v[2].to_bits() };
    let mut out = Vec::new();
    for t in reader {
        let t = t.ok()?;
        out.push(RawTriangle { normal: conv(&t.normal), v0: conv(&t.vertices[0]), v1: conv(&t.vertices[1]), v2: conv(&t.vertices[2]) });
    }
    Some(out)
}

/// The mesh that well-formed, nonempty STL data loads to.
pub open spec fn stl_mesh_spec(raws: Seq<RawTriangle>, recalc: bool) -> MeshView
    recommends
        raws.len() > 0,
{
    mesh_from_triangles_spec(
        raws.map_values(|r: RawTriangle| decode_triangle_spec(r)),
        true,
        recalc,
    )
}

/// What loading STL data must return: `ParseError` on malformed data,
/// `EmptyMeshError` on zero triangles, else exactly the mesh that
/// [`stl_mesh_spec`] assigns to the decoded triangles.
pub open spec fn stl_result_spec(data: Seq<u8>, recalc: bool, r: Result<Mesh, Error>) -> bool {
    match stl_parse_spec(data) {
        None => r matches Err(e) && e == Error::ParseError,
        Some(raws) => if raws.len() == 0 {
            r matches Err(e) && e == Error::EmptyMeshError
        } else {
            r matches Ok(m) && m@ == stl_mesh_spec(raws, recalc) && m.wf() && m@.vertices.len()
                == 3 * raws.len()
        },
    }
}

impl Mesh {
    /// Load a mesh from STL data (ASCII or binary).
    ///
    /// Malformed data fails with `ParseError`; data holding zero triangles
    /// fails with `EmptyMeshError`; otherwise the result is exactly the
    /// mesh that [`stl_mesh_spec`] assigns to the decoded triangles.
    pub fn from_stl(data: &[u8], recalc_normals: bool) -> (r: Result<Mesh, Error>)
        ensures
            stl_result_spec(data@, recalc_normals, r),
    {
        let raws = match read_stl_triangles(data) {
            Some(v) => v,
            None => return Err(Error::ParseError),
        };
        let ghost raws_seq = raws@;
        let mut tris: Vec<Triangle> = Vec::new();
        let mut i: usize = 0;
        while i < raws.len()
            invariant
                0 <= i <= raws@.len(),
                raws@ == raws_seq,
                tris@ =~= raws@.take(i as int).map_values(
                    |r: RawTriangle| decode_triangle_spec(r),
                ),
                forall|j: int| 0 <= j < tris@.len() ==> tri_in_range(#[trigger] tris@[j]),
            decreases raws@.len() - i,
        {
            tris.push(decode_triangle(&raws[i]));
            proof {
                assert(tris@ =~= raws@.take(i + 1 as int).map_values(
                    |r: RawTriangle| decode_triangle_spec(r),
                ));
            }
            i = i + 1;
        }
        proof {
            assert(raws@.take(raws@.len() as int) =~= raws@);
            if raws@.len() > 0 {
                lemma_build_upto_counts(
                    initial_mesh_view(tris@[0].v0, true),
                    tris@,
                    recalc_normals,
                    tris@.len() as int,
                );
            }
        }
        build_mesh(&tris, true, recalc_normals)
    }
}

/// Vertex indices of one triangle of a 3MF mesh object.
#[derive(Clone, Copy, Debug, PartialEq, Eq, Structural)]
pub struct RawTriIndices {
    pub a: usize,
    pub b: usize,
    pub c: usize,
}

/// Three coordinates of a 3MF vertex as raw IEEE-754 double bit patterns.
#[derive(Clone, Copy, Debug, PartialEq, Eq, Structural)]
pub struct RawVector64 {
    pub x: u64,
    pub y: u64,
    pub z: u64,
}

/// The fixed-point point a raw double-precision triple decodes to.
pub open spec fn decode_vector64_spec(r: RawVector64) -> Vec3 {
    Vec3 {
        x: fixed_of_bits64(r.x) as i64,
        y: fixed_of_bits64(r.y) as i64,
        z: fixed_of_bits64(r.z) as i64,
    }
}

/// Decode a raw double-precision coordinate triple.
pub fn decode_vector64(r: &RawVector64) -> (v: Vec3)
    ensures
        v == decode_vector64_spec(*r),
        vec3_in_range(v),
{
    Vec3 {
        x: fixed_from_f64_bits(r.x),
        y: fixed_from_f64_bits(r.y),
        z: fixed_from_f64_bits(r.z),
    }
}

/// One mesh object of a 3MF container: a vertex list (raw bit patterns)
/// and a list of index triples into it.  3MF carries no normals.
pub struct RawMeshObject {
    pub vertices: Vec<RawVector64>,
    pub triangles: Vec<RawTriIndices>,
}

/// The mathematical value of a [`RawMeshObject`].
pub ghost struct MeshObjectV {
    pub vertices: Seq<RawVector64>,
    pub triangles: Seq<RawTriIndices>,
}

impl View for RawMeshObject {
    type V = MeshObjectV;

    open spec fn view(&self) -> MeshObjectV {
        MeshObjectV { vertices: self.vertices@, triangles: self.triangles@ }
    }
}

/// The mathematical value of a list of raw mesh objects.
pub open spec fn raw_objects_view(objs: Seq<RawMeshObject>) -> Seq<MeshObjectV> {
    objs.map_values(|o: RawMeshObject| o@)
}

/// The mesh objects that 3MF data decodes to (every object of every model
/// in the container, in order), or `None` where the data is not a
/// well-formed container.  The outside reader is deterministic, so this is
/// a function of the bytes alone.
pub uninterp spec fn threemf_parse_spec(data: Seq<u8>) -> Option<Seq<MeshObjectV>>;

/// Relies on threemf::read: it unpacks the container and deserializes
/// every model, and the outcome depends on the bytes alone.  Vertex
/// coordinates are doubles; they are narrowed to singles as the rest of
/// the pipeline expects.
#[verifier::external_body]
fn read_3mf_objects(data: &[u8]) -> (r: Option<Vec<RawMeshObject>>)
    ensures
        r matches Some(v) ==> threemf_parse_spec(data@) == Some(raw_objects_view(v@)),
        r is Some <==> threemf_parse_spec(data@) is Some,
{
    let models = threemf::read(std::io::Cursor::new(data)).ok()?;
    let conv = |v: &threemf::model::Vertex| RawVector64 { x: v.x.to_bits(), y: v.y.to_bits(), z: v.z.to_bits() };
    Some(
        models.into_iter().flat_map(|m| m.resources.object).filter_map(|o| o.mesh).map(
            |mesh| RawMeshObject {
                vertices: mesh.vertices.vertex.iter().map(conv).collect(),
                triangles: mesh.triangles.triangle.iter().map(|t| RawTriIndices { a: t.v1, b: t.v2, c: t.v3 }).collect(),
            },
        ).collect(),
    )
}

/// The placeholder normal a 3MF triangle carries before recalculation:
/// the unit x vector, as the other loaders would receive it from a source.
/// Every 3MF normal is recomputed, so it never reaches a mesh.
pub open spec fn threemf_placeholder_normal() -> Vec3 {
    Vec3 { x: SCALE, y: 0, z: 0 }
}

/// Every index triple of the object points into its vertex list.
pub open spec fn threemf_object_valid(o: MeshObjectV) -> bool {
    forall|i: int|
        0 <= i < o.triangles.len() ==> (#[trigger] o.triangles[i]).a < o.vertices.len()
            && o.triangles[i].b < o.vertices.len() && o.triangles[i].c < o.vertices.len()
}

/// Every object of the container is valid.
pub open spec fn threemf_all_valid(objs: Seq<MeshObjectV>) -> bool {
    forall|j: int| 0 <= j < objs.len() ==> threemf_object_valid(#[trigger] objs[j])
}

/// The decoded triangles of one mesh object, in order.
pub open spec fn threemf_object_triangles(o: MeshObjectV) -> Seq<Triangle>
    recommends
        threemf_object_valid(o),
{
    Seq::new(
        o.triangles.len(),
        |i: int| Triangle {
            normal: threemf_placeholder_normal(),
            v0: decode_vector64_spec(o.vertices[o.triangles[i].a as int]),
            v1: decode_vector64_spec(o.vertices[o.triangles[i].b as int]),
            v2: decode_vector64_spec(o.vertices[o.triangles[i].c as int]),
        },
    )
}

/// The decoded triangles of the first `k` objects, concatenated.
pub open spec fn threemf_tris_upto(objs: Seq<MeshObjectV>, k: int) -> Seq<Triangle>
    decreases k,
{
    if k <= 0 {
        Seq::empty()
    } else {
        threemf_tris_upto(objs, k - 1) + threemf_object_triangles(objs[k - 1])
    }
}

/// The decoded triangles of the whole container, concatenated in order:
/// union semantics, no per-object separation.
pub open spec fn threemf_triangles(objs: Seq<MeshObjectV>) -> Seq<Triangle> {
    threemf_tris_upto(objs, objs.len() as int)
}

/// What loading 3MF data must return: `ParseError` on a malformed
/// container or an out-of-range vertex index, `EmptyMeshError` on zero
/// triangles, else exactly the mesh built from the unioned triangles with
/// every normal computed.
pub open spec fn threemf_result_spec(data: Seq<u8>, r: Result<Mesh, Error>) -> bool {
    match threemf_parse_spec(data) {
        None => r matches Err(e) && e == Error::ParseError,
        Some(objs) => if !threemf_all_valid(objs) {
            r matches Err(e) && e == Error::ParseError
        } else if threemf_triangles(objs).len() == 0 {
            r matches Err(e) && e == Error::EmptyMeshError
        } else {
            r matches Ok(m) && m@ == mesh_from_triangles_spec(threemf_triangles(objs), false, true)
                && m.wf()
        },
    }
}

impl Mesh {
    /// Load a mesh from 3MF container data.
    ///
    /// All mesh objects are unioned into one mesh.  3MF carries only
    /// positions, so every normal is computed; the flag `recalc_normals`
    /// changes nothing.  Malformed containers and out-of-range vertex
    /// indices fail with `ParseError`; a container with zero triangles
    /// fails with `EmptyMeshError`.
    pub fn from_3mf(data: &[u8], recalc_normals: bool) -> (r: Result<Mesh, Error>)
        ensures
            threemf_result_spec(data@, r),
    {
        let _ = recalc_normals;
        let objs = match read_3mf_objects(data) {
            Some(v) => v,
            None => return Err(Error::ParseError),
        };
        let ghost ov = raw_objects_view(objs@);
        let mut tris: Vec<Triangle> = Vec::new();
        let mut oi: usize = 0;
        while oi < objs.len()
            invariant
                0 <= oi <= objs@.len(),
                ov == raw_objects_view(objs@),
                threemf_parse_spec(data@) == Some(ov),
                forall|j: int| 0 <= j < oi ==> threemf_object_valid(#[trigger] ov[j]),
                tris@ == threemf_tris_upto(ov, oi as int),
                forall|j: int| 0 <= j < tris@.len() ==> tri_in_range(#[trigger] tris@[j]),
            decreases objs@.len() - oi,
        {
            let o = &objs[oi];
            let mut ti: usize = 0;
            while ti < o.triangles.len()
                invariant
                    0 <= ti <= o.triangles@.len(),
                    0 <= oi < objs@.len(),
                    o == &objs[oi as int],
                    ov == raw_objects_view(objs@),
                    threemf_parse_spec(data@) == Some(ov),
                    forall|j: int| 0 <= j < oi ==> threemf_object_valid(#[trigger] ov[j]),
                    forall|k: int|
                        0 <= k < ti ==> {
                            let tk = #[trigger] ov[oi as int].triangles[k];
                            tk.a < ov[oi as int].vertices.len() && tk.b < ov[
                                oi as int
                            ].vertices.len() && tk.c < ov[oi as int].vertices.len()
                        },
                    tris@ == threemf_tris_upto(ov, oi as int) + threemf_object_triangles(
                        ov[oi as int],
                    ).take(ti as int),
                    forall|j: int| 0 <= j < tris@.len() ==> tri_in_range(#[trigger] tris@[j]),
                decreases o.triangles@.len() - ti,
            {
                let idx = o.triangles[ti];
                if idx.a >= o.vertices.len() || idx.b >= o.vertices.len() || idx.c
                    >= o.vertices.len() {
                    proof {
                        assert(ov[oi as int] == objs@[oi as int]@);
                        assert(ov[oi as int].triangles[ti as int] == idx);
                        assert(!threemf_object_valid(ov[oi as int]));
                        assert(!threemf_all_valid(ov));
                        assert(threemf_parse_spec(data@) == Some(ov));
                    }
                    return Err(Error::ParseError);
                }
                let tri = Triangle {
                    normal: Vec3 { x: SCALE, y: 0, z: 0 },
                    v0: decode_vector64(&o.vertices[idx.a]),
                    v1: decode_vector64(&o.vertices[idx.b]),
                    v2: decode_vector64(&o.vertices[idx.c]),
                };
                tris.push(tri);
                proof {
                    assert(threemf_object_triangles(ov[oi as int]).take(ti + 1 as int)
                        =~= threemf_object_triangles(ov[oi as int]).take(ti as int).push(tri));
                }
                ti = ti + 1;
            }
            proof {
                assert(threemf_object_triangles(ov[oi as int]).take(
                    ov[oi as int].triangles.len() as int,
                ) =~= threemf_object_triangles(ov[oi as int]));
            }
            oi = oi + 1;
        }
        proof {
            assert(threemf_all_valid(ov));
        }
        build_mesh(&tris, false, true)
    }
}

/// One model of an OBJ source, already triangulated and single-indexed:
/// flat position and normal arrays as raw bit patterns, and vertex indices
/// grouped in threes.
pub struct RawObjModel {
    pub positions: Vec<u32>,
    pub normals: Vec<u32>,
    pub indices: Vec<u32>,
}

/// The mathematical value of a [`RawObjModel`].
pub ghost struct ObjModelV {
    pub positions: Seq<u32>,
    pub normals: Seq<u32>,
    pub indices: Seq<u32>,
}

impl View for RawObjModel {
    type V = ObjModelV;

    open spec fn view(&self) -> ObjModelV {
        ObjModelV { positions: self.positions@, normals: self.normals@, indices: self.indices@ }
    }
}

/// The mathematical value of a list of raw OBJ models.
pub open spec fn raw_models_view(ms: Seq<RawObjModel>) -> Seq<ObjModelV> {
    ms.map_values(|m: RawObjModel| m@)
}

/// The models that OBJ data decodes to, or `None` where the data is not
/// well-formed OBJ.  The outside OBJ loader is deterministic, so this is a
/// function of the bytes alone.
pub uninterp spec fn obj_parse_spec(data: Seq<u8>) -> Option<Seq<ObjModelV>>;

/// Relies on tobj::load_obj_buf with triangulation and single-indexing
/// requested and no material files: the models parsed from the bytes are a
/// function of the bytes alone.
#[verifier::external_body]
fn read_obj_models(data: &[u8]) -> (r: Option<Vec<RawObjModel>>)
    ensures
        r matches Some(v) ==> obj_parse_spec(data@) == Some(raw_models_view(v@)),
        r is Some <==> obj_parse_spec(data@) is Some,
{
    let mut reader = std::io::BufReader::new(std::io::Cursor::new(data));
    let opts = tobj::LoadOptions { single_index: true, triangulate: true, ..Default::default() };
    match tobj::load_obj_buf(&mut reader, &opts, |_| Ok(Default::default())) {
        Ok((models, _)) => Some(
            models.iter().map(
                |m| RawObjModel {
                    positions: m.mesh.positions.iter().map(|p| p.to_bits()).collect(),
                    normals: m.mesh.normals.iter().map(|n| n.to_bits()).collect(),
                    indices: m.mesh.indices.clone(),
                },
            ).collect(),
        ),
        Err(_) => None,
    }
}

/// The decoded position triple at vertex index `idx` of an OBJ model.
pub open spec fn obj_pos3(m: ObjModelV, idx: int) -> Vec3 {
    Vec3 {
        x: fixed_of_bits(m.positions[3 * idx]) as i64,
        y: fixed_of_bits(m.positions[3 * idx + 1]) as i64,
        z: fixed_of_bits(m.positions[3 * idx + 2]) as i64,
    }
}

/// The decoded normal triple at vertex index `idx` of an OBJ model.
pub open spec fn obj_norm3(m: ObjModelV, idx: int) -> Vec3 {
    Vec3 {
        x: fixed_of_bits(m.normals[3 * idx]) as i64,
        y: fixed_of_bits(m.normals[3 * idx + 1]) as i64,
        z: fixed_of_bits(m.normals[3 * idx + 2]) as i64,
    }
}

/// The model's indices come in threes and every index points at a full
/// position triple, and at a full normal triple where the model has
/// normals.
pub open spec fn obj_model_valid(m: ObjModelV) -> bool {
    &&& m.indices.len() % 3 == 0
    &&& forall|i: int|
        0 <= i < m.indices.len() ==> {
            let idx = (#[trigger] m.indices[i]) as int;
            3 * idx + 3 <= m.positions.len() && (m.normals.len() > 0 ==> 3 * idx + 3
                <= m.normals.len())
        }
}

/// Every model of the source is valid.
pub open spec fn obj_all_valid(ms: Seq<ObjModelV>) -> bool {
    forall|j: int| 0 <= j < ms.len() ==> obj_model_valid(#[trigger] ms[j])
}

/// Some model holds at least one triangle.
pub open spec fn obj_has_triangles(ms: Seq<ObjModelV>) -> bool {
    exists|j: int| 0 <= j < ms.len() && (#[trigger] ms[j]).indices.len() > 0
}

/// Triangle `t` of an OBJ model absorbed into the mesh: the box grows
/// around its three corners and they are appended; the normals come from
/// the model's normal array where it has one, and are computed from the
/// corners where it does not.
pub open spec fn obj_tri_step(acc: MeshView, m: ObjModelV, t: int) -> MeshView {
    let i0 = m.indices[3 * t] as int;
    let i1 = m.indices[3 * t + 1] as int;
    let i2 = m.indices[3 * t + 2] as int;
    let v0 = obj_pos3(m, i0);
    let v1 = obj_pos3(m, i1);
    let v2 = obj_pos3(m, i2);
    let ns = if m.normals.len() > 0 {
        seq![obj_norm3(m, i0), obj_norm3(m, i1), obj_norm3(m, i2)]
    } else {
        let n = computed_normal_spec(Triangle { normal: Vec3::zero_spec(), v0, v1, v2 });
        seq![n, n, n]
    };
    MeshView {
        vertices: acc.vertices + seq![v0, v1, v2],
        normals: acc.normals + ns,
        bounds: acc.bounds.expand_spec(v0).expand_spec(v1).expand_spec(v2),
        had_normals: acc.had_normals && m.normals.len() > 0,
    }
}

/// The first `k` triangles of one OBJ model absorbed in order.
pub open spec fn obj_model_upto(acc: MeshView, m: ObjModelV, k: int) -> MeshView
    decreases k,
{
    if k <= 0 {
        acc
    } else {
        obj_tri_step(obj_model_upto(acc, m, k - 1), m, k - 1)
    }
}

/// The first `j` OBJ models absorbed in order.
pub open spec fn obj_models_upto(acc0: MeshView, ms: Seq<ObjModelV>, j: int) -> MeshView
    decreases j,
{
    if j <= 0 {
        acc0
    } else {
        obj_model_upto(
            obj_models_upto(acc0, ms, j - 1),
            ms[j - 1],
            ms[j - 1].indices.len() as int / 3,
        )
    }
}

/// The mesh a valid OBJ source loads to: the box is seeded from the first
/// model's first position triple, then every triangle of every model is
/// absorbed in order.
pub open spec fn obj_mesh_spec(ms: Seq<ObjModelV>) -> MeshView
    recommends
        ms.len() > 0,
        ms[0].positions.len() >= 3,
{
    obj_models_upto(initial_mesh_view(obj_pos3(ms[0], 0), true), ms, ms.len() as int)
}

/// `3 * idx + 3 <= len`, computed without overflowing.
fn index_triple_fits(idx: usize, len: usize) -> (b: bool)
    ensures
        b == (3 * idx + 3 <= len),
{
    match idx.checked_mul(3) {
        Some(x) => match x.checked_add(3) {
            Some(s) => s <= len,
            None => false,
        },
        None => false,
    }
}

/// Decode the position triple at vertex index `idx` of a raw OBJ model.
fn obj_read_pos3(m: &RawObjModel, idx: usize) -> (v: Vec3)
    requires
        3 * idx + 3 <= m.positions@.len(),
    ensures
        v == obj_pos3(m@, idx as int),
        vec3_in_range(v),
{
    let n = m.positions.len();
    let base = 3 * idx;
    Vec3 {
        x: fixed_from_f32_bits(m.positions[base]),
        y: fixed_from_f32_bits(m.positions[base + 1]),
        z: fixed_from_f32_bits(m.positions[base + 2]),
    }
}

/// Decode the normal triple at vertex index `idx` of a raw OBJ model.
fn obj_read_norm3(m: &RawObjModel, idx: usize) -> (v: Vec3)
    requires
        3 * idx + 3 <= m.normals@.len(),
    ensures
        v == obj_norm3(m@, idx as int),
        vec3_in_range(v),
{
    let n = m.normals.len();
    let base = 3 * idx;
    Vec3 {
        x: fixed_from_f32_bits(m.normals[base]),
        y: fixed_from_f32_bits(m.normals[base + 1]),
        z: fixed_from_f32_bits(m.normals[base + 2]),
    }
}

/// What loading OBJ data must return: `ParseError` on malformed data or
/// out-of-range indices, `EmptyMeshError` where there is no model, no
/// leading position triple or no triangle, else exactly the mesh that
/// [`obj_mesh_spec`] assigns to the models.
pub open spec fn obj_result_spec(data: Seq<u8>, r: Result<Mesh, Error>) -> bool {
    match obj_parse_spec(data) {
        None => r matches Err(e) && e == Error::ParseError,
        Some(ms) => if ms.len() == 0 || ms[0].positions.len() < 3 {
            r matches Err(e) && e == Error::EmptyMeshError
        } else if !obj_all_valid(ms) {
            r matches Err(e) && e == Error::ParseError
        } else if !obj_has_triangles(ms) {
            r matches Err(e) && e == Error::EmptyMeshError
        } else {
            r matches Ok(m) && m@ == obj_mesh_spec(ms) && m.wf()
        },
    }
}

impl Mesh {
    /// Load a mesh from OBJ data.
    ///
    /// The source must already be triangulated and single-indexed; the
    /// indices of every model are expanded back into the flat per-triangle
    /// representation.  Where a model carries no normals they are computed
    /// from the corners; the `recalc_normals` flag changes nothing here.
    /// A source without models or whose first model lacks a full position
    /// triple fails with `EmptyMeshError`, as does one with zero
    /// triangles; malformed data and out-of-range indices fail with
    /// `ParseError`.
    #[verifier::rlimit(100)]
    #[verifier::spinoff_prover]
    pub fn from_obj(data: &[u8], recalc_normals: bool) -> (r: Result<Mesh, Error>)
        ensures
            obj_result_spec(data@, r),
    {
        let _ = recalc_normals;
        let models = match read_obj_models(data) {
            Some(v) => v,
            None => return Err(Error::ParseError),
        };
        let ghost ms = raw_models_view(models@);
        if models.len() == 0 {
            return Err(Error::EmptyMeshError);
        }
        if models[0].positions.len() < 3 {
            return Err(Error::EmptyMeshError);
        }
        let mut any_tris = false;
        let mut j: usize = 0;
        while j < models.len()
            invariant
                0 <= j <= models@.len(),
                ms == raw_models_view(models@),
                obj_parse_spec(data@) == Some(ms),
                ms.len() > 0,
                ms[0].positions.len() >= 3,
                forall|q: int| 0 <= q < j ==> obj_model_valid(#[trigger] ms[q]),
                any_tris == exists|q: int|
                    0 <= q < j && (#[trigger] ms[q]).indices.len() > 0,
            decreases models@.len() - j,
        {
            let mm = &models[j];
            if mm.indices.len() % 3 != 0 {
                proof {
                    assert(!obj_model_valid(ms[j as int]));
                }
                return Err(Error::ParseError);
            }
            if mm.indices.len() > 0 {
                any_tris = true;
            }
            let mut i: usize = 0;
            while i < mm.indices.len()
                invariant
                    0 <= i <= mm.indices@.len(),
                    0 <= j < models@.len(),
                    mm == &models[j as int],
                    ms == raw_models_view(models@),
                    obj_parse_spec(data@) == Some(ms),
                    ms.len() > 0,
                    ms[0].positions.len() >= 3,
                    forall|q: int|
                        0 <= q < i ==> {
                            let idx = (#[trigger] ms[j as int].indices[q]) as int;
                            3 * idx + 3 <= ms[j as int].positions.len() && (ms[
                                j as int
                            ].normals.len() > 0 ==> 3 * idx + 3 <= ms[j as int].normals.len())
                        },
                decreases mm.indices@.len() - i,
            {
                let idx = mm.indices[i] as usize;
                if !index_triple_fits(idx, mm.positions.len()) {
                    proof {
                        assert(!obj_model_valid(ms[j as int]));
                    }
                    return Err(Error::ParseError);
                }
                if mm.normals.len() > 0 && !index_triple_fits(idx, mm.normals.len()) {
                    proof {
                        assert(!obj_model_valid(ms[j as int]));
                    }
                    return Err(Error::ParseError);
                }
                i = i + 1;
            }
            proof {
                assert(ms[j as int] == models@[j as int]@);
                assert(ms[j as int].indices == mm.indices@);
            }
            j = j + 1;
        }
        if !any_tris {
            return Err(Error::EmptyMeshError);
        }
        proof {
            assert(obj_all_valid(ms));
        }
        let seed = obj_read_pos3(&models[0], 0);
        let mut mesh = Mesh {
            vertices: Vec::new(),
            normals: Vec::new(),
            indices: Vec::new(),
            bounds: BoundingBox::new(&seed),
            stl_had_normals: true,
        };
        proof {
            assert(mesh@.vertices =~= initial_mesh_view(seed, true).vertices);
            assert(mesh@.normals =~= initial_mesh_view(seed, true).normals);
            assert(mesh@ == obj_models_upto(initial_mesh_view(seed, true), ms, 0));
        }
        let ghost m0 = initial_mesh_view(seed, true);
        let mut j: usize = 0;
        while j < models.len()
            invariant
                0 <= j <= models@.len(),
                ms == raw_models_view(models@),
                obj_parse_spec(data@) == Some(ms),
                ms.len() > 0,
                ms[0].positions.len() >= 3,
                obj_all_valid(ms),
                obj_has_triangles(ms),
                m0 == initial_mesh_view(obj_pos3(ms[0], 0), true),
                mesh@ == obj_models_upto(m0, ms, j as int),
                mesh@.wf(),
            decreases models@.len() - j,
        {
            let mm = &models[j];
            proof {
                assert(ms[j as int] == models@[j as int]@);
                assert(obj_model_valid(mm@));
            }
            absorb_obj_model(&mut mesh, mm);
            j = j + 1;
        }
        proof {
            assert(mesh@ == obj_mesh_spec(ms));
            assert(obj_has_triangles(ms));
            let w = choose|q: int| 0 <= q < ms.len() && (#[trigger] ms[q]).indices.len() > 0;
            lemma_obj_models_upto_counts(m0, ms, ms.len() as int);
            assert(mesh@.vertices.len() > 0);
        }
        Ok(mesh)
    }
}

/// The step an OBJ triangle makes equals one append of its decoded
/// corners and normals.
proof fn lemma_obj_step_is_append(
    acc: MeshView,
    m: ObjModelV,
    t: int,
    v0: Vec3,
    v1: Vec3,
    v2: Vec3,
    n0: Vec3,
    n1: Vec3,
    n2: Vec3,
    has_file: bool,
)
    requires
        v0 == obj_pos3(m, m.indices[3 * t] as int),
        v1 == obj_pos3(m, m.indices[3 * t + 1] as int),
        v2 == obj_pos3(m, m.indices[3 * t + 2] as int),
        has_file == (m.normals.len() > 0),
        has_file ==> n0 == obj_norm3(m, m.indices[3 * t] as int) && n1 == obj_norm3(
            m,
            m.indices[3 * t + 1] as int,
        ) && n2 == obj_norm3(m, m.indices[3 * t + 2] as int),
        !has_file ==> ({
            let n = computed_normal_spec(Triangle { normal: Vec3::zero_spec(), v0, v1, v2 });
            n0 == n && n1 == n && n2 == n
        }),
    ensures
        obj_tri_step(acc, m, t) == append_tri_spec(acc, v0, v1, v2, n0, n1, n2, has_file),
{
    assert(obj_tri_step(acc, m, t).normals =~= append_tri_spec(
        acc,
        v0,
        v1,
        v2,
        n0,
        n1,
        n2,
        has_file,
    ).normals);
}

/// Expand one valid OBJ model's triangles into the mesh.
#[verifier::rlimit(100)]
#[verifier::spinoff_prover]
fn absorb_obj_model(mesh: &mut Mesh, mm: &RawObjModel)
    requires
        old(mesh)@.wf(),
        obj_model_valid(mm@),
    ensures
        final(mesh)@ == obj_model_upto(old(mesh)@, mm@, mm@.indices.len() as int / 3),
        final(mesh)@.wf(),
{
    let ghost acc = mesh@;
    let tri_count = mm.indices.len() / 3;
    proof {
        vstd::arithmetic::div_mod::lemma_fundamental_div_mod(mm.indices@.len() as int, 3);
        assert(3 * (tri_count as int) == mm.indices@.len());
    }
    let mut t: usize = 0;
    while t < tri_count
        invariant
            0 <= t <= tri_count,
            tri_count == mm.indices@.len() / 3,
            3 * tri_count == mm.indices@.len(),
            mm.indices@.len() <= usize::MAX,
            obj_model_valid(mm@),
            mesh@ == obj_model_upto(acc, mm@, t as int),
            mesh@.wf(),
        decreases tri_count - t,
    {
        let base = 3 * t;
        let i0 = mm.indices[base] as usize;
        let i1 = mm.indices[base + 1] as usize;
        let i2 = mm.indices[base + 2] as usize;
        let v0 = obj_read_pos3(mm, i0);
        let v1 = obj_read_pos3(mm, i1);
        let v2 = obj_read_pos3(mm, i2);
        let ghost old_view = mesh@;
        let ghost step = obj_tri_step(mesh@, mm@, t as int);
        let has_file = mm.normals.len() > 0;
        let (n0, n1, n2) = if has_file {
            (obj_read_norm3(mm, i0), obj_read_norm3(mm, i1), obj_read_norm3(mm, i2))
        } else {
            let n = normal(&Triangle { normal: Vec3::zero(), v0, v1, v2 });
            (n.normal, n.normal, n.normal)
        };
        mesh.push_tri_data(v0, v1, v2, n0, n1, n2, has_file);
        proof {
            lemma_obj_step_is_append(
                old_view,
                mm@,
                t as int,
                v0,
                v1,
                v2,
                n0,
                n1,
                n2,
                has_file,
            );
            assert(mesh@ == step);
        }
        t = t + 1;
    }
}

/// Absorbing models only appends: the vertex count after `j` models is the
/// count before plus three per triangle, so it grows with every model that
/// holds a triangle.
#[verifier::rlimit(100)]
#[verifier::spinoff_prover]
proof fn lemma_obj_models_upto_counts(m0: MeshView, ms: Seq<ObjModelV>, j: int)
    requires
        0 <= j <= ms.len(),
        obj_all_valid(ms),
    ensures
        obj_models_upto(m0, ms, j).vertices.len() >= m0.vertices.len(),
        forall|q: int|
            0 <= q < j && (#[trigger] ms[q]).indices.len() > 0 ==> obj_models_upto(
                m0,
                ms,
                j,
            ).vertices.len() > 0,
    decreases j,
{
    if j > 0 {
        lemma_obj_models_upto_counts(m0, ms, j - 1);
        lemma_obj_model_upto_counts(
            obj_models_upto(m0, ms, j - 1),
            ms[j - 1],
            ms[j - 1].indices.len() as int / 3,
        );
        if ms[j - 1].indices.len() > 0 {
            assert(obj_model_valid(ms[j - 1]));
            vstd::arithmetic::div_mod::lemma_fundamental_div_mod(
                ms[j - 1].indices.len() as int,
                3,
            );
            assert(ms[j - 1].indices.len() as int / 3 > 0);
        }
    }
}

/// Absorbing `k` triangles of one model appends exactly `3 * k` vertices
/// and as many normals.
#[verifier::rlimit(100)]
#[verifier::spinoff_prover]
proof fn lemma_obj_model_upto_counts(acc: MeshView, m: ObjModelV, k: int)
    requires
        0 <= k,
    ensures
        obj_model_upto(acc, m, k).vertices.len() == acc.vertices.len() + 3 * k,
        obj_model_upto(acc, m, k).normals.len() == acc.normals.len() + 3 * k,
    decreases k,
{
    if k > 0 {
        lemma_obj_model_upto_counts(acc, m, k - 1);
    }
}

/// The triangles held by the first `j` OBJ models.
pub open spec fn obj_triangle_count(ms: Seq<ObjModelV>, j: int) -> int
    decreases j,
{
    if j <= 0 {
        0
    } else {
        obj_triangle_count(ms, j - 1) + ms[j - 1].indices.len() / 3
    }
}

/// Absorbing `j` models appends three vertices and three normals per
/// triangle they hold.
#[verifier::rlimit(100)]
#[verifier::spinoff_prover]
proof fn lemma_obj_models_upto_exact_counts(m0: MeshView, ms: Seq<ObjModelV>, j: int)
    requires
        0 <= j <= ms.len(),
    ensures
        obj_models_upto(m0, ms, j).vertices.len() == m0.vertices.len() + 3 * obj_triangle_count(
            ms,
            j,
        ),
        obj_models_upto(m0, ms, j).normals.len() == m0.normals.len() + 3 * obj_triangle_count(
            ms,
            j,
        ),
    decreases j,
{
    if j > 0 {
        lemma_obj_models_upto_exact_counts(m0, ms, j - 1);
        lemma_obj_model_upto_counts(
            obj_models_upto(m0, ms, j - 1),
            ms[j - 1],
            ms[j - 1].indices.len() as int / 3,
        );
    }
}

/// For an OBJ source of `N` triangles over all its models, ingestion
/// yields exactly `3 * N` vertices and `3 * N` normals.
pub proof fn lemma_obj_ingestion_counts(ms: Seq<ObjModelV>)
    requires
        ms.len() > 0,
    ensures
        obj_mesh_spec(ms).vertices.len() == 3 * obj_triangle_count(ms, ms.len() as int),
        obj_mesh_spec(ms).normals.len() == 3 * obj_triangle_count(ms, ms.len() as int),
{
    lemma_obj_models_upto_exact_counts(
        initial_mesh_view(obj_pos3(ms[0], 0), true),
        ms,
        ms.len() as int,
    );
}

/// A component at least a third of the L1 norm scales to a nonzero value.
proof fn lemma_scaled_component_nonzero(c: int, l: int)
    requires
        l > 0,
        abs(c) * 3 >= l,
    ensures
        div_trunc(c * SCALE, l) != 0,
{
    assert(abs(c) * SCALE >= l) by (nonlinear_arith)
        requires
            abs(c) * 3 >= l,
            l > 0,
            SCALE >= 3,
    ;
    let a = abs(c) * SCALE as int;
    lemma_div_is_ordered(l, a, l);
    vstd::arithmetic::div_mod::lemma_div_by_self(l);
    assert(a / l >= 1);
    if c > 0 {
        assert(c * SCALE == a);
        assert(div_trunc(c * SCALE, l) == a / l);
    } else {
        assert(c < 0);
        assert((c * SCALE) * -1 == a) by (nonlinear_arith)
            requires
                c < 0,
                a == abs(c) * (SCALE as int),
        ;
        assert(div_trunc(c * SCALE, l) == (a / l) * -1);
    }
}

/// The model formats this library ingests.
#[derive(Clone, Copy, Debug, PartialEq, Eq, Structural)]
pub enum ModelFormat {
    Stl,
    Obj,
    ThreeMf,
}

/// The format a source name selects: the stdin sentinel `-` streams STL;
/// otherwise the filename extension decides, case-insensitively, and an
/// unrecognized or missing extension selects nothing.
pub open spec fn source_format_spec(name: Seq<char>) -> Option<ModelFormat> {
    if name.len() == 1 && name[0] == '-' {
        Some(ModelFormat::Stl)
    } else {
        match file_extension_spec(name) {
            None => None,
            Some(ext) => {
                let l = lower_seq(ext);
                if l == seq!['s', 't', 'l'] {
                    Some(ModelFormat::Stl)
                } else if l == seq!['o', 'b', 'j'] {
                    Some(ModelFormat::Obj)
                } else if l == seq!['3', 'm', 'f'] {
                    Some(ModelFormat::ThreeMf)
                } else {
                    None
                }
            },
        }
    }
}

/// What loading a named source must return: the format the name selects
/// decides which loader's contract applies; a name selecting none fails
/// with `FormatError`.
pub open spec fn load_result_spec(
    name: Seq<char>,
    data: Seq<u8>,
    recalc: bool,
    r: Result<Mesh, Error>,
) -> bool {
    match source_format_spec(name) {
        None => r matches Err(e) && e == Error::FormatError,
        Some(ModelFormat::Stl) => stl_result_spec(data, recalc, r),
        Some(ModelFormat::Obj) => obj_result_spec(data, r),
        Some(ModelFormat::ThreeMf) => threemf_result_spec(data, r),
    }
}

/// The format a source name selects, or `None` for an unrecognized one.
pub fn source_format(model_filename: &str) -> (r: Option<ModelFormat>)
    ensures
        r == source_format_spec(model_filename@),
{
    if model_filename.unicode_len() == 1 {
        if model_filename.get_char(0) == '-' {
            return Some(ModelFormat::Stl);
        }
    }
    let ext = match file_extension(model_filename) {
        Some(e) => e,
        None => {
            return None;
        },
    };
    proof {
        reveal_strlit("stl");
        reveal_strlit("obj");
        reveal_strlit("3mf");
        assert("stl"@ =~= seq!['s', 't', 'l']);
        assert("obj"@ =~= seq!['o', 'b', 'j']);
        assert("3mf"@ =~= seq!['3', 'm', 'f']);
    }
    if str_eq_lower(ext, "stl") {
        Some(ModelFormat::Stl)
    } else if str_eq_lower(ext, "obj") {
        Some(ModelFormat::Obj)
    } else if str_eq_lower(ext, "3mf") {
        Some(ModelFormat::ThreeMf)
    } else {
        None
    }
}

impl Mesh {
    /// Load a mesh from model data named by `model_filename`.
    ///
    /// The format is selected by the filename extension, or fixed to STL
    /// for the stdin sentinel `-`; an unrecognized extension fails with
    /// `FormatError`.  The caller supplies the bytes; reading the file or
    /// the standard input is its concern.
    pub fn load(model_filename: &str, data: &[u8], recalc_normals: bool) -> (r: Result<
        Mesh,
        Error,
    >)
        ensures
            load_result_spec(model_filename@, data@, recalc_normals, r),
    {
        match source_format(model_filename) {
            None => Err(Error::FormatError),
            Some(ModelFormat::Stl) => Mesh::from_stl(data, recalc_normals),
            Some(ModelFormat::Obj) => Mesh::from_obj(data, recalc_normals),
            Some(ModelFormat::ThreeMf) => Mesh::from_3mf(data, recalc_normals),
        }
    }
}

/// `BoundingBox.min <= BoundingBox.max` holds componentwise for every
/// mesh that ingestion returns.
pub proof fn lemma_mesh_bounds_ordered(m: Mesh)
    requires
        m.wf(),
    ensures
        m.bounds.min.x <= m.bounds.max.x,
        m.bounds.min.y <= m.bounds.max.y,
        m.bounds.min.z <= m.bounds.max.z,
{
}

/// Requesting recalculation makes the stored normal the cross-product
/// value exactly, whatever normal the source supplied.
pub proof fn lemma_recalc_normal_is_computed(t: Triangle)
    ensures
        chosen_normal_spec(t, true) == computed_normal_spec(t),
{
}

/// Loading byte-identical input twice yields identical vertex and normal
/// sequences: ingestion is deterministic.  Any two outcomes that the
/// loading contract admits for one source name and equal bytes agree,
/// in their meshes and in their errors.
pub proof fn lemma_ingestion_deterministic(
    name: Seq<char>,
    d1: Seq<u8>,
    d2: Seq<u8>,
    recalc: bool,
    r1: Result<Mesh, Error>,
    r2: Result<Mesh, Error>,
)
    requires
        d1 == d2,
        load_result_spec(name, d1, recalc, r1),
        load_result_spec(name, d2, recalc, r2),
    ensures
        r1 is Ok <==> r2 is Ok,
        match (r1, r2) {
            (Ok(m1), Ok(m2)) => m1@ == m2@,
            (Err(e1), Err(e2)) => e1 == e2,
            _ => r1 is Ok <==> r2 is Ok,
        },
{
}

} // verus!
