use stl_thumb::fixed::SCALE;
use stl_thumb::geom::{BoundingBox, Vec3};
use stl_thumb::mesh::{normal, Mesh, Triangle, Vertex};

fn v(x: i64, y: i64, z: i64) -> Vec3 {
    Vec3 { x, y, z }
}

#[test]
fn bounding_box_expand() {
    let mut b = BoundingBox::new(&v(0, 0, 0));
    assert_eq!(b.min, v(0, 0, 0));
    assert_eq!(b.max, v(0, 0, 0));
    b.expand(&v(5, -3, 2));
    assert_eq!(b.min, v(0, -3, 0));
    assert_eq!(b.max, v(5, 0, 2));
    b.expand(&v(1, 1, 1));
    assert_eq!(b.min, v(0, -3, 0));
    assert_eq!(b.max, v(5, 1, 2));
}

#[test]
fn bounding_box_center_truncates() {
    let b = BoundingBox { min: v(0, -3, 1), max: v(5, 0, 2) };
    let c = b.center();
    assert_eq!(c, v(2, -1, 1));
    assert_eq!(b.length(), 5);
    assert_eq!(b.width(), 3);
    assert_eq!(b.height(), 1);
}

#[test]
fn computed_normal_degenerate_triangle() {
    // Collinear corners: the cross product vanishes, so the computed
    // normal is the zero vector.
    let t = Triangle {
        normal: v(0, 0, 0),
        v0: v(0, 0, 0),
        v1: v(SCALE, 0, 0),
        v2: v(2 * SCALE, 0, 0),
    };
    let n = normal(&t);
    assert_eq!(n.normal, v(0, 0, 0));
}

#[test]
fn computed_normal_l1_scaling() {
    // Cross product (0, -S^2, S^2): the L1 norm is 2 S^2, so each nonzero
    // component scales to half of SCALE, not to the Euclidean unit.
    let t = Triangle {
        normal: v(0, 0, 0),
        v0: v(0, 0, 0),
        v1: v(SCALE, 0, 0),
        v2: v(0, SCALE, SCALE),
    };
    let n = normal(&t);
    assert_eq!(n.normal, v(0, -SCALE / 2, SCALE / 2));
}

#[test]
fn process_tri_appends_three() {
    let seed = v(0, 0, 0);
    let mut mesh = Mesh {
        vertices: Vec::new(),
        normals: Vec::new(),
        indices: Vec::new(),
        bounds: BoundingBox::new(&seed),
        stl_had_normals: true,
    };
    let t = Triangle {
        normal: v(0, 0, SCALE),
        v0: v(0, 0, 0),
        v1: v(SCALE, 0, 0),
        v2: v(0, SCALE, 0),
    };
    mesh.process_tri(&t, false);
    assert_eq!(mesh.vertices.len(), 3);
    assert_eq!(mesh.normals.len(), 3);
    assert_eq!(mesh.vertices[0], Vertex { position: v(0, 0, 0) });
    assert_eq!(mesh.normals[0].normal, v(0, 0, SCALE));
    assert!(mesh.stl_had_normals);
    mesh.process_tri(&t, true);
    assert_eq!(mesh.vertices.len(), 6);
    assert!(!mesh.stl_had_normals);
}
