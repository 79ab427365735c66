use stl_thumb::error::Error;
use stl_thumb::fixed::SCALE;
use stl_thumb::mesh::Mesh;

fn push_f32(v: &mut Vec<u8>, x: f32) {
    v.extend_from_slice(&x.to_le_bytes());
}

/// Binary STL: 80-byte header, little-endian triangle count, then per
/// triangle a normal, three vertices and a 16-bit attribute count.
fn binary_stl(tris: &[([f32; 3], [[f32; 3]; 3])]) -> Vec<u8> {
    let mut v = vec![0u8; 80];
    v.extend_from_slice(&(tris.len() as u32).to_le_bytes());
    for (n, vs) in tris {
        for c in n {
            push_f32(&mut v, *c);
        }
        for vert in vs {
            for c in vert {
                push_f32(&mut v, *c);
            }
        }
        v.extend_from_slice(&0u16.to_le_bytes());
    }
    v
}

fn tri_z() -> ([f32; 3], [[f32; 3]; 3]) {
    ([0.0, 0.0, 1.0], [[0.0, 0.0, 0.0], [1.0, 0.0, 0.0], [0.0, 1.0, 0.0]])
}

/// The twelve triangles of the unit cube.
fn cube_tris() -> Vec<([f32; 3], [[f32; 3]; 3])> {
    let corners = [
        [0.0f32, 0.0, 0.0],
        [1.0, 0.0, 0.0],
        [0.0, 1.0, 0.0],
        [1.0, 1.0, 0.0],
        [0.0, 0.0, 1.0],
        [1.0, 0.0, 1.0],
        [0.0, 1.0, 1.0],
        [1.0, 1.0, 1.0],
    ];
    let faces: [[usize; 3]; 12] = [
        [0, 2, 1],
        [1, 2, 3],
        [4, 5, 6],
        [5, 7, 6],
        [0, 1, 4],
        [1, 5, 4],
        [2, 6, 3],
        [3, 6, 7],
        [0, 4, 2],
        [2, 4, 6],
        [1, 3, 5],
        [3, 7, 5],
    ];
    faces
        .iter()
        .map(|f| ([0.0f32, 0.0, 0.0], [corners[f[0]], corners[f[1]], corners[f[2]]]))
        .collect()
}

#[test]
fn stl_cube_counts() {
    let data = binary_stl(&cube_tris());
    let mesh = Mesh::from_stl(&data, false).expect("cube must load");
    assert_eq!(mesh.vertices.len(), 36);
    assert_eq!(mesh.normals.len(), 36);
    assert_eq!(mesh.bounds.min.x, 0);
    assert_eq!(mesh.bounds.min.y, 0);
    assert_eq!(mesh.bounds.min.z, 0);
    assert_eq!(mesh.bounds.max.x, SCALE);
    assert_eq!(mesh.bounds.max.y, SCALE);
    assert_eq!(mesh.bounds.max.z, SCALE);
}

#[test]
fn stl_bounds_ordered() {
    let data = binary_stl(&[
        ([0.0, 0.0, 1.0], [[-3.5, 2.0, 0.25], [1.0, -7.0, 4.0], [0.5, 1.5, -2.0]]),
        ([0.0, 0.0, 1.0], [[8.0, 0.0, 0.0], [0.0, 9.0, 0.0], [0.0, 0.0, -10.0]]),
    ]);
    let mesh = Mesh::from_stl(&data, false).expect("mesh must load");
    assert!(mesh.bounds.min.x <= mesh.bounds.max.x);
    assert!(mesh.bounds.min.y <= mesh.bounds.max.y);
    assert!(mesh.bounds.min.z <= mesh.bounds.max.z);
    assert_eq!(mesh.bounds.min.x, -7 * SCALE / 2);
    assert_eq!(mesh.bounds.max.y, 9 * SCALE);
    assert_eq!(mesh.bounds.min.z, -10 * SCALE);
}

#[test]
fn stl_deterministic() {
    let data = binary_stl(&cube_tris());
    let a = Mesh::from_stl(&data, false).expect("first load");
    let b = Mesh::from_stl(&data, false).expect("second load");
    assert_eq!(a.vertices.len(), b.vertices.len());
    for i in 0..a.vertices.len() {
        assert_eq!(a.vertices[i], b.vertices[i]);
        assert_eq!(a.normals[i], b.normals[i]);
    }
    assert_eq!(a.bounds.min, b.bounds.min);
    assert_eq!(a.bounds.max, b.bounds.max);
}

#[test]
fn stl_zero_normal_gets_computed() {
    let data = binary_stl(&[([0.0, 0.0, 0.0], tri_z().1)]);
    let mesh = Mesh::from_stl(&data, false).expect("mesh must load");
    let n = mesh.normals[0].normal;
    assert!(n.x != 0 || n.y != 0 || n.z != 0);
    assert_eq!((n.x, n.y, n.z), (0, 0, SCALE));
    assert!(!mesh.had_normals());
}

#[test]
fn stl_supplied_normal_kept() {
    let data = binary_stl(&[([0.0, 1.0, 0.0], tri_z().1)]);
    let mesh = Mesh::from_stl(&data, false).expect("mesh must load");
    let n = mesh.normals[0].normal;
    assert_eq!((n.x, n.y, n.z), (0, SCALE, 0));
    assert!(mesh.had_normals());
}

#[test]
fn stl_recalc_normals_overrides_source() {
    let data = binary_stl(&[([1.0, 0.0, 0.0], tri_z().1)]);
    let kept = Mesh::from_stl(&data, false).expect("mesh must load");
    let n = kept.normals[0].normal;
    assert_eq!((n.x, n.y, n.z), (SCALE, 0, 0));
    let recalc = Mesh::from_stl(&data, true).expect("mesh must load");
    let n = recalc.normals[0].normal;
    assert_eq!((n.x, n.y, n.z), (0, 0, SCALE));
    assert!(!recalc.had_normals());
}

#[test]
fn stl_empty_mesh_error() {
    let data = binary_stl(&[]);
    match Mesh::from_stl(&data, false) {
        Err(Error::EmptyMeshError) => (),
        other => panic!("expected EmptyMeshError, got {:?}", other.map(|_| "mesh")),
    }
}

#[test]
fn stl_truncated_parse_error() {
    let mut data = binary_stl(&[tri_z()]);
    data.truncate(100);
    match Mesh::from_stl(&data, false) {
        Err(Error::ParseError) => (),
        other => panic!("expected ParseError, got {:?}", other.map(|_| "mesh")),
    }
}

#[test]
fn stl_ascii_source() {
    let text = b"solid demo\n\
        facet normal 0 0 1\n\
        outer loop\n\
        vertex 0 0 0\n\
        vertex 1 0 0\n\
        vertex 0 1 0\n\
        endloop\n\
        endfacet\n\
        endsolid demo\n";
    let mesh = Mesh::from_stl(text, false).expect("ascii mesh must load");
    assert_eq!(mesh.vertices.len(), 3);
    assert_eq!(mesh.vertices[1].position.x, SCALE);
    let n = mesh.normals[0].normal;
    assert_eq!((n.x, n.y, n.z), (0, 0, SCALE));
}

#[test]
fn load_dispatches_on_extension() {
    let data = binary_stl(&[tri_z()]);
    assert!(Mesh::load("model.stl", &data, false).is_ok());
    assert!(Mesh::load("MODEL.STL", &data, false).is_ok());
    assert!(Mesh::load("dir.with.dot/model.stl", &data, false).is_ok());
    assert!(Mesh::load("-", &data, false).is_ok());
    match Mesh::load("model.xyz", &data, false) {
        Err(Error::FormatError) => (),
        other => panic!("expected FormatError, got {:?}", other.map(|_| "mesh")),
    }
    match Mesh::load("no_extension", &data, false) {
        Err(Error::FormatError) => (),
        other => panic!("expected FormatError, got {:?}", other.map(|_| "mesh")),
    }
}
