use stl_thumb::error::Error;
use stl_thumb::fixed::SCALE;
use stl_thumb::mesh::Mesh;

#[test]
fn obj_single_triangle_computed_normal() {
    let text = b"v 0 0 0\nv 1 0 0\nv 0 1 0\nf 1 2 3\n";
    let mesh = Mesh::from_obj(text, false).expect("obj must load");
    assert_eq!(mesh.vertices.len(), 3);
    assert_eq!(mesh.normals.len(), 3);
    assert_eq!(mesh.vertices[1].position.x, SCALE);
    assert_eq!(mesh.vertices[2].position.y, SCALE);
    let n = mesh.normals[0].normal;
    assert_eq!((n.x, n.y, n.z), (0, 0, SCALE));
    assert!(!mesh.had_normals());
}

#[test]
fn obj_with_file_normals() {
    let text = b"v 0 0 0\nv 1 0 0\nv 0 1 0\n\
        vn 0 1 0\nvn 0 1 0\nvn 0 1 0\n\
        f 1//1 2//2 3//3\n";
    let mesh = Mesh::from_obj(text, false).expect("obj must load");
    assert_eq!(mesh.vertices.len(), 3);
    let n = mesh.normals[0].normal;
    assert_eq!((n.x, n.y, n.z), (0, SCALE, 0));
    assert!(mesh.had_normals());
}

#[test]
fn obj_two_triangles_counts() {
    let text = b"v 0 0 0\nv 1 0 0\nv 0 1 0\nv 1 1 0\nf 1 2 3\nf 2 4 3\n";
    let mesh = Mesh::from_obj(text, false).expect("obj must load");
    assert_eq!(mesh.vertices.len(), 6);
    assert_eq!(mesh.normals.len(), 6);
}

#[test]
fn obj_quad_triangulated() {
    let text = b"v 0 0 0\nv 1 0 0\nv 1 1 0\nv 0 1 0\nf 1 2 3 4\n";
    let mesh = Mesh::from_obj(text, false).expect("obj must load");
    assert_eq!(mesh.vertices.len(), 6);
}

#[test]
fn obj_empty_source() {
    match Mesh::from_obj(b"", false) {
        Err(Error::EmptyMeshError) => (),
        other => panic!("expected EmptyMeshError, got {:?}", other.map(|_| "mesh")),
    }
}

#[test]
fn obj_vertices_without_faces() {
    match Mesh::from_obj(b"v 0 0 0\nv 1 0 0\nv 0 1 0\n", false) {
        Err(Error::EmptyMeshError) => (),
        other => panic!("expected EmptyMeshError, got {:?}", other.map(|_| "mesh")),
    }
}

#[test]
fn obj_bounds() {
    let text = b"v -2 0 0\nv 3 0 0\nv 0 5 -1\nf 1 2 3\n";
    let mesh = Mesh::from_obj(text, false).expect("obj must load");
    assert_eq!(mesh.bounds.min.x, -2 * SCALE);
    assert_eq!(mesh.bounds.max.x, 3 * SCALE);
    assert_eq!(mesh.bounds.max.y, 5 * SCALE);
    assert_eq!(mesh.bounds.min.z, -SCALE);
}

#[test]
fn obj_via_load() {
    let text = b"v 0 0 0\nv 1 0 0\nv 0 1 0\nf 1 2 3\n";
    let mesh = Mesh::load("part.obj", text, false).expect("obj must load");
    assert_eq!(mesh.vertices.len(), 3);
    let mesh = Mesh::load("part.OBJ", text, false).expect("obj must load");
    assert_eq!(mesh.vertices.len(), 3);
}
