use std::io::Cursor;
use stl_thumb::error::Error;
use stl_thumb::fixed::SCALE;
use stl_thumb::mesh::Mesh;
use threemf::model::{
    Build, Mesh as MfMesh, Model, Object, Resources, Triangle as MfTriangle, Triangles, Vertex,
    Vertices,
};

fn vertex(x: f64, y: f64, z: f64) -> Vertex {
    Vertex { x, y, z }
}

fn triangle(v1: usize, v2: usize, v3: usize) -> MfTriangle {
    MfTriangle { v1, v2, v3 }
}

fn mf_mesh(vertices: Vec<Vertex>, triangles: Vec<MfTriangle>) -> MfMesh {
    MfMesh {
        vertices: Vertices { vertex: vertices },
        triangles: Triangles { triangle: triangles },
    }
}

fn object(id: usize, mesh: MfMesh) -> Object {
    Object {
        id,
        partnumber: None,
        name: None,
        pid: None,
        pindex: None,
        mesh: Some(mesh),
        components: None,
    }
}

fn container(objects: Vec<Object>) -> Vec<u8> {
    let model = Model {
        resources: Resources { object: objects, basematerials: None },
        build: Build { item: vec![] },
        ..Default::default()
    };
    let mut buf = Cursor::new(Vec::new());
    threemf::write(&mut buf, model).expect("writing the container must work");
    buf.into_inner()
}

#[test]
fn threemf_single_triangle() {
    let data = container(vec![object(
        1,
        mf_mesh(
            vec![vertex(0.0, 0.0, 0.0), vertex(1.0, 0.0, 0.0), vertex(0.0, 1.0, 0.0)],
            vec![triangle(0, 1, 2)],
        ),
    )]);
    let mesh = Mesh::from_3mf(&data, false).expect("container must load");
    assert_eq!(mesh.vertices.len(), 3);
    assert_eq!(mesh.normals.len(), 3);
    assert_eq!(mesh.vertices[1].position.x, SCALE);
    // 3MF carries no normals: they are always computed.
    let n = mesh.normals[0].normal;
    assert_eq!((n.x, n.y, n.z), (0, 0, SCALE));
    assert!(!mesh.had_normals());
}

#[test]
fn threemf_objects_unioned() {
    let data = container(vec![
        object(
            1,
            mf_mesh(
                vec![vertex(0.0, 0.0, 0.0), vertex(1.0, 0.0, 0.0), vertex(0.0, 1.0, 0.0)],
                vec![triangle(0, 1, 2)],
            ),
        ),
        object(
            2,
            mf_mesh(
                vec![vertex(0.0, 0.0, 2.0), vertex(1.0, 0.0, 2.0), vertex(0.0, 1.0, 2.0)],
                vec![triangle(0, 1, 2)],
            ),
        ),
    ]);
    let mesh = Mesh::from_3mf(&data, false).expect("container must load");
    assert_eq!(mesh.vertices.len(), 6);
    assert_eq!(mesh.bounds.min.z, 0);
    assert_eq!(mesh.bounds.max.z, 2 * SCALE);
}

#[test]
fn threemf_zero_triangles() {
    let data = container(vec![object(1, mf_mesh(vec![vertex(0.0, 0.0, 0.0)], vec![]))]);
    match Mesh::from_3mf(&data, false) {
        Err(Error::EmptyMeshError) => (),
        other => panic!("expected EmptyMeshError, got {:?}", other.map(|_| "mesh")),
    }
}

#[test]
fn threemf_garbage_parse_error() {
    match Mesh::from_3mf(b"not a zip archive", false) {
        Err(Error::ParseError) => (),
        other => panic!("expected ParseError, got {:?}", other.map(|_| "mesh")),
    }
}

#[test]
fn threemf_via_load() {
    let data = container(vec![object(
        1,
        mf_mesh(
            vec![vertex(0.0, 0.0, 0.0), vertex(1.0, 0.0, 0.0), vertex(0.0, 1.0, 0.0)],
            vec![triangle(0, 1, 2)],
        ),
    )]);
    let mesh = Mesh::load("widget.3mf", &data, false).expect("container must load");
    assert_eq!(mesh.vertices.len(), 3);
}
