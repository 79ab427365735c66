use stl_thumb::fixed::SCALE;
use stl_thumb::geom::Vec3;
use stl_thumb::mesh::Mesh;

fn stl_bytes(tris: &[[[f32; 3]; 3]]) -> Vec<u8> {
    let mut v = vec![0u8; 80];
    v.extend_from_slice(&(tris.len() as u32).to_le_bytes());
    for vs in tris {
        for _ in 0..3 {
            v.extend_from_slice(&0f32.to_le_bytes());
        }
        for vert in vs {
            for c in vert {
                v.extend_from_slice(&c.to_le_bytes());
            }
        }
        v.extend_from_slice(&0u16.to_le_bytes());
    }
    v
}

fn unit_cube_diagonal() -> Mesh {
    // Two triangles spanning the unit cube's full extent on every axis.
    let data = stl_bytes(&[
        [[0.0, 0.0, 0.0], [1.0, 1.0, 0.0], [1.0, 0.0, 1.0]],
        [[0.0, 1.0, 1.0], [1.0, 1.0, 1.0], [0.0, 0.0, 1.0]],
    ]);
    Mesh::from_stl(&data, false).expect("mesh must load")
}

#[test]
fn transform_unit_cube_corners() {
    let mesh = unit_cube_diagonal();
    let t = mesh.scale_and_center();
    assert_eq!(t.longest, SCALE);
    let image_max = t.apply(&mesh.bounds.max);
    assert_eq!((image_max.x, image_max.y, image_max.z), (SCALE, SCALE, SCALE));
    let image_min = t.apply(&mesh.bounds.min);
    assert_eq!((image_min.x, image_min.y, image_min.z), (-SCALE, -SCALE, -SCALE));
}

#[test]
fn transform_center_to_origin() {
    let mesh = unit_cube_diagonal();
    let t = mesh.scale_and_center();
    let center = mesh.bounds.center();
    let image = t.apply(&center);
    assert_eq!((image.x, image.y, image.z), (0, 0, 0));
}

#[test]
fn transform_oblong_box() {
    // A 4 x 2 x 1 box: the x extent is the longest and reaches the cube
    // boundary; the other axes stay inside it.
    let data = stl_bytes(&[
        [[0.0, 0.0, 0.0], [4.0, 2.0, 0.0], [4.0, 0.0, 1.0]],
    ]);
    let mesh = Mesh::from_stl(&data, false).expect("mesh must load");
    let t = mesh.scale_and_center();
    assert_eq!(t.longest, 4 * SCALE);
    let image_max = t.apply(&mesh.bounds.max);
    assert_eq!(image_max.x, SCALE);
    assert_eq!(image_max.y, SCALE / 2);
    assert_eq!(image_max.z, SCALE / 4);
    let inside = t.apply(&Vec3 { x: 3 * SCALE, y: SCALE, z: 0 });
    assert_eq!(inside.x, SCALE / 2);
    assert_eq!(inside.y, 0);
    assert_eq!(inside.z, -SCALE / 4);
}
