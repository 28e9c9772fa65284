use cube_demo::mesh::{gather_vertices, mesh_arrays_fit};

#[test]
fn vertices_without_normals() {
    let positions = vec![1, 2, 3, 4, 5, 6];
    let texcoords = vec![10, 11, 12, 13];
    let r = gather_vertices(&positions, &texcoords, &Vec::new());
    assert_eq!(r.len(), 2);
    assert_eq!(r[0].position, [1, 2, 3]);
    assert_eq!(r[0].tex_coords, [10, 11]);
    assert_eq!(r[0].normal, None);
    assert_eq!(r[1].position, [4, 5, 6]);
    assert_eq!(r[1].tex_coords, [12, 13]);
    assert_eq!(r[1].normal, None);
}

#[test]
fn vertices_with_normals() {
    let positions = vec![0.5f32, 1.0, 1.5, 2.0, 2.5, 3.0];
    let texcoords = vec![0.0f32, 0.25, 0.5, 0.75];
    let normals = vec![0.0f32, 0.0, 1.0, 0.0, 1.0, 0.0];
    let r = gather_vertices(&positions, &texcoords, &normals);
    assert_eq!(r.len(), 2);
    assert_eq!(r[0].normal, Some([0.0, 0.0, 1.0]));
    assert_eq!(r[1].normal, Some([0.0, 1.0, 0.0]));
    assert_eq!(r[1].position, [2.0, 2.5, 3.0]);
    assert_eq!(r[1].tex_coords, [0.5, 0.75]);
}

#[test]
fn partial_triple_is_dropped() {
    let positions = vec![1u32, 2, 3, 4, 5];
    let texcoords = vec![7u32, 8];
    let r = gather_vertices(&positions, &texcoords, &Vec::new());
    assert_eq!(r.len(), 1);
    assert_eq!(r[0].position, [1, 2, 3]);
}

#[test]
fn empty_mesh() {
    let r = gather_vertices::<u8>(&Vec::new(), &Vec::new(), &Vec::new());
    assert!(r.is_empty());
}

#[test]
fn arrays_fit_cases() {
    assert!(mesh_arrays_fit(6, 4, 0));
    assert!(mesh_arrays_fit(6, 4, 6));
    assert!(!mesh_arrays_fit(6, 3, 0));
    assert!(!mesh_arrays_fit(6, 4, 5));
    assert!(mesh_arrays_fit(0, 0, 0));
    assert!(mesh_arrays_fit(5, 2, 3));
}
