use glider::faces::{cube_indices, plane_indices, CUBE_VERTICES};

#[test]
fn single_quad_plane() {
    assert_eq!(plane_indices(1, 1), vec![0, 1, 3, 3, 2, 0]);
}

#[test]
fn plane_quads_run_row_by_row() {
    assert_eq!(
        plane_indices(2, 1),
        vec![0, 1, 4, 4, 3, 0, 1, 2, 5, 5, 4, 1]
    );
    let r = plane_indices(2, 2);
    assert_eq!(r.len(), 24);
    assert_eq!(r[12..18].to_vec(), vec![3, 4, 7, 7, 6, 3]);
    assert!(r.iter().all(|&i| i < 9));
}

#[test]
fn editor_floor_plane_size() {
    let r = plane_indices(100, 100);
    assert_eq!(r.len(), 6 * 100 * 100);
    assert!(r.iter().all(|&i| i < 101 * 101));
    assert_eq!(*r.iter().max().unwrap(), 101 * 101 - 1);
}

#[test]
fn cube_faces_use_four_vertices_each() {
    let r = cube_indices();
    assert_eq!(r.len(), 36);
    assert_eq!(r[0..6].to_vec(), vec![0, 1, 2, 2, 3, 0]);
    assert_eq!(r[30..36].to_vec(), vec![20, 21, 22, 22, 23, 20]);
    assert!(r.iter().all(|&i| (i as usize) < CUBE_VERTICES));
}
