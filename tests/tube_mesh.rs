use glider::tube::{triangles_of, tube_indices, vertex_count};

#[test]
fn open_tube_indices() {
    let r = tube_indices(2, 3, false);
    assert_eq!(
        r,
        vec![0, 4, 1, 4, 5, 1, 1, 5, 2, 5, 6, 2, 2, 6, 3, 6, 7, 3]
    );
}

#[test]
fn wrapped_tube_joins_last_row_to_first() {
    let r = tube_indices(2, 3, true);
    assert_eq!(r.len(), 36);
    assert_eq!(
        r[18..].to_vec(),
        vec![4, 0, 5, 0, 1, 5, 5, 1, 6, 1, 2, 6, 6, 2, 7, 2, 3, 7]
    );
}

#[test]
fn tube_counts_follow_rows_and_columns() {
    for rows in 0..6usize {
        for cols in 0..5u32 {
            let open = tube_indices(rows, cols, false);
            let wrapped = tube_indices(rows, cols, true);
            let v = vertex_count(rows, cols);
            assert_eq!(v, rows * (cols as usize + 1));
            let open_tris = if rows == 0 { 0 } else { (rows - 1) * cols as usize * 2 };
            assert_eq!(open.len(), 3 * open_tris);
            assert_eq!(wrapped.len(), 3 * rows * cols as usize * 2);
            assert!(open.iter().all(|&i| (i as usize) < v));
            assert!(wrapped.iter().all(|&i| (i as usize) < v));
        }
    }
}

#[test]
fn eleven_rows_of_three_columns() {
    assert_eq!(vertex_count(11, 3), 44);
    assert_eq!(tube_indices(11, 3, false).len() / 3, 60);
    assert_eq!(tube_indices(11, 3, true).len() / 3, 66);
}

#[test]
fn single_row_has_no_open_band() {
    assert!(tube_indices(1, 3, false).is_empty());
    assert!(tube_indices(0, 3, true).is_empty());
}

#[test]
fn triangles_group_indices_by_three() {
    let t = triangles_of(&vec![0, 4, 1, 4, 5, 1, 9]);
    assert_eq!(t, vec![(0, 4, 1), (4, 5, 1)]);
    assert!(triangles_of(&vec![]).is_empty());
}
