use glider::grid::{CellBox, Grid};

fn cell_box(min: (i32, i32, i32), max: (i32, i32, i32)) -> CellBox {
    CellBox { min, max }
}

#[test]
fn query_returns_entries_in_cell_order() {
    let mut g = Grid::new(250);
    assert_eq!(g.cell_size(), 250);
    let boxes = vec![cell_box((0, 0, 0), (1, 0, 0)), cell_box((1, 0, 0), (2, 0, 0))];
    g.insert(&boxes, 0);
    assert_eq!(g.candidates(cell_box((1, 0, 0), (1, 0, 0))), vec![(0, 0), (0, 1)]);
    assert_eq!(
        g.candidates(cell_box((0, 0, 0), (2, 0, 0))),
        vec![(0, 0), (0, 0), (0, 1), (0, 1)]
    );
}

#[test]
fn query_order_is_x_then_y_then_z() {
    let mut g = Grid::new(10);
    g.insert(&vec![cell_box((0, 0, 1), (0, 0, 1))], 0);
    g.insert(&vec![cell_box((0, 1, 0), (0, 1, 0))], 1);
    g.insert(&vec![cell_box((1, 0, 0), (1, 0, 0))], 2);
    g.insert(&vec![cell_box((0, 0, 0), (0, 0, 0))], 3);
    assert_eq!(
        g.candidates(cell_box((0, 0, 0), (1, 1, 1))),
        vec![(3, 0), (0, 0), (1, 0), (2, 0)]
    );
}

#[test]
fn vertical_probe_through_straight_piece_finds_candidates() {
    // A straight piece from (0,0,0) to (500,0,0), 200 wide on each side,
    // filed with cells of 250: x 0..=2, y 0..=0, z -1..=1.
    let mut g = Grid::new(250);
    let boxes = vec![cell_box((0, 0, -1), (2, 0, 1)), cell_box((0, 0, -1), (2, 0, 1))];
    g.insert(&boxes, 0);
    // The ray from (10, 1000, 10) to (10, -1000, 10).
    let hits = g.candidates(cell_box((0, -4, 0), (1, 4, 1)));
    assert!(hits.contains(&(0, 0)));
    assert!(hits.contains(&(0, 1)));
}

#[test]
fn probe_outside_every_box_finds_nothing() {
    let mut g = Grid::new(250);
    let boxes = vec![cell_box((0, 0, -1), (2, 0, 1))];
    g.insert(&boxes, 0);
    // The ray from (10000, 1000, 10) to (10000, -1000, 10).
    assert!(g.candidates(cell_box((40, -4, 0), (40, 4, 1))).is_empty());
}

#[test]
fn empty_query_box_finds_nothing() {
    let mut g = Grid::new(250);
    g.insert(&vec![cell_box((0, 0, 0), (3, 3, 3))], 0);
    assert!(g.candidates(cell_box((2, 0, 0), (1, 3, 3))).is_empty());
}

#[test]
fn negative_cells_are_kept_apart() {
    let mut g = Grid::new(250);
    g.insert(&vec![cell_box((-1, -1, -1), (-1, -1, -1))], 4);
    g.insert(&vec![cell_box((1, 1, 1), (1, 1, 1))], 5);
    assert_eq!(g.candidates(cell_box((-1, -1, -1), (-1, -1, -1))), vec![(4, 0)]);
    assert_eq!(g.candidates(cell_box((1, 1, 1), (1, 1, 1))), vec![(5, 0)]);
    assert!(g.candidates(cell_box((0, 0, 0), (0, 0, 0))).is_empty());
}

#[test]
fn rebuild_files_each_piece_under_its_index() {
    let pieces = vec![
        vec![cell_box((0, 0, 0), (0, 0, 0))],
        vec![cell_box((0, 0, 0), (0, 0, 0)), cell_box((5, 5, 5), (5, 5, 5))],
    ];
    let g = Grid::rebuild(100, &pieces);
    assert_eq!(g.cell_size(), 100);
    assert_eq!(g.candidates(cell_box((0, 0, 0), (0, 0, 0))), vec![(0, 0), (1, 0)]);
    assert_eq!(g.candidates(cell_box((5, 5, 5), (5, 5, 5))), vec![(1, 1)]);
}

#[test]
fn first_hit_is_first_in_query_order() {
    let mut g = Grid::new(250);
    g.insert(&vec![cell_box((1, 0, 0), (1, 0, 0)), cell_box((0, 0, 0), (0, 0, 0))], 2);
    let q = cell_box((0, 0, 0), (1, 0, 0));
    assert_eq!(g.first_hit(q, |e: (usize, usize)| Some(e)), Some((2, 1)));
    assert_eq!(g.first_hit(q, |e: (usize, usize)| if e.1 == 0 { Some(e.1 * 10) } else { None }), Some(0));
    let none: Option<u8> = g.first_hit(q, |_e: (usize, usize)| None);
    assert_eq!(none, None);
}

#[test]
fn first_hit_outside_every_box_tests_nothing() {
    let mut g = Grid::new(250);
    g.insert(&vec![cell_box((0, 0, -1), (2, 0, 1))], 0);
    let r: Option<(usize, usize)> = g.first_hit(cell_box((40, -4, 0), (40, 4, 1)), |_e: (usize, usize)| -> Option<(usize, usize)> {
        panic!("no triangle lies near the probe")
    });
    assert_eq!(r, None);
}
