use game_of_life::GolBoard;
use game_of_life::GolError;

fn sorted(mut v: Vec<(usize, usize)>) -> Vec<(usize, usize)> {
    v.sort();
    v
}

fn alive_set(b: &GolBoard) -> Vec<(usize, usize)> {
    sorted(b.alive_cells())
}

#[test]
fn new_has_given_dims_and_no_alive_cells() {
    for &(h, w) in &[(0usize, 0usize), (0, 5), (5, 0), (1, 1), (3, 4), (7, 2)] {
        let b = GolBoard::new(h, w);
        assert_eq!(b.dims(), (h, w));
        assert!(b.alive_cells().is_empty());
    }
}

#[test]
fn new_square_is_square() {
    let b = GolBoard::new_square(6);
    assert_eq!(b.dims(), (6, 6));
    assert!(b.alive_cells().is_empty());
}

#[test]
fn alive_cells_are_always_in_bounds() {
    let m = vec![vec![1u8, 1, 1], vec![1, 1, 1]];
    let mut b = GolBoard::from_slice(&m);
    for _ in 0..4 {
        let (h, w) = b.dims();
        for (r, c) in b.alive_cells() {
            assert!(r < h && c < w);
        }
        b.process_step();
    }
}

#[test]
fn dead_board_stays_dead() {
    for &(h, w) in &[(0usize, 0usize), (1, 1), (3, 5), (8, 8)] {
        let mut b = GolBoard::new(h, w);
        b.process_step();
        assert_eq!(b.dims(), (h, w));
        assert!(b.alive_cells().is_empty());
    }
}

#[test]
fn block_is_a_still_life() {
    let block = vec![(1usize, 1usize), (1, 2), (2, 1), (2, 2)];
    let mut b = GolBoard::from_alive_list(4, 4, block.clone()).unwrap();
    b.process_step();
    assert_eq!(alive_set(&b), sorted(block));
}

#[test]
fn blinker_oscillates_with_period_two() {
    let horizontal = vec![(2usize, 1usize), (2, 2), (2, 3)];
    let vertical = vec![(1usize, 2usize), (2, 2), (3, 2)];
    let mut b = GolBoard::from_alive_list(5, 5, horizontal.clone()).unwrap();
    b.process_step();
    assert_eq!(alive_set(&b), sorted(vertical));
    b.process_step();
    assert_eq!(alive_set(&b), sorted(horizontal));
}

#[test]
fn lone_cell_dies_anywhere() {
    for &loc in &[(1usize, 1usize), (0, 0), (2, 0), (0, 2), (2, 2)] {
        let mut b = GolBoard::from_alive_list(3, 3, vec![loc]).unwrap();
        b.process_step();
        assert!(b.alive_cells().is_empty());
    }
    let mut tiny = GolBoard::from_alive_list(1, 1, vec![(0, 0)]).unwrap();
    tiny.process_step();
    assert!(tiny.alive_cells().is_empty());
}

#[test]
fn dead_cell_with_three_neighbors_is_born() {
    let mut b = GolBoard::from_alive_list(3, 3, vec![(0, 0), (0, 1), (1, 0)]).unwrap();
    assert!(!b.is_alive(1, 1));
    b.process_step();
    assert!(b.is_alive(1, 1));
    assert_eq!(alive_set(&b), vec![(0, 0), (0, 1), (1, 0), (1, 1)]);
}

#[test]
fn from_slice_round_trips_nonzero_entries() {
    let m = vec![
        vec![0u8, 1, 0, 0],
        vec![0, 0, 1, 0],
        vec![1, 1, 1, 0],
    ];
    let b = GolBoard::from_slice(&m);
    assert_eq!(b.dims(), (3, 4));
    let mut expected = Vec::new();
    for (r, row) in m.iter().enumerate() {
        for (c, &x) in row.iter().enumerate() {
            if x != 0 {
                expected.push((r, c));
            }
        }
    }
    assert_eq!(alive_set(&b), sorted(expected));
}

#[test]
fn from_slice_truncates_ragged_rows() {
    // Width is the first row's length; longer rows are cut, shorter
    // rows read as Dead past their end.
    let m = vec![vec![1u8, 1], vec![1, 1, 1], vec![1]];
    let b = GolBoard::from_slice(&m);
    assert_eq!(b.dims(), (3, 2));
    assert_eq!(alive_set(&b), vec![(0, 0), (0, 1), (1, 0), (1, 1), (2, 0)]);
}

#[test]
fn from_slice_of_nothing_is_empty() {
    let m: Vec<Vec<u8>> = Vec::new();
    let b = GolBoard::from_slice(&m);
    assert_eq!(b.dims(), (0, 0));
    assert!(b.alive_cells().is_empty());
}

#[test]
fn from_alive_list_rejects_out_of_bounds() {
    let r = GolBoard::from_alive_list(3, 3, vec![(0, 0), (3, 0)]);
    assert_eq!(r.unwrap_err(), GolError::OutOfBounds);
    let r = GolBoard::from_alive_list(3, 3, vec![(0, 5)]);
    assert_eq!(r.unwrap_err(), GolError::OutOfBounds);
    let r = GolBoard::from_alive_list(0, 0, vec![(0, 0)]);
    assert_eq!(r.unwrap_err(), GolError::OutOfBounds);
}

#[test]
fn from_alive_list_collapses_duplicates() {
    let b = GolBoard::from_alive_list(2, 2, vec![(0, 1), (0, 1), (1, 0)]).unwrap();
    assert_eq!(alive_set(&b), vec![(0, 1), (1, 0)]);
}

#[test]
fn out_of_range_lookup_reads_as_dead() {
    let b = GolBoard::from_alive_list(2, 2, vec![(0, 0)]).unwrap();
    assert!(b.is_alive(0, 0));
    assert!(!b.is_alive(0, 1));
    assert!(!b.is_alive(2, 0));
    assert!(!b.is_alive(0, 2));
    assert!(!b.is_alive(100, 100));
}

#[test]
fn neighbor_indices_cover_the_moore_neighborhood() {
    let b = GolBoard::new(3, 3);
    let center = sorted(b.neighbor_indices(1, 1));
    assert_eq!(
        center,
        vec![(0, 0), (0, 1), (0, 2), (1, 0), (1, 2), (2, 0), (2, 1), (2, 2)]
    );
    let corner = sorted(b.neighbor_indices(0, 0));
    assert_eq!(corner, vec![(0, 1), (1, 0), (1, 1)]);
    let edge = sorted(b.neighbor_indices(0, 1));
    assert_eq!(edge, vec![(0, 0), (0, 2), (1, 0), (1, 1), (1, 2)]);
    let lone = GolBoard::new(1, 1);
    assert!(lone.neighbor_indices(0, 0).is_empty());
}
