use satisfactory_start_optimizer::spatial::{clamp_cell, BucketGrid};

#[test]
fn clamp_cell_keeps_indices_in_range() {
    assert_eq!(clamp_cell(-5, 8), 0);
    assert_eq!(clamp_cell(0, 8), 0);
    assert_eq!(clamp_cell(7, 8), 7);
    assert_eq!(clamp_cell(8, 8), 7);
    assert_eq!(clamp_cell(isize::MAX, 1), 0);
}

#[test]
fn nodes_are_filed_under_their_clamped_cells() {
    let cells = vec![(0, 0), (2, 1), (-3, 9), (2, 1), (5, -1), (1, 1)];
    let g = BucketGrid::new(3, 2, &cells);
    assert_eq!(g.cols(), 3);
    assert_eq!(g.rows(), 2);
    assert_eq!(g.bucket(0, 0), &vec![0]);
    assert_eq!(g.bucket(1, 2), &vec![1, 3]);
    assert_eq!(g.bucket(1, 0), &vec![2]);
    assert_eq!(g.bucket(0, 2), &vec![4]);
    assert_eq!(g.bucket(1, 1), &vec![5]);
    assert!(g.bucket(0, 1).is_empty());
    let total: usize = (0..2)
        .flat_map(|r| (0..3).map(move |c| (r, c)))
        .map(|(r, c)| g.bucket(r, c).len())
        .sum();
    assert_eq!(total, cells.len());
}

use satisfactory_start_optimizer::sectors::nearest_filled;

#[test]
fn nearest_filled_sectors_wrap_around() {
    let filled = vec![false, true, false, false, true, false];
    assert_eq!(nearest_filled(&filled, 2), (1, 4));
    assert_eq!(nearest_filled(&filled, 0), (4, 1));
    assert_eq!(nearest_filled(&filled, 5), (4, 1));
    let single = vec![false, false, true];
    assert_eq!(nearest_filled(&single, 0), (2, 2));
    assert_eq!(nearest_filled(&single, 2), (2, 2));
}
