use placement_optimization_sim::Error;
use placement_optimization_sim::POSITION_LIMIT;
use placement_optimization_sim::find_best_path;

#[test]
fn interior_start_two_points() {
    // min=1, max=10, start=5: left=4, right=5, first=4, sweep=9.
    assert_eq!(find_best_path(&vec![1, 10], 5), Ok(13));
}

#[test]
fn start_left_of_all_points() {
    // min=2, max=8, start=0: left=2, right=8, first=2, sweep=6.
    assert_eq!(find_best_path(&vec![2, 5, 8], 0), Ok(8));
}

#[test]
fn start_right_of_all_points() {
    // min=2, max=8, start=10: the tour is one leftward walk to the minimum.
    assert_eq!(find_best_path(&vec![2, 5, 8], 10), Ok(8));
}

#[test]
fn start_at_an_extreme() {
    // Starting on the minimum leaves only the sweep.
    assert_eq!(find_best_path(&vec![2, 5, 8], 2), Ok(6));
}

#[test]
fn single_point() {
    assert_eq!(find_best_path(&vec![7], 3), Ok(4));
    assert_eq!(find_best_path(&vec![7], 12), Ok(5));
    assert_eq!(find_best_path(&vec![7], 7), Ok(0));
}

#[test]
fn all_points_equal() {
    assert_eq!(find_best_path(&vec![4, 4, 4], 10), Ok(6));
}

#[test]
fn permutation_of_points_changes_nothing() {
    let a = find_best_path(&vec![3, -2, 9, 0], 1);
    let b = find_best_path(&vec![9, 0, 3, -2], 1);
    let c = find_best_path(&vec![0, 9, -2, 3], 1);
    // min=-2, max=9, start=1: left=3, right=8, first=3, sweep=11.
    assert_eq!(a, Ok(14));
    assert_eq!(b, Ok(14));
    assert_eq!(c, Ok(14));
}

#[test]
fn negative_coordinates() {
    // min=-8, max=-2, start=-5: left=3, right=3, first=3, sweep=6.
    assert_eq!(find_best_path(&vec![-2, -8, -5], -5), Ok(9));
}

#[test]
fn widest_allowed_span() {
    let span = 2 * POSITION_LIMIT;
    assert_eq!(
        find_best_path(&vec![-POSITION_LIMIT, POSITION_LIMIT], POSITION_LIMIT),
        Ok(span)
    );
    assert_eq!(
        find_best_path(&vec![-POSITION_LIMIT, POSITION_LIMIT], 0),
        Ok(span + POSITION_LIMIT)
    );
}

#[test]
fn empty_point_set_is_rejected() {
    assert_eq!(find_best_path(&vec![], 3), Err(Error::InvalidInput));
}
