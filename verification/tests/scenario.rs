use placement_optimization_sim::Error;
use placement_optimization_sim::NumberLine;
use placement_optimization_sim::find_best_path;
use placement_optimization_sim::generate_data;

#[test]
fn generated_points_match_returned_distance() {
    let (points, distance) = generate_data(0, 10, 5, 3).unwrap();
    assert_eq!(points.len(), 5);
    for &p in &points {
        assert!(0 <= p && p < 10);
    }
    assert_eq!(find_best_path(&points, 3), Ok(distance));
}

#[test]
fn unit_range_pins_every_sample() {
    // The only value in [5, 6) is 5, so the sampled set and the distance
    // are fully determined: walk from 0 to 5, no sweep.
    let (points, distance) = generate_data(5, 6, 3, 0).unwrap();
    assert_eq!(points, vec![5, 5, 5]);
    assert_eq!(distance, 5);
}

#[test]
fn zero_count_is_rejected() {
    assert_eq!(generate_data(0, 10, 0, 3), Err(Error::InvalidInput));
}

#[test]
fn inverted_range_is_rejected() {
    assert_eq!(generate_data(10, 0, 5, 3), Err(Error::InvalidInput));
}

#[test]
fn empty_range_is_rejected() {
    assert_eq!(generate_data(5, 5, 3, 0), Err(Error::InvalidInput));
}

#[test]
fn accessors_read_the_configuration() {
    let mut line = NumberLine::new(0, 10, 5, 4);
    assert_eq!(line.get_starting_position(), 5);
    assert_eq!(line.get_end(), 10);
    line.set_starting_position(7);
    assert_eq!(line.get_starting_position(), 7);
    assert_eq!(line.get_end(), 10);
}

#[test]
fn regenerate_uses_the_updated_starting_position() {
    // Every sample from [5, 6) is 5, so the distance is the walk from the
    // current starting position to 5 and nothing else.
    let mut line = NumberLine::new(5, 6, 0, 3);
    assert_eq!(line.regenerate_data(), Ok(5));
    line.set_starting_position(7);
    assert_eq!(line.regenerate_data(), Ok(2));
}

#[test]
fn regenerate_rejects_a_degenerate_configuration() {
    let inverted = NumberLine::new(10, 0, 3, 5);
    assert_eq!(inverted.regenerate_data(), Err(Error::InvalidInput));
    let no_points = NumberLine::new(0, 10, 3, 0);
    assert_eq!(no_points.regenerate_data(), Err(Error::InvalidInput));
}
