use pathtracer::scene::nearest_hit;

fn key(d: f64) -> Option<u64> {
    Some(d.to_bits())
}

#[test]
fn nearer_of_two_hits() {
    assert_eq!(nearest_hit(&vec![key(4.0), key(2.5)]), Some(1));
    assert_eq!(nearest_hit(&vec![key(2.5), key(4.0)]), Some(0));
}

#[test]
fn none_when_every_shape_is_missed() {
    assert_eq!(nearest_hit(&vec![None, None]), None);
    assert_eq!(nearest_hit(&Vec::new()), None);
}

#[test]
fn missed_shapes_are_skipped() {
    assert_eq!(nearest_hit(&vec![None, key(99999.0), None, key(4.0), None]), Some(3));
    assert_eq!(nearest_hit(&vec![None, key(1e5)]), Some(1));
}

#[test]
fn equal_distances_go_to_the_first() {
    assert_eq!(nearest_hit(&vec![key(7.0), key(3.0), key(3.0)]), Some(1));
    assert_eq!(nearest_hit(&vec![Some(0), Some(0)]), Some(0));
}

#[test]
fn largest_keys() {
    assert_eq!(nearest_hit(&vec![Some(u64::MAX), Some(u64::MAX - 1)]), Some(1));
    assert_eq!(nearest_hit(&vec![key(f64::INFINITY), key(1e300)]), Some(1));
}
