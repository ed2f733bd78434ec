use black_hole::trail::{Point, Trail};

fn point(n: u32) -> Point {
    Point { x: n, y: n + 1000 }
}

#[test]
fn a_new_trail_is_empty() {
    let trail = Trail::new(5);
    assert_eq!(trail.len(), 0);
    assert!(trail.is_empty());
    assert_eq!(trail.capacity(), 5);
    assert_eq!(trail.last(), None);
    assert_eq!(trail.get(0), None);
    assert!(trail.points().is_empty());
}

#[test]
fn points_are_kept_in_insertion_order() {
    let mut trail = Trail::new(5);
    trail.push(point(1));
    trail.push(point(2));
    trail.push(point(3));
    assert_eq!(trail.len(), 3);
    assert_eq!(trail.points(), &vec![point(1), point(2), point(3)]);
    assert_eq!(trail.get(0), Some(point(1)));
    assert_eq!(trail.get(2), Some(point(3)));
    assert_eq!(trail.get(3), None);
    assert_eq!(trail.last(), Some(point(3)));
}

#[test]
fn the_oldest_point_leaves_first() {
    let mut trail = Trail::new(3);
    for n in 0..3 {
        trail.push(point(n));
    }
    assert_eq!(trail.points(), &vec![point(0), point(1), point(2)]);
    trail.push(point(3));
    assert_eq!(trail.points(), &vec![point(1), point(2), point(3)]);
    trail.push(point(4));
    assert_eq!(trail.points(), &vec![point(2), point(3), point(4)]);
    assert_eq!(trail.len(), 3);
}

#[test]
fn the_length_never_passes_the_capacity() {
    let mut trail = Trail::new(800);
    for n in 0..2000 {
        trail.push(point(n));
        assert!(trail.len() <= trail.capacity());
    }
    assert_eq!(trail.len(), 800);
    assert_eq!(trail.get(0), Some(point(1200)));
    assert_eq!(trail.last(), Some(point(1999)));
}

#[test]
fn a_trail_of_capacity_one_holds_the_newest_point() {
    let mut trail = Trail::new(1);
    trail.push(point(7));
    trail.push(point(8));
    assert_eq!(trail.points(), &vec![point(8)]);
}

#[test]
fn a_trail_of_capacity_zero_stays_empty() {
    let mut trail = Trail::new(0);
    trail.push(point(7));
    assert!(trail.is_empty());
    assert_eq!(trail.last(), None);
}
