use c60::space::{mean_of, nudge, Point};

#[test]
fn mean_rounds_down() {
    assert_eq!(mean_of(0, 2), 1);
    assert_eq!(mean_of(0, 3), 1);
    assert_eq!(mean_of(-3, 0), -2);
    assert_eq!(mean_of(-1, 0), -1);
    assert_eq!(mean_of(-1, 1), 0);
    assert_eq!(mean_of(-4, -2), -3);
    assert_eq!(mean_of(i64::MAX, i64::MAX), i64::MAX);
    assert_eq!(mean_of(i64::MIN, i64::MIN), i64::MIN);
    assert_eq!(mean_of(i64::MIN, i64::MAX), -1);
    assert_eq!(mean_of(i64::MAX, i64::MAX - 1), i64::MAX - 1);
}

#[test]
fn midpoint_by_coordinate() {
    let a = Point { x: 0, y: 0, z: 0 };
    let b = Point { x: 2_000_000, y: 0, z: 0 };
    assert_eq!(Point::midpoint(a, b), Point { x: 1_000_000, y: 0, z: 0 });
    assert_eq!(Point::midpoint(b, a), Point { x: 1_000_000, y: 0, z: 0 });
    assert_eq!(Point::midpoint(b, b), b);
    let c = Point { x: -5, y: 7, z: -9 };
    let d = Point { x: 5, y: 8, z: -10 };
    assert_eq!(Point::midpoint(c, d), Point { x: 0, y: 7, z: -10 });
}

#[test]
fn nudge_stays_in_range() {
    assert_eq!(nudge(0, 100_000), 100_000);
    assert_eq!(nudge(5, -100_000), -99_995);
    assert_eq!(nudge(i64::MAX, 1), i64::MAX);
    assert_eq!(nudge(i64::MAX - 1, 100_000), i64::MAX);
    assert_eq!(nudge(i64::MIN, -1), i64::MIN);
    assert_eq!(nudge(i64::MIN + 5, -100_000), i64::MIN);
    assert_eq!(nudge(i64::MIN, i64::MAX), -1);
}
