use snake_game::geometry::Coord;
use snake_game::geometry::Pointer;
use snake_game::geometry::Rect;

fn between(x: i64, y: i64) -> Pointer {
    Pointer { x: Coord { whole: x, fraction: true }, y: Coord { whole: y, fraction: true } }
}

#[test]
fn pointer_at_is_exact() {
    let p = Pointer::at(3, -4);
    assert_eq!(p.x, Coord { whole: 3, fraction: false });
    assert_eq!(p.y, Coord { whole: -4, fraction: false });
    assert_eq!(Coord::exact(9), Coord { whole: 9, fraction: false });
}

#[test]
fn rect_contains_its_corners_and_edges() {
    let r = Rect { x: 240, y: 250, width: 120, height: 40 };
    assert!(r.contains(Pointer::at(240, 250)));
    assert!(r.contains(Pointer::at(360, 250)));
    assert!(r.contains(Pointer::at(240, 290)));
    assert!(r.contains(Pointer::at(360, 290)));
    assert!(r.contains(Pointer::at(300, 270)));
}

#[test]
fn rect_excludes_the_pixels_around_it() {
    let r = Rect { x: 240, y: 250, width: 120, height: 40 };
    assert!(!r.contains(Pointer::at(239, 270)));
    assert!(!r.contains(Pointer::at(361, 270)));
    assert!(!r.contains(Pointer::at(300, 249)));
    assert!(!r.contains(Pointer::at(300, 291)));
}

#[test]
fn rect_tells_positions_between_pixels_apart() {
    let r = Rect { x: 240, y: 250, width: 120, height: 40 };
    // Just inside the near edges, and just short of the far ones.
    assert!(r.contains(between(240, 250)));
    assert!(r.contains(between(359, 289)));
    // Past the far edges by less than a pixel.
    assert!(!r.contains(between(360, 270)));
    assert!(!r.contains(between(300, 290)));
    // Short of the near edges by less than a pixel.
    assert!(!r.contains(between(239, 270)));
    assert!(!r.contains(between(300, 249)));
}

#[test]
fn rect_without_extent_contains_its_corner_only() {
    let r = Rect { x: 5, y: 5, width: 0, height: 0 };
    assert!(r.contains(Pointer::at(5, 5)));
    assert!(!r.contains(between(5, 5)));
    assert!(!r.contains(Pointer::at(6, 5)));
    let inverted = Rect { x: 5, y: 5, width: -1, height: 10 };
    assert!(!inverted.contains(Pointer::at(5, 5)));
    assert!(!inverted.contains(Pointer::at(4, 5)));
}

#[test]
fn rect_at_the_ends_of_the_range_does_not_overflow() {
    let r = Rect { x: i64::MAX, y: i64::MIN, width: i64::MAX, height: i64::MAX };
    assert!(r.contains(Pointer::at(i64::MAX, i64::MIN)));
    assert!(r.contains(between(i64::MAX, -2)));
    assert!(!r.contains(between(i64::MAX, -1)));
    assert!(!r.contains(Pointer::at(i64::MAX - 1, i64::MIN)));
}
