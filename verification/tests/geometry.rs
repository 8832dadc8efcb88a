use wireworld::area::Area;
use wireworld::direction::Direction;
use wireworld::position::Position;

#[test]
fn area_new_normalizes_its_corners() {
    let a = Area::new(Position { x: 5, y: 1 }, Position { x: 2, y: 3 });
    assert_eq!(a.a, Position { x: 2, y: 1 });
    assert_eq!(a.b, Position { x: 5, y: 3 });
}

#[test]
fn area_contains_is_inclusive_of_both_corners() {
    let a = Area::new(Position { x: 1, y: 1 }, Position { x: 3, y: 4 });
    assert!(a.contains(Position { x: 1, y: 1 }));
    assert!(a.contains(Position { x: 3, y: 4 }));
    assert!(a.contains(Position { x: 2, y: 2 }));
    assert!(!a.contains(Position { x: 0, y: 1 }));
    assert!(!a.contains(Position { x: 4, y: 4 }));
    assert!(!a.contains(Position { x: 2, y: 5 }));
}

#[test]
fn area_size_is_the_corner_difference() {
    let a = Area::new(Position { x: 1, y: 1 }, Position { x: 4, y: 3 });
    assert_eq!(a.size(), Position { x: 3, y: 2 });
    let point = Area::new(Position { x: 2, y: 2 }, Position { x: 2, y: 2 });
    assert_eq!(point.size(), Position { x: 0, y: 0 });
}

#[test]
fn grow_by_one_unit_on_a_point_yields_size_one_by_one() {
    // Positive growth moves only the maximum corner.
    let p = Position { x: 7, y: -2 };
    let grown = Area { a: p, b: p }.grow(Position { x: 1, y: 1 });
    assert_eq!(grown.a, p);
    assert_eq!(grown.b, Position { x: 8, y: -1 });
    assert_eq!(grown.size(), Position { x: 1, y: 1 });
}

#[test]
fn grow_negative_moves_the_minimum_corner_outward() {
    let a = Area::new(Position { x: 2, y: 2 }, Position { x: 4, y: 4 });
    let grown = a.grow(Position { x: -2, y: -1 });
    assert_eq!(grown.a, Position { x: 0, y: 1 });
    assert_eq!(grown.b, Position { x: 4, y: 4 });
}

#[test]
fn clamp_intersects_overlapping_areas() {
    let a = Area::new(Position { x: 1, y: 1 }, Position { x: 6, y: 6 });
    let bound = Area::new(Position { x: 0, y: 3 }, Position { x: 4, y: 9 });
    let c = a.clamp(bound);
    assert_eq!(c.a, Position { x: 1, y: 3 });
    assert_eq!(c.b, Position { x: 4, y: 6 });
}

#[test]
fn clamp_of_a_disjoint_area_is_still_normalized() {
    let a = Area::new(Position { x: 10, y: 10 }, Position { x: 12, y: 12 });
    let bound = Area::new(Position { x: 0, y: 0 }, Position { x: 2, y: 2 });
    let c = a.clamp(bound);
    assert!(c.a.x <= c.b.x && c.a.y <= c.b.y);
    // The degenerate intersection holds no point of the original area.
    assert!(!a.contains(c.a));
}

#[test]
fn area_default_is_the_origin_point() {
    let a = Area::default();
    assert_eq!(a.a, Position { x: 0, y: 0 });
    assert_eq!(a.b, Position { x: 0, y: 0 });
}

#[test]
fn position_min_max_work_componentwise() {
    let p = Position { x: 3, y: -4 };
    let q = Position { x: -1, y: 7 };
    assert_eq!(p.min(q), Position { x: -1, y: -4 });
    assert_eq!(p.max(q), Position { x: 3, y: 7 });
}

#[test]
fn position_abs_flips_negative_components() {
    let p = Position { x: -5, y: 3 };
    assert_eq!(p.abs(), Position { x: 5, y: 3 });
    assert_eq!(Position { x: 0, y: -7 }.abs(), Position { x: 0, y: 7 });
}

#[test]
fn position_default_is_the_origin() {
    assert_eq!(Position::default(), Position { x: 0, y: 0 });
    assert_eq!(Position::new(4, -2), Position { x: 4, y: -2 });
}

#[test]
fn directions_enumerate_clockwise_from_north() {
    for i in 0..8 {
        let d = Direction::from_index(i);
        assert_eq!(d.index(), i);
    }
    assert_eq!(Direction::North.vec(), Position { x: 0, y: 1 });
    assert_eq!(Direction::SouthWest.vec(), Position { x: -1, y: -1 });
    assert_eq!(Direction::East.vec(), Position { x: 1, y: 0 });
}

#[test]
fn direction_neg_is_the_reverse() {
    for i in 0..8 {
        let d = Direction::from_index(i);
        let r = d.neg();
        assert_eq!(r.index(), (i + 4) % 8);
        let v = d.vec();
        let w = r.vec();
        assert_eq!(w, Position { x: -v.x, y: -v.y });
    }
}
