use paperacers::GridPos;

fn p(x: i32, y: i32) -> GridPos {
    GridPos { x, y }
}

#[test]
fn no_point_is_adjacent_to_itself() {
    for q in [p(0, 0), p(5, -3), p(i32::MAX, i32::MIN)] {
        assert!(!q.is_adjacent(q));
        assert!(q.is_adjacent_or_equal(q));
    }
}

#[test]
fn adjacency_is_symmetric() {
    let pts = [p(0, 0), p(1, 0), p(1, 1), p(-1, 2), p(2, 0), p(i32::MIN, i32::MAX)];
    for a in pts {
        for b in pts {
            assert_eq!(a.is_adjacent(b), b.is_adjacent(a));
        }
    }
}

#[test]
fn king_step_neighbours() {
    let o = p(0, 0);
    assert!(o.is_adjacent(p(1, 0)));
    assert!(o.is_adjacent(p(1, 1)));
    assert!(o.is_adjacent(p(0, 1)));
    assert!(o.is_adjacent(p(-1, -1)));
    assert!(!o.is_adjacent(p(2, 0)));
    assert!(!o.is_adjacent(p(0, 0)));
}

#[test]
fn all_eight_neighbours_and_no_more() {
    let o = p(3, -4);
    let mut count = 0;
    for dx in -2..=2 {
        for dy in -2..=2 {
            if o.is_adjacent(p(3 + dx, -4 + dy)) {
                count += 1;
                assert!(dx.abs() <= 1 && dy.abs() <= 1);
            }
        }
    }
    assert_eq!(count, 8);
}

#[test]
fn adjacent_or_equal_includes_self() {
    assert!(p(0, 0).is_adjacent_or_equal(p(0, 0)));
    assert!(p(0, 0).is_adjacent_or_equal(p(-1, 1)));
    assert!(!p(0, 0).is_adjacent_or_equal(p(0, 2)));
}

#[test]
fn adjacency_far_apart_does_not_overflow() {
    assert!(!p(i32::MAX, 0).is_adjacent(p(i32::MIN, 0)));
    assert!(!p(0, i32::MIN).is_adjacent_or_equal(p(0, i32::MAX)));
}
