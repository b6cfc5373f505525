use slots_from_hell::geometry::{check_collision, check_room_collision, Point2};

fn p(x: i64, y: i64) -> Point2 {
    Point2 { x, y }
}

#[test]
fn overlapping_boxes_collide() {
    assert!(check_collision(p(0, 0), p(20, 20), p(5, 5), p(20, 20)));
    assert!(check_collision(p(5, 5), p(20, 20), p(0, 0), p(20, 20)));
}

#[test]
fn boxes_touching_at_an_edge_do_not_collide() {
    assert!(!check_collision(p(0, 0), p(20, 20), p(20, 0), p(20, 20)));
    assert!(!check_collision(p(0, 0), p(20, 20), p(0, -20), p(20, 20)));
    assert!(check_collision(p(0, 0), p(20, 20), p(19, 0), p(20, 20)));
}

#[test]
fn rooms_are_tested_with_their_default_extent() {
    assert!(check_room_collision(p(0, 0), p(20, 20), p(1024, 1024)) == false);
    assert!(check_room_collision(p(260, 0), p(20, 20), p(0, 0)));
    assert!(!check_room_collision(p(266, 0), p(20, 20), p(0, 0)));
    assert!(check_collision(p(0, 0), p(20, 20), p(1024, 1024), p(2028, 2028)) == false);
    assert!(check_collision(p(0, 0), p(20, 20), p(1024, 1024), p(2030, 2030)));
}

#[test]
fn overlap_is_symmetric_and_a_box_overlaps_itself() {
    let cases = [
        (p(0, 0), p(20, 20), p(15, -3), p(10, 40)),
        (p(-480, 272), p(64, 480), p(-480, 0), p(64, 64)),
        (p(100, 100), p(0, 10), p(100, 100), p(10, 10)),
    ];
    for (a, sa, b, sb) in cases {
        assert_eq!(check_collision(a, sa, b, sb), check_collision(b, sb, a, sa));
    }
    assert!(check_collision(p(7, 7), p(1, 1), p(7, 7), p(1, 1)));
    assert!(!check_collision(p(7, 7), p(0, 1), p(7, 7), p(0, 1)));
}
