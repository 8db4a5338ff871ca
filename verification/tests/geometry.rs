use timelapse_director::geometry::{point_to_rect_distance_sq, viewport_rect, Rect};

#[test]
fn viewport_rect_centers_exactly() {
    // 240 x 135 centered on the origin: doubled coordinates make the
    // half-size offsets exact even for the odd height.
    let r = viewport_rect(0, 0, 240, 135);
    assert_eq!(r, Rect { x2: -240, y2: -135, w2: 480, h2: 270 });

    let r = viewport_rect(100, -50, 10, 7);
    assert_eq!(r, Rect { x2: 190, y2: -107, w2: 20, h2: 14 });
}

#[test]
fn distance_zero_inside_and_on_boundary() {
    // covers [-5, 5] on each axis
    let r = viewport_rect(0, 0, 10, 10);
    assert_eq!(point_to_rect_distance_sq(0, 0, &r), 0);
    assert_eq!(point_to_rect_distance_sq(3, -4, &r), 0);
    assert_eq!(point_to_rect_distance_sq(5, 5, &r), 0);
    assert_eq!(point_to_rect_distance_sq(-5, 0, &r), 0);
}

#[test]
fn distance_positive_outside() {
    let r = viewport_rect(0, 0, 10, 10);
    // one unit beyond the right edge: true distance 1, doubled squared 4
    assert_eq!(point_to_rect_distance_sq(6, 0, &r), 4);
    // 3 right of and 4 above the corner: true distance 5, doubled squared 100
    assert_eq!(point_to_rect_distance_sq(8, 9, &r), 100);
    // strictly outside is strictly positive
    assert!(point_to_rect_distance_sq(-6, -6, &r) > 0);
}

#[test]
fn distance_is_deterministic() {
    let r = viewport_rect(17, -3, 11, 9);
    let first = point_to_rect_distance_sq(400, 500, &r);
    let second = point_to_rect_distance_sq(400, 500, &r);
    assert_eq!(first, second);
}
