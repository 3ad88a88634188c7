use snake::{collide, Aabb, Collision, Position};

fn boxed(x: i32, y: i32, hw: i32, hh: i32) -> Aabb {
    Aabb::new(Position::new(x, y), hw, hh)
}

#[test]
fn disjoint_boxes_do_not_collide() {
    let a = boxed(0, 0, 10, 10);
    let b = boxed(100, 0, 10, 10);
    assert_eq!(collide(&a, &b), None);
    assert_eq!(collide(&b, &a), None);
}

#[test]
fn touching_edges_count_as_overlap() {
    let a = boxed(0, 0, 10, 10);
    let b = boxed(20, 0, 10, 10);
    assert!(collide(&a, &b).is_some());
    let c = boxed(21, 0, 10, 10);
    assert_eq!(collide(&a, &c), None);
}

#[test]
fn overlap_on_one_axis_only_is_no_collision() {
    let a = boxed(0, 0, 10, 10);
    let b = boxed(5, 50, 10, 10);
    assert_eq!(collide(&a, &b), None);
}

#[test]
fn moving_box_left_of_fixed_strikes_left_side() {
    let moving = boxed(-15, 0, 10, 10);
    let fixed = boxed(0, 0, 5, 50);
    assert_eq!(collide(&moving, &fixed), Some(Collision::Left));
}

#[test]
fn moving_box_right_of_fixed_strikes_right_side() {
    let moving = boxed(15, 0, 10, 10);
    let fixed = boxed(0, 0, 5, 50);
    assert_eq!(collide(&moving, &fixed), Some(Collision::Right));
}

#[test]
fn moving_box_above_fixed_strikes_top() {
    let moving = boxed(0, 15, 10, 10);
    let fixed = boxed(0, 0, 50, 5);
    assert_eq!(collide(&moving, &fixed), Some(Collision::Top));
}

#[test]
fn moving_box_below_fixed_strikes_bottom() {
    let moving = boxed(0, -15, 10, 10);
    let fixed = boxed(0, 0, 50, 5);
    assert_eq!(collide(&moving, &fixed), Some(Collision::Bottom));
}

#[test]
fn equal_offsets_fall_to_the_vertical_sides() {
    let fixed = boxed(0, 0, 5, 5);
    assert_eq!(collide(&boxed(8, 8, 5, 5), &fixed), Some(Collision::Top));
    assert_eq!(collide(&boxed(-8, -8, 5, 5), &fixed), Some(Collision::Bottom));
}

#[test]
fn center_inside_fixed_box_is_bottom() {
    let moving = boxed(1, 2, 10, 10);
    let fixed = boxed(0, 0, 30, 30);
    assert_eq!(collide(&moving, &fixed), Some(Collision::Bottom));
}

#[test]
fn overlap_detection_is_symmetric() {
    let cases = [
        (boxed(0, 0, 10, 10), boxed(20, 0, 10, 10)),
        (boxed(0, 0, 10, 10), boxed(21, 0, 10, 10)),
        (boxed(-15, 3, 10, 10), boxed(0, 0, 5, 50)),
        (boxed(100, 100, 1, 1), boxed(0, 0, 100, 100)),
        (boxed(0, 0, 0, 0), boxed(0, 0, 0, 0)),
        (boxed(-300, 40, 10, 10), boxed(-350, 0, 5, 355)),
    ];
    for (a, b) in cases.iter() {
        assert_eq!(collide(a, b).is_some(), collide(b, a).is_some());
    }
}
