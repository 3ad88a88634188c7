use snake::{
    food_spawn_position, head_hits_food, head_hits_wall, hitbox, Aabb, Position, WallLocation,
};

#[test]
fn walls_sit_on_the_arena_bounds() {
    assert_eq!(WallLocation::Left.position(), Position::new(-350, 0));
    assert_eq!(WallLocation::Right.position(), Position::new(350, 0));
    assert_eq!(WallLocation::Bottom.position(), Position::new(0, -350));
    assert_eq!(WallLocation::Top.position(), Position::new(0, 350));
}

#[test]
fn walls_span_the_arena_plus_one_thickness() {
    assert_eq!(WallLocation::Left.size(), (10, 710));
    assert_eq!(WallLocation::Right.size(), (10, 710));
    assert_eq!(WallLocation::Bottom.size(), (710, 10));
    assert_eq!(WallLocation::Top.size(), (710, 10));
    assert_eq!(WallLocation::Top.collider(), Aabb::new(Position::new(0, 350), 355, 5));
}

#[test]
fn head_hitbox_is_fixed() {
    assert_eq!(hitbox(Position::new(3, 4)), Aabb::new(Position::new(3, 4), 10, 10));
}

#[test]
fn head_touching_a_wall_is_detected() {
    assert!(head_hits_wall(Position::new(-335, 0)));
    assert!(!head_hits_wall(Position::new(-334, 0)));
    assert!(head_hits_wall(Position::new(335, 100)));
    assert!(head_hits_wall(Position::new(10, 335)));
    assert!(head_hits_wall(Position::new(10, -335)));
    assert!(!head_hits_wall(Position::new(0, 0)));
    assert!(head_hits_wall(Position::new(-340, -340)));
}

#[test]
fn head_and_food_use_the_same_hitbox() {
    assert!(head_hits_food(Position::new(0, 0), Position::new(20, 0)));
    assert!(head_hits_food(Position::new(0, 0), Position::new(-20, 20)));
    assert!(!head_hits_food(Position::new(0, 0), Position::new(21, 0)));
}

#[test]
fn ten_thousand_food_spawns_stay_inside_the_inset_arena() {
    for _ in 0..10_000 {
        let p = food_spawn_position();
        assert!(-340 <= p.x && p.x <= 340);
        assert!(-340 <= p.y && p.y <= 340);
    }
}

#[test]
fn food_spawns_are_not_all_at_one_place() {
    let first = food_spawn_position();
    let varied = (0..1000).any(|_| food_spawn_position() != first);
    assert!(varied);
}
