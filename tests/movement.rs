use snake::{Cooldown, Directions, Position, Segment, SegmentList, Snake, MOVE_COOLDOWN_MICROS};

fn up() -> Directions {
    Directions { up: true, down: false, left: false, right: false }
}

fn snake_from(head: (i32, i32), body: &[(i32, i32)]) -> Snake {
    let mut list = SegmentList::new();
    for (i, (x, y)) in body.iter().enumerate() {
        list.push_back(Position::new(*x, *y), (i + 1) as u64);
    }
    Snake::from_parts(Segment { pos: Position::new(head.0, head.1), handle: 0 }, list)
}

fn body_positions(s: &Snake) -> Vec<(i32, i32)> {
    let b = s.body();
    (0..b.len()).map(|i| (b.get(i).pos.x, b.get(i).pos.y)).collect()
}

#[test]
fn pressing_up_shifts_the_body_behind_the_head() {
    let mut s = snake_from((20, 21), &[(20, 23), (20, 26), (20, 30)]);
    let moved = s.advance(MOVE_COOLDOWN_MICROS, up());
    assert!(moved);
    assert_eq!(s.head().pos, Position::new(20, 22));
    assert_eq!(body_positions(&s), vec![(20, 21), (20, 23), (20, 26)]);
}

#[test]
fn no_key_held_changes_no_position_but_resets_the_timer() {
    let mut s = snake_from((20, 21), &[(20, 23), (20, 26)]);
    assert!(!s.advance(MOVE_COOLDOWN_MICROS / 2, Directions::none()));
    assert_eq!(s.cooldown().elapsed, MOVE_COOLDOWN_MICROS / 2);
    let moved = s.advance(MOVE_COOLDOWN_MICROS, Directions::none());
    assert!(!moved);
    assert_eq!(s.head().pos, Position::new(20, 21));
    assert_eq!(body_positions(&s), vec![(20, 23), (20, 26)]);
    assert_eq!(s.cooldown().elapsed, 0);
}

#[test]
fn nothing_moves_before_the_timer_fires() {
    let mut s = snake_from((0, 0), &[(0, -1)]);
    assert!(!s.advance(MOVE_COOLDOWN_MICROS - 1, up()));
    assert_eq!(s.head().pos, Position::new(0, 0));
    assert_eq!(s.cooldown().elapsed, MOVE_COOLDOWN_MICROS - 1);
    assert!(s.advance(1, up()));
    assert_eq!(s.head().pos, Position::new(0, 1));
    assert_eq!(body_positions(&s), vec![(0, 0)]);
}

#[test]
fn diagonal_keys_add_up() {
    let mut s = snake_from((5, 5), &[(5, 4)]);
    let d = Directions { up: true, down: false, left: false, right: true };
    assert!(s.advance(MOVE_COOLDOWN_MICROS, d));
    assert_eq!(s.head().pos, Position::new(6, 6));
    assert_eq!(body_positions(&s), vec![(5, 5)]);
}

#[test]
fn opposite_keys_cancel_but_the_body_still_follows() {
    let mut s = snake_from((5, 5), &[(5, 4), (5, 3)]);
    let d = Directions { up: true, down: true, left: false, right: false };
    assert!(s.advance(MOVE_COOLDOWN_MICROS, d));
    assert_eq!(s.head().pos, Position::new(5, 5));
    assert_eq!(body_positions(&s), vec![(5, 5), (5, 4)]);
}

#[test]
fn headless_body_of_length_zero_moves_freely() {
    let mut s = snake_from((0, 0), &[]);
    let d = Directions { up: false, down: true, left: true, right: false };
    assert!(s.advance(MOVE_COOLDOWN_MICROS, d));
    assert_eq!(s.head().pos, Position::new(-1, -1));
    assert!(s.body().is_empty());
    assert_eq!(s.tail_position(), Position::new(-1, -1));
}

#[test]
fn body_of_length_one_takes_the_old_head_position() {
    let mut s = snake_from((3, 3), &[(3, 2)]);
    assert!(s.advance(MOVE_COOLDOWN_MICROS * 3, up()));
    assert_eq!(body_positions(&s), vec![(3, 3)]);
    assert_eq!(s.tail_position(), Position::new(3, 3));
}

#[test]
fn initial_snake_is_a_short_vertical_line() {
    let s = Snake::initial(10);
    assert_eq!(s.head(), Segment { pos: Position::new(20, 21), handle: 10 });
    assert_eq!(body_positions(&s), vec![(20, 22), (20, 25), (20, 29)]);
    assert_eq!(s.body().handles(), vec![11, 12, 13]);
    assert_eq!(s.cooldown(), Cooldown { interval: MOVE_COOLDOWN_MICROS, elapsed: 0 });
}

#[test]
fn growing_appends_at_the_tail() {
    let mut s = snake_from((0, 0), &[(0, 1)]);
    s.grow(Position::new(0, 2), 7);
    assert_eq!(body_positions(&s), vec![(0, 1), (0, 2)]);
    assert_eq!(s.body().handles(), vec![1, 7]);
}

#[test]
fn segment_list_shift_carries_positions_and_keeps_handles() {
    let mut l = SegmentList::new();
    l.push_back(Position::new(1, 1), 5);
    l.push_back(Position::new(2, 2), 6);
    l.push_back(Position::new(3, 3), 7);
    l.shift_from(Position::new(0, 0));
    assert_eq!(l.get(0), Segment { pos: Position::new(0, 0), handle: 5 });
    assert_eq!(l.get(1), Segment { pos: Position::new(1, 1), handle: 6 });
    assert_eq!(l.get(2), Segment { pos: Position::new(2, 2), handle: 7 });
    assert_eq!(l.tail_position(), Some(Position::new(2, 2)));
    assert!(l.contains_handle(6));
    assert!(!l.contains_handle(8));
    assert_eq!(l.len(), 3);
}

#[test]
fn empty_segment_list_has_no_tail() {
    let l = SegmentList::new();
    assert!(l.is_empty());
    assert_eq!(l.tail_position(), None);
    assert!(l.handles().is_empty());
}

#[test]
fn cooldown_fires_once_the_interval_accumulates() {
    let mut c = Cooldown::new(100);
    assert!(!c.tick(40));
    assert!(!c.tick(59));
    assert_eq!(c.elapsed, 99);
    assert!(c.tick(1));
    assert_eq!(c.elapsed, 0);
    assert!(c.tick(u64::MAX));
    assert_eq!(c.elapsed, 0);
}
