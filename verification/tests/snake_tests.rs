use snake_core::direction::Direction;
use snake_core::snake::Snake;

#[test]
fn fresh_snake_has_three_cells_head_right() {
    let s = Snake::new(2, 2);
    assert_eq!(s.body.len(), 3);
    assert_eq!(s.head_position(), (4, 2));
    assert_eq!(s.body[0].x, 4);
    assert_eq!(s.body[0].y, 2);
    assert_eq!(s.body[1].x, 3);
    assert_eq!(s.body[1].y, 2);
    assert_eq!(s.body[2].x, 2);
    assert_eq!(s.body[2].y, 2);
    assert!(s.head_direction() == Direction::Right);
    assert!(s.last_removed_block.is_none());
}

#[test]
fn move_forward_preserves_length() {
    let mut s = Snake::new(2, 2);
    s.move_forward(None);
    assert_eq!(s.body.len(), 3);
    assert_eq!(s.head_position(), (5, 2));
    s.move_forward(Some(Direction::Down));
    assert_eq!(s.body.len(), 3);
    assert_eq!(s.head_position(), (5, 3));
    assert!(s.head_direction() == Direction::Down);
}

#[test]
fn restore_after_move_grows_by_one() {
    let mut s = Snake::new(2, 2);
    s.move_forward(None);
    let before = s.body.len();
    s.restore_last_removed();
    assert_eq!(s.body.len(), before + 1);
    // the restored cell is the tail dropped by the move: the old tail (2, 2)
    assert_eq!(s.body[s.body.len() - 1].x, 2);
    assert_eq!(s.body[s.body.len() - 1].y, 2);
}

#[test]
fn next_head_position_uses_override() {
    let s = Snake::new(2, 2);
    assert_eq!(s.next_head_position(None), (5, 2));
    assert_eq!(s.next_head_position(Some(Direction::Up)), (4, 1));
    assert_eq!(s.next_head_position(Some(Direction::Down)), (4, 3));
    assert_eq!(s.next_head_position(Some(Direction::Left)), (3, 2));
}

#[test]
fn overlap_ignores_tail_but_sees_body() {
    let s = Snake::new(2, 2);
    // body head to tail: (4,2), (3,2), (2,2); the tail (2,2) is exempt
    assert!(s.is_overlap_except_tail(4, 2));
    assert!(s.is_overlap_except_tail(3, 2));
    assert!(!s.is_overlap_except_tail(2, 2));
    assert!(!s.is_overlap_except_tail(5, 2));
    assert!(!s.is_overlap_except_tail(4, 3));
}

#[test]
fn tongue_flips_and_draws_timer_in_documented_range() {
    let mut s = Snake::new(2, 2);
    assert!(!s.tongue_out);
    assert_eq!(s.tongue_timer, 0);
    s.update_tongue(5);
    assert!(s.tongue_out);
    assert!(150 <= s.tongue_timer && s.tongue_timer < 250);
    let t = s.tongue_timer;
    s.update_tongue(10);
    assert!(s.tongue_out);
    assert_eq!(s.tongue_timer, t - 10);
    s.update_tongue(t);
    assert!(!s.tongue_out);
    assert!(1000 <= s.tongue_timer && s.tongue_timer < 3000);
}
