use snake_core::direction::Direction;

#[test]
fn opposite_of_each_heading() {
    assert!(Direction::Up.opposite() == Direction::Down);
    assert!(Direction::Down.opposite() == Direction::Up);
    assert!(Direction::Left.opposite() == Direction::Right);
    assert!(Direction::Right.opposite() == Direction::Left);
}

#[test]
fn opposite_twice_is_identity() {
    for d in [Direction::Up, Direction::Down, Direction::Left, Direction::Right] {
        assert!(d.opposite().opposite() == d);
    }
}
