use rusnake::direction::Direction;

#[test]
fn should_return_down_as_opposite_to_up() {
    let up = Direction::Up;

    let expected = Direction::Down;
    let actual = up.get_opposite_direction();

    assert_eq!(expected, actual);
}

#[test]
fn should_return_up_as_opposite_to_down() {
    let up = Direction::Down;

    let expected = Direction::Up;
    let actual = up.get_opposite_direction();

    assert_eq!(expected, actual);
}

#[test]
fn should_return_left_as_opposite_to_right() {
    let up = Direction::Right;

    let expected = Direction::Left;
    let actual = up.get_opposite_direction();

    assert_eq!(expected, actual);
}

#[test]
fn should_return_right_as_opposite_to_left() {
    let up = Direction::Left;

    let expected = Direction::Right;
    let actual = up.get_opposite_direction();

    assert_eq!(expected, actual);
}

#[test]
fn opposite_twice_returns_the_start_and_never_fixes() {
    let all = [Direction::Up, Direction::Down, Direction::Left, Direction::Right];
    for d in all {
        assert_eq!(d.get_opposite_direction().get_opposite_direction(), d);
        assert_ne!(d.get_opposite_direction(), d);
    }
}
