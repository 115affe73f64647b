use snake_game::direction::Direction;

#[test]
fn opposite_of_each_heading() {
    assert_eq!(Direction::Left.opposite(), Direction::Right);
    assert_eq!(Direction::Right.opposite(), Direction::Left);
    assert_eq!(Direction::Up.opposite(), Direction::Down);
    assert_eq!(Direction::Down.opposite(), Direction::Up);
}

#[test]
fn opposite_twice_is_identity() {
    for heading in [Direction::Left, Direction::Right, Direction::Up, Direction::Down] {
        assert_eq!(heading.opposite().opposite(), heading);
        assert_ne!(heading.opposite(), heading);
    }
}

#[test]
fn heading_up_rejects_down() {
    assert_eq!(Direction::Up.turn(Some(Direction::Down)), Direction::Up);
}

#[test]
fn heading_up_takes_left_and_right() {
    assert_eq!(Direction::Up.turn(Some(Direction::Left)), Direction::Left);
    assert_eq!(Direction::Up.turn(Some(Direction::Right)), Direction::Right);
}

#[test]
fn heading_kept_without_request() {
    for heading in [Direction::Left, Direction::Right, Direction::Up, Direction::Down] {
        assert_eq!(heading.turn(None), heading);
        assert_eq!(heading.turn(Some(heading)), heading);
    }
}

#[test]
fn turn_never_reverses() {
    let all = [Direction::Left, Direction::Right, Direction::Up, Direction::Down];
    for heading in all {
        for wanted in all {
            let turned = heading.turn(Some(wanted));
            assert_ne!(turned, heading.opposite());
            if wanted == heading.opposite() {
                assert_eq!(turned, heading);
            } else {
                assert_eq!(turned, wanted);
            }
        }
    }
}

#[test]
fn no_key_requests_nothing() {
    assert_eq!(Direction::from_keys(false, false, false, false), None);
}

#[test]
fn single_key_requests_its_heading() {
    assert_eq!(Direction::from_keys(true, false, false, false), Some(Direction::Right));
    assert_eq!(Direction::from_keys(false, true, false, false), Some(Direction::Left));
    assert_eq!(Direction::from_keys(false, false, true, false), Some(Direction::Up));
    assert_eq!(Direction::from_keys(false, false, false, true), Some(Direction::Down));
}

#[test]
fn held_keys_resolve_by_priority() {
    assert_eq!(Direction::from_keys(true, true, true, true), Some(Direction::Right));
    assert_eq!(Direction::from_keys(false, true, true, true), Some(Direction::Left));
    assert_eq!(Direction::from_keys(false, false, true, true), Some(Direction::Up));
    assert_eq!(Direction::from_keys(true, false, false, true), Some(Direction::Right));
}
