use starpoo::direction::{mk_move, resolve_set, Direction, DirectionSet};

#[test]
fn resolver_empty_is_zero_for_nonzero_speed() {
    let dirs: Vec<Direction> = Vec::new();
    assert_eq!(mk_move(&dirs, &7), (0, 0));
    assert_eq!(mk_move(&dirs, &0), (0, 0));
    assert_eq!(mk_move(&dirs, &-13), (0, 0));
}

#[test]
fn resolver_counts_each_occurrence() {
    // dx = speed * (count(Right) - count(Left)), dy = speed * (count(Down) - count(Up))
    let dirs = vec![Direction::Right, Direction::Right, Direction::Up, Direction::Left];
    assert_eq!(mk_move(&dirs, &3), (3 * (2 - 1), 3 * (0 - 1)));
}

#[test]
fn resolver_single_directions() {
    assert_eq!(mk_move(&vec![Direction::Left], &8), (-8, 0));
    assert_eq!(mk_move(&vec![Direction::Right], &8), (8, 0));
    assert_eq!(mk_move(&vec![Direction::Up], &8), (0, -8));
    assert_eq!(mk_move(&vec![Direction::Down], &8), (0, 8));
}

#[test]
fn resolver_diagonal_sums_both_axes() {
    let dirs = vec![Direction::Right, Direction::Down];
    assert_eq!(mk_move(&dirs, &8), (8, 8));
}

#[test]
fn resolver_opposites_cancel() {
    let dirs = vec![Direction::Left, Direction::Right, Direction::Up, Direction::Down];
    assert_eq!(mk_move(&dirs, &25), (0, 0));
}

#[test]
fn set_resolver_empty_is_zero() {
    let s = DirectionSet::empty();
    assert_eq!(resolve_set(&s, 9), (0, 0));
}

#[test]
fn set_resolver_single_directions() {
    let mut s = DirectionSet::empty();
    s.insert(Direction::Left);
    assert_eq!(resolve_set(&s, 8), (-8, 0));
    let mut s = DirectionSet::empty();
    s.insert(Direction::Down);
    assert_eq!(resolve_set(&s, 8), (0, 8));
}

#[test]
fn set_resolver_opposites_cancel() {
    let mut s = DirectionSet::empty();
    s.insert(Direction::Left);
    s.insert(Direction::Right);
    s.insert(Direction::Up);
    s.insert(Direction::Down);
    assert_eq!(resolve_set(&s, 8), (0, 0));
}

#[test]
fn set_insert_is_idempotent() {
    let mut once = DirectionSet::empty();
    once.insert(Direction::Left);
    let mut twice = DirectionSet::empty();
    twice.insert(Direction::Left);
    twice.insert(Direction::Left);
    assert_eq!(once, twice);
    assert_eq!(resolve_set(&twice, 8), (-8, 0));
}

#[test]
fn set_remove_absent_is_noop() {
    let mut s = DirectionSet::empty();
    s.insert(Direction::Up);
    let before = s;
    s.remove(Direction::Left);
    assert_eq!(s, before);
}

#[test]
fn set_contains_tracks_insert_and_remove() {
    let mut s = DirectionSet::empty();
    assert!(!s.contains(Direction::Right));
    s.insert(Direction::Right);
    assert!(s.contains(Direction::Right));
    s.remove(Direction::Right);
    assert!(!s.contains(Direction::Right));
}
