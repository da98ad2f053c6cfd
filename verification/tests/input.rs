use starpoo::direction::{resolve_set, Direction};
use starpoo::entity::{step, GameState, BULLET_SPEED, PLAYER_MOVEMENT_SPEED};
use starpoo::geom::Point;
use starpoo::input::{handle_event, process_events, Event, Key, Note};

#[test]
fn press_left_then_right_then_release_left_leaves_right() {
    let mut state = GameState::new();
    handle_event(&mut state, Event::KeyDown { key: Key::Left, repeat: false });
    handle_event(&mut state, Event::KeyDown { key: Key::Right, repeat: false });
    handle_event(&mut state, Event::KeyUp { key: Key::Left, repeat: false });
    assert!(state.player.directions.contains(Direction::Right));
    assert!(!state.player.directions.contains(Direction::Left));
    let (dx, dy) = resolve_set(&state.player.directions, state.player.speed);
    assert_eq!((dx, dy), (PLAYER_MOVEMENT_SPEED, 0));
}

#[test]
fn double_press_does_not_double_displacement() {
    let mut state = GameState::new();
    handle_event(&mut state, Event::KeyDown { key: Key::Left, repeat: false });
    handle_event(&mut state, Event::KeyDown { key: Key::Left, repeat: false });
    let (dx, dy) = resolve_set(&state.player.directions, state.player.speed);
    assert_eq!((dx, dy), (-PLAYER_MOVEMENT_SPEED, 0));
}

#[test]
fn release_never_pressed_is_noop() {
    let mut state = GameState::new();
    let player_before = state.player;
    let (quit, note) = handle_event(&mut state, Event::KeyUp { key: Key::Right, repeat: false });
    assert!(!quit);
    assert_eq!(note, Note::Quiet);
    assert_eq!(state.player, player_before);
    assert_eq!(state.bullets.len(), 0);
}

#[test]
fn movement_key_sets_speed_constant() {
    let mut state = GameState::new();
    assert_eq!(state.player.speed, 0);
    handle_event(&mut state, Event::KeyDown { key: Key::Up, repeat: false });
    assert_eq!(state.player.speed, PLAYER_MOVEMENT_SPEED);
    assert!(state.player.directions.contains(Direction::Up));
}

#[test]
fn fire_spawns_bullet_at_player_then_step_moves_it_up() {
    let mut state = GameState::new();
    state.player.position = Point::new(10, 20);
    let (quit, note) = handle_event(&mut state, Event::Fire);
    assert!(!quit);
    assert_eq!(note, Note::Spawn);
    assert_eq!(state.bullets.len(), 1);
    assert_eq!(state.bullets[0].position, Point::new(10, 20));
    assert_eq!(state.bullets[0].directions, vec![Direction::Up]);
    step(&mut state);
    assert_eq!(BULLET_SPEED, 10);
    assert_eq!(state.bullets[0].position, Point::new(10, 10));
}

#[test]
fn quit_event_stops_the_frame_before_later_events() {
    let mut state = GameState::new();
    let events = vec![
        Event::KeyDown { key: Key::Right, repeat: false },
        Event::Quit,
        Event::KeyDown { key: Key::Left, repeat: false },
        Event::Fire,
    ];
    let (quit, notes) = process_events(&mut state, &events);
    assert!(quit);
    // only the event before the quit was processed
    assert_eq!(notes.len(), 1);
    assert!(state.player.directions.contains(Direction::Right));
    assert!(!state.player.directions.contains(Direction::Left));
    assert_eq!(state.bullets.len(), 0);
}

#[test]
fn escape_keydown_quits_even_on_repeat() {
    let mut state = GameState::new();
    let player_before = state.player;
    let (quit, _) = handle_event(&mut state, Event::KeyDown { key: Key::Escape, repeat: true });
    assert!(quit);
    assert_eq!(state.player, player_before);

    let events = vec![
        Event::KeyDown { key: Key::Escape, repeat: false },
        Event::KeyDown { key: Key::Down, repeat: false },
    ];
    let (quit, notes) = process_events(&mut state, &events);
    assert!(quit);
    assert_eq!(notes.len(), 0);
    assert!(!state.player.directions.contains(Direction::Down));
}

#[test]
fn repeated_direction_keydown_is_unhandled() {
    let mut state = GameState::new();
    let player_before = state.player;
    let (quit, note) = handle_event(&mut state, Event::KeyDown { key: Key::Left, repeat: true });
    assert!(!quit);
    assert_eq!(note, Note::Unhandled);
    assert_eq!(state.player, player_before);
}

#[test]
fn pointer_motion_is_silently_ignored() {
    let mut state = GameState::new();
    let player_before = state.player;
    let (quit, note) = handle_event(&mut state, Event::PointerMove);
    assert!(!quit);
    assert_eq!(note, Note::Quiet);
    assert_eq!(state.player, player_before);
    assert_eq!(state.bullets.len(), 0);
}

#[test]
fn unrecognized_event_is_noted_for_diagnostics() {
    let mut state = GameState::new();
    let (quit, note) = handle_event(&mut state, Event::Other);
    assert!(!quit);
    assert_eq!(note, Note::Unhandled);
    let (quit, note) = handle_event(&mut state, Event::KeyUp { key: Key::Escape, repeat: false });
    assert!(!quit);
    assert_eq!(note, Note::Unhandled);
}

#[test]
fn frame_flow_moves_player_by_held_directions() {
    let mut state = GameState::new();
    let events = vec![
        Event::KeyDown { key: Key::Right, repeat: false },
        Event::KeyDown { key: Key::Down, repeat: false },
    ];
    let (quit, notes) = process_events(&mut state, &events);
    assert!(!quit);
    assert_eq!(notes, vec![Note::Quiet, Note::Quiet]);
    step(&mut state);
    assert_eq!(state.player.position, Point::new(8, 8));
    step(&mut state);
    assert_eq!(state.player.position, Point::new(16, 16));
    // releasing one held key keeps movement from the other
    process_events(&mut state, &vec![Event::KeyUp { key: Key::Down, repeat: false }]);
    step(&mut state);
    assert_eq!(state.player.position, Point::new(24, 16));
}
