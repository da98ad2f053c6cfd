//! The input router: a state machine over discrete input events.  Each
//! frame drains its pending events in order; a quit event (or an Escape
//! key-down) ends the frame before any further event is processed.

use vstd::prelude::*;

use crate::direction::{Direction, DirectionSet};
use crate::entity::{Bullet, BulletModel, GameState, GameStateModel, Player, PLAYER_MOVEMENT_SPEED};

verus! {

/// The keys the router distinguishes; every other key arrives as
/// `Event::Other`.
#[derive(Clone, Copy, PartialEq, Eq, Structural, Debug)]
pub enum Key {
    Escape,
    Left,
    Right,
    Up,
    Down,
}

/// A discrete input event, a closed variant of everything the loop
/// reacts to.
#[derive(Clone, Copy, PartialEq, Eq, Structural, Debug)]
pub enum Event {
    /// The window was asked to close.
    Quit,
    /// A key went down; `repeat` marks a held-key auto-repeat.
    KeyDown { key: Key, repeat: bool },
    /// A key came up; `repeat` marks a held-key auto-repeat.
    KeyUp { key: Key, repeat: bool },
    /// The fire trigger: spawns a projectile.
    Fire,
    /// Pointer motion, explicitly ignored.
    PointerMove,
    /// Anything else, kept only for diagnostics.
    Other,
}

/// What the caller should report about one processed event: nothing, a
/// projectile-spawn notice, or an unhandled-event notice.
#[derive(Clone, Copy, PartialEq, Eq, Structural, Debug)]
pub enum Note {
    Quiet,
    Spawn,
    Unhandled,
}

/// The movement direction a key stands for, if any.
pub open spec fn key_direction(k: Key) -> Option<Direction> {
    match k {
        Key::Escape => Option::None,
        Key::Left => Option::Some(Direction::Left),
        Key::Right => Option::Some(Direction::Right),
        Key::Up => Option::Some(Direction::Up),
        Key::Down => Option::Some(Direction::Down),
    }
}

/// Whether `e` terminates the loop: a quit event, or Escape going down
/// (repeated or not).
pub open spec fn is_quit_event(e: Event) -> bool {
    ||| e is Quit
    ||| (e matches Event::KeyDown { key, .. } && key == Key::Escape)
}

/// The state after routing one event.  A quit event leaves the state
/// unchanged (the loop ends instead).  A non-repeated directional
/// key-down sets the player's speed to the movement constant and adds
/// the direction to its held set; a non-repeated directional key-up
/// removes every occurrence of that direction; the fire trigger spawns
/// a projectile at the player's position travelling up; everything
/// else changes nothing.
pub open spec fn step_event_model(s: GameStateModel, e: Event) -> GameStateModel {
    match e {
        Event::KeyDown { key, repeat } => if !repeat && key_direction(key) is Some {
            GameStateModel {
                player: Player {
                    speed: PLAYER_MOVEMENT_SPEED,
                    directions: s.player.directions.spec_insert(key_direction(key)->Some_0),
                    ..s.player
                },
                ..s
            }
        } else {
            s
        },
        Event::KeyUp { key, repeat } => if !repeat && key_direction(key) is Some {
            GameStateModel {
                player: Player {
                    directions: s.player.directions.spec_remove(key_direction(key)->Some_0),
                    ..s.player
                },
                ..s
            }
        } else {
            s
        },
        Event::Fire => GameStateModel {
            bullets: s.bullets.push(
                BulletModel { position: s.player.position, directions: seq![Direction::Up] },
            ),
            ..s
        },
        _ => s,
    }
}

/// The diagnostic note one event produces: the fire trigger notes a
/// spawn; an event no arm of the router handles (a repeated
/// directional key, Escape coming up, or anything unrecognized) notes
/// itself for diagnostics; the rest are silent.
pub open spec fn event_note(e: Event) -> Note {
    match e {
        Event::Fire => Note::Spawn,
        Event::Other => Note::Unhandled,
        Event::KeyDown { key, repeat } => if repeat && key != Key::Escape {
            Note::Unhandled
        } else {
            Note::Quiet
        },
        Event::KeyUp { key, repeat } => if repeat || key == Key::Escape {
            Note::Unhandled
        } else {
            Note::Quiet
        },
        _ => Note::Quiet,
    }
}

/// Routes a single event: returns whether the loop must terminate and
/// the diagnostic note to report; mutates the state exactly as
/// `step_event_model` says.
pub fn handle_event(state: &mut GameState, event: Event) -> (r: (bool, Note))
    ensures
        r.0 == is_quit_event(event),
        r.1 == event_note(event),
        final(state)@ == step_event_model(old(state)@, event),
        old(state)@.wf() ==> final(state)@.wf(),
{
    let ghost s0 = state@;
    match event {
        Event::Quit => (true, Note::Quiet),
        Event::KeyDown { key: Key::Escape, repeat: _ } => (true, Note::Quiet),
        Event::KeyDown { key, repeat: false } => {
            let d = match key {
                Key::Left => Direction::Left,
                Key::Right => Direction::Right,
                Key::Up => Direction::Up,
                Key::Down => Direction::Down,
                Key::Escape => Direction::Up,  // unreachable: Escape is matched above
            };
            state.player.speed = PLAYER_MOVEMENT_SPEED;
            state.player.directions.insert(d);
            (false, Note::Quiet)
        },
        Event::KeyDown { key: _, repeat: true } => (false, Note::Unhandled),
        Event::KeyUp { key, repeat: false } => {
            match key {
                Key::Escape => (false, Note::Unhandled),
                _ => {
                    let d = match key {
                        Key::Left => Direction::Left,
                        Key::Right => Direction::Right,
                        Key::Up => Direction::Up,
                        Key::Down => Direction::Down,
                        Key::Escape => Direction::Up,  // unreachable: Escape is matched above
                    };
                    state.player.directions.remove(d);
                    (false, Note::Quiet)
                },
            }
        },
        Event::KeyUp { key: _, repeat: true } => (false, Note::Unhandled),
        Event::Fire => {
            let bullet = Bullet::spawn(state.player.position);
            state.bullets.push(bullet);
            proof {
                assert(state@.bullets =~= s0.bullets.push(
                    BulletModel {
                        position: s0.player.position,
                        directions: seq![Direction::Up],
                    },
                ));
            }
            (false, Note::Spawn)
        },
        Event::PointerMove => (false, Note::Quiet),
        Event::Other => (false, Note::Unhandled),
    }
}

/// The state after routing the events of `evs` in order, none of them
/// terminating.
pub open spec fn run_events(s: GameStateModel, evs: Seq<Event>) -> GameStateModel
    decreases evs.len(),
{
    if evs.len() == 0 {
        s
    } else {
        step_event_model(run_events(s, evs.drop_last()), evs.last())
    }
}

/// The index of the first terminating event of `evs`, or `evs.len()`
/// when none terminates.
pub open spec fn quit_index(evs: Seq<Event>) -> int
    decreases evs.len(),
{
    if evs.len() == 0 {
        0
    } else if is_quit_event(evs.first()) {
        0
    } else {
        1 + quit_index(evs.drop_first())
    }
}

/// `quit_index` names the first terminating event: an index below it
/// never terminates, and whatever stands at it (if anything does) does.
pub proof fn lemma_quit_index_at(evs: Seq<Event>, i: int)
    requires
        0 <= i <= evs.len(),
        forall|j: int| 0 <= j < i ==> !is_quit_event(#[trigger] evs[j]),
        i < evs.len() ==> is_quit_event(evs[i]),
    ensures
        quit_index(evs) == i,
    decreases i,
{
    if evs.len() == 0 {
    } else if i == 0 {
    } else {
        assert(!is_quit_event(evs.first()));
        assert(forall|j: int| 0 <= j < i - 1 ==> evs.drop_first()[j] == evs[j + 1]);
        lemma_quit_index_at(evs.drop_first(), i - 1);
    }
}

/// Drains one frame's pending events in order.  Returns whether the
/// loop must terminate and the diagnostic notes of the processed
/// events.  A terminating event stops the drain at once: the state
/// reflects exactly the events before the first terminating one, and
/// nothing after it is processed.
pub fn process_events(state: &mut GameState, events: &Vec<Event>) -> (r: (bool, Vec<Note>))
    ensures
        ({
            let k = quit_index(events@);
            &&& r.0 == (k < events@.len())
            &&& final(state)@ == run_events(old(state)@, events@.take(k))
            &&& r.1@.len() == k
            &&& forall|j: int| 0 <= j < k ==> r.1@[j] == event_note(#[trigger] events@[j])
            &&& old(state)@.wf() ==> final(state)@.wf()
        }),
{
    let ghost s0 = state@;
    let ghost evs = events@;
    let mut notes: Vec<Note> = Vec::new();
    let n = events.len();
    let mut i: usize = 0;
    while i < n
        invariant_except_break
            i <= n,
            n == evs.len(),
            evs == events@,
            state@ == run_events(s0, evs.take(i as int)),
            forall|j: int| 0 <= j < i ==> !is_quit_event(#[trigger] evs[j]),
            notes@.len() == i,
            forall|j: int| 0 <= j < i ==> notes@[j] == event_note(#[trigger] evs[j]),
            s0.wf() ==> state@.wf(),
        ensures
            i <= n,
            n == evs.len(),
            evs == events@,
            forall|j: int| 0 <= j < i ==> !is_quit_event(#[trigger] evs[j]),
            i < n ==> is_quit_event(evs[i as int]),
            state@ == run_events(s0, evs.take(i as int)),
            notes@.len() == i,
            forall|j: int| 0 <= j < i ==> notes@[j] == event_note(#[trigger] evs[j]),
            s0.wf() ==> state@.wf(),
        decreases n - i,
    {
        let ghost before = state@;
        let (quit, note) = handle_event(state, events[i]);
        if quit {
            proof {
                assert(step_event_model(before, evs[i as int]) == before);
            }
            break;
        }
        notes.push(note);
        proof {
            assert(evs.take(i + 1).drop_last() =~= evs.take(i as int));
            assert(evs.take(i + 1).last() == evs[i as int]);
        }
        i = i + 1;
    }
    proof {
        lemma_quit_index_at(evs, i as int);
    }
    ((i < n), notes)
}

} // verus!
