//! Movement directions, the set of currently-held directions, and the
//! direction-vector resolver that turns held directions into a net
//! `(dx, dy)` displacement.

use vstd::prelude::*;

verus! {

/// One of the four movement directions.
#[derive(Clone, Copy, PartialEq, Eq, Structural, Debug)]
pub enum Direction {
    Up,
    Down,
    Left,
    Right,
}

/// The movement keys on the left hand of the keyboard.
#[derive(Clone, Copy, PartialEq, Eq, Structural, Debug)]
pub enum Wasd {
    W,
    A,
    S,
    D,
}

/// The current speed and direction of a single-direction entity.
#[derive(Clone, Copy, PartialEq, Eq, Structural, Debug)]
pub struct Velocity {
    pub speed: i32,
    pub direction: Direction,
}

/// The set of directions currently held down, one flag per direction.
/// A fixed-capacity set makes adding a held key idempotent: a key can
/// never accumulate duplicates, and releasing it clears it entirely.
#[derive(Clone, Copy, PartialEq, Eq, Structural, Debug)]
pub struct DirectionSet {
    pub up: bool,
    pub down: bool,
    pub left: bool,
    pub right: bool,
}

impl DirectionSet {
    /// Whether `d` is currently held.
    pub open spec fn spec_contains(self, d: Direction) -> bool {
        match d {
            Direction::Up => self.up,
            Direction::Down => self.down,
            Direction::Left => self.left,
            Direction::Right => self.right,
        }
    }

    /// The set with `d` added (a no-op when `d` is already held).
    pub open spec fn spec_insert(self, d: Direction) -> DirectionSet {
        match d {
            Direction::Up => DirectionSet { up: true, ..self },
            Direction::Down => DirectionSet { down: true, ..self },
            Direction::Left => DirectionSet { left: true, ..self },
            Direction::Right => DirectionSet { right: true, ..self },
        }
    }

    /// The set with every occurrence of `d` removed.
    pub open spec fn spec_remove(self, d: Direction) -> DirectionSet {
        match d {
            Direction::Up => DirectionSet { up: false, ..self },
            Direction::Down => DirectionSet { down: false, ..self },
            Direction::Left => DirectionSet { left: false, ..self },
            Direction::Right => DirectionSet { right: false, ..self },
        }
    }

    /// Whether no direction at all is held.
    pub open spec fn spec_is_empty(self) -> bool {
        !self.up && !self.down && !self.left && !self.right
    }

    pub fn empty() -> (s: DirectionSet)
        ensures
            s == (DirectionSet { up: false, down: false, left: false, right: false }),
            s.spec_is_empty(),
    {
        DirectionSet { up: false, down: false, left: false, right: false }
    }

    pub fn contains(&self, d: Direction) -> (held: bool)
        ensures
            held == self.spec_contains(d),
    {
        match d {
            Direction::Up => self.up,
            Direction::Down => self.down,
            Direction::Left => self.left,
            Direction::Right => self.right,
        }
    }

    /// Marks `d` as held.
    pub fn insert(&mut self, d: Direction)
        ensures
            *final(self) == old(self).spec_insert(d),
    {
        match d {
            Direction::Up => self.up = true,
            Direction::Down => self.down = true,
            Direction::Left => self.left = true,
            Direction::Right => self.right = true,
        }
    }

    /// Marks `d` as released, removing it entirely from the set.
    pub fn remove(&mut self, d: Direction)
        ensures
            *final(self) == old(self).spec_remove(d),
    {
        match d {
            Direction::Up => self.up = false,
            Direction::Down => self.down = false,
            Direction::Left => self.left = false,
            Direction::Right => self.right = false,
        }
    }
}

/// Adding a direction that is already held changes nothing: a repeated
/// press inside one physical press-to-release interval cannot double a
/// displacement.
pub proof fn lemma_insert_idempotent(s: DirectionSet, d: Direction)
    ensures
        s.spec_insert(d).spec_insert(d) == s.spec_insert(d),
{
}

/// Removing a direction that is not held leaves the set unchanged.
pub proof fn lemma_remove_absent(s: DirectionSet, d: Direction)
    requires
        !s.spec_contains(d),
    ensures
        s.spec_remove(d) == s,
{
}

/// Net horizontal displacement of a direction set at scalar `speed`:
/// `speed` when only `Right` is held, `-speed` when only `Left` is,
/// zero when both or neither are.
pub open spec fn set_dx(s: DirectionSet, speed: int) -> int {
    speed * ((if s.right { 1int } else { 0int }) - (if s.left { 1int } else { 0int }))
}

/// Net vertical displacement of a direction set at scalar `speed`.
pub open spec fn set_dy(s: DirectionSet, speed: int) -> int {
    speed * ((if s.down { 1int } else { 0int }) - (if s.up { 1int } else { 0int }))
}

/// An empty direction set resolves to zero displacement, whatever the
/// speed.
pub proof fn lemma_resolver_empty_set(s: DirectionSet, speed: int)
    requires
        s.spec_is_empty(),
    ensures
        set_dx(s, speed) == 0,
        set_dy(s, speed) == 0,
{
}

/// The direction-vector resolver over a direction set: each held
/// direction contributes `speed` along its axis, opposite directions
/// cancel.
pub fn resolve_set(directions: &DirectionSet, speed: i32) -> (m: (i32, i32))
    requires
        speed != i32::MIN,
    ensures
        m.0 == set_dx(*directions, speed as int),
        m.1 == set_dy(*directions, speed as int),
{
    let mut move_x: i32 = 0;
    let mut move_y: i32 = 0;
    if directions.right {
        move_x = move_x + speed;
    }
    if directions.left {
        move_x = move_x - speed;
    }
    if directions.down {
        move_y = move_y + speed;
    }
    if directions.up {
        move_y = move_y - speed;
    }
    proof {
        let sp = speed as int;
        let r: int = if directions.right { 1 } else { 0 };
        let l: int = if directions.left { 1 } else { 0 };
        let d: int = if directions.down { 1 } else { 0 };
        let u: int = if directions.up { 1 } else { 0 };
        assert(-1 <= r - l <= 1 && -1 <= d - u <= 1);
        assert(sp * 1int == sp && sp * (-1int) == -sp && sp * 0int == 0);
        assert(move_x == sp * (r - l));
        assert(move_y == sp * (d - u));
    }
    (move_x, move_y)
}

/// How many occurrences of `d` the sequence `s` holds.
pub open spec fn count_dir(s: Seq<Direction>, d: Direction) -> nat
    decreases s.len(),
{
    if s.len() == 0 {
        0
    } else {
        count_dir(s.drop_last(), d) + if s.last() == d {
            1nat
        } else {
            0nat
        }
    }
}

/// A one-element direction sequence counts one occurrence of its own
/// direction and none of any other.
pub proof fn lemma_count_singleton(d: Direction, e: Direction)
    ensures
        count_dir(seq![d], e) == if d == e {
            1nat
        } else {
            0nat
        },
{
    reveal_with_fuel(count_dir, 2);
    assert(seq![d].drop_last() =~= Seq::<Direction>::empty());
}

/// Net horizontal displacement of held directions `s` at scalar `speed`:
/// each `Right` adds `speed`, each `Left` subtracts it.
pub open spec fn net_dx(s: Seq<Direction>, speed: int) -> int {
    speed * (count_dir(s, Direction::Right) - count_dir(s, Direction::Left))
}

/// Net vertical displacement of held directions `s` at scalar `speed`:
/// each `Down` adds `speed`, each `Up` subtracts it.
pub open spec fn net_dy(s: Seq<Direction>, speed: int) -> int {
    speed * (count_dir(s, Direction::Down) - count_dir(s, Direction::Up))
}

/// An empty direction sequence resolves to zero displacement on both
/// axes, whatever the speed, including a nonzero one.
pub proof fn lemma_resolver_empty(speed: int)
    ensures
        net_dx(Seq::<Direction>::empty(), speed) == 0,
        net_dy(Seq::<Direction>::empty(), speed) == 0,
{
}

/// The direction-vector resolver: sums the contribution of every held
/// direction in `directions`, each weighted by `speed`.  Simultaneous
/// directions add linearly, so a diagonal is the sum of both axes and is
/// not normalized.
pub fn mk_move(directions: &Vec<Direction>, speed: &i32) -> (m: (i32, i32))
    requires
        i32::MIN <= net_dx(directions@, *speed as int) <= i32::MAX,
        i32::MIN <= net_dy(directions@, *speed as int) <= i32::MAX,
    ensures
        m.0 == net_dx(directions@, *speed as int),
        m.1 == net_dy(directions@, *speed as int),
{
    let ghost s = directions@;
    let mut count_up: usize = 0;
    let mut count_down: usize = 0;
    let mut count_left: usize = 0;
    let mut count_right: usize = 0;
    let mut i: usize = 0;
    while i < directions.len()
        invariant
            i <= s.len(),
            s == directions@,
            count_up == count_dir(s.take(i as int), Direction::Up),
            count_down == count_dir(s.take(i as int), Direction::Down),
            count_left == count_dir(s.take(i as int), Direction::Left),
            count_right == count_dir(s.take(i as int), Direction::Right),
            count_up <= i && count_down <= i && count_left <= i && count_right <= i,
        decreases s.len() - i,
    {
        proof {
            assert(s.take(i + 1).drop_last() =~= s.take(i as int));
            assert(s.take(i + 1).last() == s[i as int]);
        }
        match directions[i] {
            Direction::Up => {
                count_up = count_up + 1;
            },
            Direction::Down => {
                count_down = count_down + 1;
            },
            Direction::Left => {
                count_left = count_left + 1;
            },
            Direction::Right => {
                count_right = count_right + 1;
            },
        }
        i = i + 1;
    }
    proof {
        assert(s.take(s.len() as int) =~= s);
    }
    let diff_x: i128 = count_right as i128 - count_left as i128;
    let diff_y: i128 = count_down as i128 - count_up as i128;
    let speed_wide: i128 = *speed as i128;
    assert(-0x1000000000000000000000000 <= speed_wide * diff_x
        <= 0x1000000000000000000000000) by (nonlinear_arith)
        requires
            -0x80000000 <= speed_wide <= 0x7fffffff,
            -0x10000000000000000 <= diff_x <= 0x10000000000000000,
    ;
    assert(-0x1000000000000000000000000 <= speed_wide * diff_y
        <= 0x1000000000000000000000000) by (nonlinear_arith)
        requires
            -0x80000000 <= speed_wide <= 0x7fffffff,
            -0x10000000000000000 <= diff_y <= 0x10000000000000000,
    ;
    let move_x: i128 = speed_wide * diff_x;
    let move_y: i128 = speed_wide * diff_y;
    (move_x as i32, move_y as i32)
}

} // verus!
