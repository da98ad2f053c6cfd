//! The entities of the simulation: the player, transient projectiles,
//! and the game state that owns them, together with the per-frame
//! simulation step that advances every entity once.

use vstd::prelude::*;

use crate::direction::{
    lemma_count_singleton, net_dx, net_dy, resolve_set, mk_move, set_dx, set_dy, Direction,
    DirectionSet,
};
use crate::geom::{clamp_i32, Point, Rect};

verus! {

/// Displacement per frame of the player while a movement key is held.
pub const PLAYER_MOVEMENT_SPEED: i32 = 8;

/// Displacement per frame of every projectile.
pub const BULLET_SPEED: i32 = 10;

/// Width and height of the player sprite rectangle.
pub const PLAYER_SPRITE_SIZE: u32 = 32;

/// Width and height of the box every projectile is drawn in.
pub const BULLET_SPRITE_SIZE: u32 = 24;

/// The player: world position, sprite bounds, the set of held movement
/// directions, and the current speed.
#[derive(Clone, Copy, PartialEq, Eq, Structural, Debug)]
pub struct Player {
    pub position: Point,
    pub sprite: Rect,
    pub directions: DirectionSet,
    pub speed: i32,
}

impl Player {
    /// The player's speed is either zero or the fixed movement
    /// constant, and it is the constant whenever at least one
    /// direction is held.
    pub open spec fn wf(self) -> bool {
        &&& self.speed == 0 || self.speed == PLAYER_MOVEMENT_SPEED
        &&& !self.directions.spec_is_empty() ==> self.speed == PLAYER_MOVEMENT_SPEED
    }

    /// A player at the world origin with a 32 by 32 sprite, no held
    /// directions, and zero speed.
    pub fn new() -> (p: Player)
        ensures
            p == (Player {
                position: Point { x: 0, y: 0 },
                sprite: Rect { x: 0, y: 0, width: PLAYER_SPRITE_SIZE, height: PLAYER_SPRITE_SIZE },
                directions: DirectionSet { up: false, down: false, left: false, right: false },
                speed: 0,
            }),
            p.wf(),
    {
        Player {
            position: Point { x: 0, y: 0 },
            sprite: Rect { x: 0, y: 0, width: PLAYER_SPRITE_SIZE, height: PLAYER_SPRITE_SIZE },
            directions: DirectionSet { up: false, down: false, left: false, right: false },
            speed: 0,
        }
    }
}

/// A transient projectile: a moving point with a fixed direction list.
#[derive(Clone, Debug)]
pub struct Bullet {
    pub position: Point,
    pub directions: Vec<Direction>,
}

/// The mathematical model of a projectile.
pub struct BulletModel {
    pub position: Point,
    pub directions: Seq<Direction>,
}

impl BulletModel {
    /// The projectile's net per-frame displacement fits in `i32` on
    /// both axes (a machine limit; it holds of every projectile the
    /// router spawns, whose direction list is the single `Up`).
    pub open spec fn wf(self) -> bool {
        &&& i32::MIN <= net_dx(self.directions, BULLET_SPEED as int) <= i32::MAX
        &&& i32::MIN <= net_dy(self.directions, BULLET_SPEED as int) <= i32::MAX
    }
}

impl View for Bullet {
    type V = BulletModel;

    open spec fn view(&self) -> BulletModel {
        BulletModel { position: self.position, directions: self.directions@ }
    }
}

impl Bullet {
    /// A projectile spawned at `position`, travelling straight up.
    pub fn spawn(position: Point) -> (b: Bullet)
        ensures
            b@.position == position,
            b@.directions == seq![Direction::Up],
            b@.wf(),
    {
        let mut directions: Vec<Direction> = Vec::new();
        directions.push(Direction::Up);
        proof {
            assert(directions@ =~= seq![Direction::Up]);
            lemma_count_singleton(Direction::Up, Direction::Up);
            lemma_count_singleton(Direction::Up, Direction::Down);
            lemma_count_singleton(Direction::Up, Direction::Left);
            lemma_count_singleton(Direction::Up, Direction::Right);
        }
        Bullet { position, directions }
    }
}

/// The whole simulation state: the player and every live projectile.
/// Projectiles are never removed in this design.
#[derive(Clone, Debug)]
pub struct GameState {
    pub player: Player,
    pub bullets: Vec<Bullet>,
}

/// The mathematical model of the simulation state.
pub struct GameStateModel {
    pub player: Player,
    pub bullets: Seq<BulletModel>,
}

impl GameStateModel {
    pub open spec fn wf(self) -> bool {
        &&& self.player.wf()
        &&& forall|i: int| 0 <= i < self.bullets.len() ==> (#[trigger] self.bullets[i]).wf()
    }
}

impl View for GameState {
    type V = GameStateModel;

    open spec fn view(&self) -> GameStateModel {
        GameStateModel {
            player: self.player,
            bullets: self.bullets@.map_values(|b: Bullet| b@),
        }
    }
}

impl GameState {
    /// A fresh state: the player at the origin, no projectiles.
    pub fn new() -> (s: GameState)
        ensures
            s@.player == (Player {
                position: Point { x: 0, y: 0 },
                sprite: Rect { x: 0, y: 0, width: PLAYER_SPRITE_SIZE, height: PLAYER_SPRITE_SIZE },
                directions: DirectionSet { up: false, down: false, left: false, right: false },
                speed: 0,
            }),
            s@.bullets == Seq::<BulletModel>::empty(),
            s@.wf(),
    {
        let s = GameState { player: Player::new(), bullets: Vec::new() };
        proof {
            assert(s@.bullets =~= Seq::<BulletModel>::empty());
        }
        s
    }
}

/// The player after one simulation step: its position offset by the
/// resolved displacement of its held directions at its speed.
pub open spec fn step_player_model(p: Player) -> Player {
    Player {
        position: Point {
            x: clamp_i32(p.position.x + set_dx(p.directions, p.speed as int)) as i32,
            y: clamp_i32(p.position.y + set_dy(p.directions, p.speed as int)) as i32,
        },
        ..p
    }
}

/// A projectile after one simulation step: its position offset by the
/// resolved displacement of its direction list at the projectile speed.
pub open spec fn step_bullet_model(b: BulletModel) -> BulletModel {
    BulletModel {
        position: Point {
            x: clamp_i32(b.position.x + net_dx(b.directions, BULLET_SPEED as int)) as i32,
            y: clamp_i32(b.position.y + net_dy(b.directions, BULLET_SPEED as int)) as i32,
        },
        directions: b.directions,
    }
}

/// The whole state after one simulation step: every entity advances
/// exactly once.
pub open spec fn step_model(s: GameStateModel) -> GameStateModel {
    GameStateModel {
        player: step_player_model(s.player),
        bullets: s.bullets.map_values(|b: BulletModel| step_bullet_model(b)),
    }
}

/// Advances the player by the resolver's displacement for its held
/// directions and speed.
pub fn update_player(player: &mut Player)
    requires
        old(player).wf(),
    ensures
        *final(player) == step_player_model(*old(player)),
        final(player).wf(),
{
    let (dx, dy) = resolve_set(&player.directions, player.speed);
    player.position = player.position.offset(dx, dy);
}

/// Advances one projectile by the resolver's displacement for its
/// direction list at the fixed projectile speed.
pub fn update_bullet(bullet: &mut Bullet)
    requires
        old(bullet)@.wf(),
    ensures
        final(bullet)@ == step_bullet_model(old(bullet)@),
        final(bullet)@.wf(),
{
    let speed: i32 = BULLET_SPEED;
    let (dx, dy) = mk_move(&bullet.directions, &speed);
    bullet.position = bullet.position.offset(dx, dy);
}

/// The simulation step: advances the player and then every projectile,
/// each exactly once.  No entity reads another's position during the
/// step, so the order is inconsequential.
pub fn step(state: &mut GameState)
    requires
        old(state)@.wf(),
    ensures
        final(state)@ == step_model(old(state)@),
        final(state)@.wf(),
{
    let ghost s0 = old(state)@;
    update_player(&mut state.player);
    let n = state.bullets.len();
    let mut i: usize = 0;
    while i < n
        invariant
            n == state.bullets@.len(),
            n == s0.bullets.len(),
            i <= n,
            state.player == step_player_model(s0.player),
            forall|j: int| 0 <= j < i ==> (#[trigger] state.bullets@[j])@ == step_bullet_model(
                s0.bullets[j]),
            forall|j: int| i <= j < n ==> (#[trigger] state.bullets@[j])@ == s0.bullets[j],
            s0.wf(),
        decreases n - i,
    {
        update_bullet(&mut state.bullets[i]);
        i = i + 1;
    }
    proof {
        assert(state@.bullets =~= s0.bullets.map_values(|b: BulletModel| step_bullet_model(b)));
    }
}

} // verus!
