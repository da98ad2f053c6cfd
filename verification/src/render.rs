//! Render geometry: maps world positions to camera-relative screen
//! rectangles and lays out one frame's draw operations.  The camera
//! offset is half the output size, so the world origin maps to the
//! center of the screen.  The drawing surface itself lives outside
//! this crate: a frame is executed by clearing, copying each operation
//! in order, and presenting.

use vstd::prelude::*;

use crate::entity::{Bullet, BulletModel, GameState, Player, BULLET_SPRITE_SIZE};
use crate::geom::{clamp_i32, rect_from_center, Point, Rect};

verus! {

/// Which texture a draw operation copies from.
#[derive(Clone, Copy, PartialEq, Eq, Structural, Debug)]
pub enum TextureKind {
    Player,
    Bullet,
}

/// One copy operation of a frame: the `src` region of a texture drawn
/// into the `dst` screen rectangle.
#[derive(Clone, Copy, PartialEq, Eq, Structural, Debug)]
pub struct DrawOp {
    pub texture: TextureKind,
    pub src: Rect,
    pub dst: Rect,
}

/// The screen position of a world point: the world coordinates
/// translated by the camera offset of half the output width and
/// height.
pub open spec fn screen_point(world: Point, output_width: u32, output_height: u32) -> Point {
    Point {
        x: clamp_i32(world.x + output_width as int / 2) as i32,
        y: clamp_i32(world.y + output_height as int / 2) as i32,
    }
}

/// Maps a world position to its camera-relative screen position.
pub fn screen_position(world: Point, output_width: u32, output_height: u32) -> (p: Point)
    ensures
        p == screen_point(world, output_width, output_height),
{
    world.offset((output_width / 2) as i32, (output_height / 2) as i32)
}

/// The draw operation of the player: its sprite region copied to a
/// screen rectangle of the sprite's size, centered on the player's
/// screen position.
pub open spec fn player_draw_op(p: Player, output_width: u32, output_height: u32) -> DrawOp {
    DrawOp {
        texture: TextureKind::Player,
        src: p.sprite,
        dst: rect_from_center(
            screen_point(p.position, output_width, output_height),
            p.sprite.width,
            p.sprite.height,
        ),
    }
}

/// The draw operation of one projectile: a fixed 24 by 24 texture
/// region copied to a 24 by 24 screen rectangle centered on the
/// projectile's screen position.
pub open spec fn bullet_draw_op(b: BulletModel, output_width: u32, output_height: u32) -> DrawOp {
    DrawOp {
        texture: TextureKind::Bullet,
        src: Rect { x: 0, y: 0, width: BULLET_SPRITE_SIZE, height: BULLET_SPRITE_SIZE },
        dst: rect_from_center(
            screen_point(b.position, output_width, output_height),
            BULLET_SPRITE_SIZE,
            BULLET_SPRITE_SIZE,
        ),
    }
}

/// Computes the player's draw operation for the current output size.
pub fn render(player: &Player, output_width: u32, output_height: u32) -> (op: DrawOp)
    ensures
        op == player_draw_op(*player, output_width, output_height),
{
    let center = screen_position(player.position, output_width, output_height);
    DrawOp {
        texture: TextureKind::Player,
        src: player.sprite,
        dst: Rect::from_center(center, player.sprite.width, player.sprite.height),
    }
}

/// Computes the draw operations of every projectile, in projectile
/// order.
pub fn render_bullets(bullets: &Vec<Bullet>, output_width: u32, output_height: u32) -> (ops: Vec<
    DrawOp,
>)
    ensures
        ops@.len() == bullets@.len(),
        forall|i: int| 0 <= i < bullets@.len() ==> ops@[i] == bullet_draw_op(
            (#[trigger] bullets@[i])@,
            output_width,
            output_height,
        ),
{
    let mut ops: Vec<DrawOp> = Vec::new();
    let n = bullets.len();
    let mut i: usize = 0;
    while i < n
        invariant
            i <= n,
            n == bullets@.len(),
            ops@.len() == i,
            forall|j: int| 0 <= j < i ==> ops@[j] == bullet_draw_op(
                (#[trigger] bullets@[j])@,
                output_width,
                output_height,
            ),
        decreases n - i,
    {
        let center = screen_position(bullets[i].position, output_width, output_height);
        ops.push(
            DrawOp {
                texture: TextureKind::Bullet,
                src: Rect { x: 0, y: 0, width: BULLET_SPRITE_SIZE, height: BULLET_SPRITE_SIZE },
                dst: Rect::from_center(center, BULLET_SPRITE_SIZE, BULLET_SPRITE_SIZE),
            },
        );
        i = i + 1;
    }
    ops
}

/// Lays out one whole frame in draw order: every projectile first,
/// then the player on top.  The caller clears the surface before the
/// first operation and presents after the last.
pub fn frame_draw_ops(state: &GameState, output_width: u32, output_height: u32) -> (ops: Vec<
    DrawOp,
>)
    ensures
        ops@.len() == state@.bullets.len() + 1,
        forall|i: int| 0 <= i < state@.bullets.len() ==> ops@[i] == bullet_draw_op(
            #[trigger] state@.bullets[i],
            output_width,
            output_height,
        ),
        ops@.last() == player_draw_op(state@.player, output_width, output_height),
{
    let mut ops = render_bullets(&state.bullets, output_width, output_height);
    let player_op = render(&state.player, output_width, output_height);
    ops.push(player_op);
    ops
}

} // verus!
