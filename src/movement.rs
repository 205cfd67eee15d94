//! Moving and orienting the player and the enemies, the progress wall, and
//! the camera rig that follows them.

use vstd::prelude::*;
use crate::geometry::{
    Vec3, in_world, in_box, vec3, clamp_int, world_point, is_zero, len2, scaled_to, WORLD_LIMIT,
    SPEED_LIMIT, UNIT, difference, length_squared, scale_to, clamp_to_world, clamp_i128,
};
use crate::components::{Player, Enemy, Progress, HoverPosition, PLAYER_BOUNDARY_Z};

verus! {

/// Player speed: 7 units per second.
pub const PLAYER_SPEED: i64 = 7000;

/// Enemy speed: 5 units per second.
pub const ENEMY_SPEED: i64 = 5000;

/// The player stops once within 0.1 units of its target.
pub const ARRIVE_RADIUS: i64 = 100;

/// Enemies stop closing in within 10 units of the player.
pub const STOP_RADIUS: i64 = 10_000;

/// Gap kept between `min_x` and the wall while the player advances.
pub const ADVANCE_WALL_GAP: i64 = 15_000;

/// Squared horizontal aim length (0.01 square units) below which the
/// player keeps its orientation.
pub const AIM_DEADZONE2: i64 = 10_000;

/// Distance covered at `speed` milli-units per second in `dt_ms`.
pub open spec fn travel(speed: int, dt_ms: u64) -> int {
    (speed * dt_ms) / 1000
}

pub open spec fn diff(a: Vec3, b: Vec3) -> Vec3 {
    vec3(a.x - b.x, a.y - b.y, a.z - b.z)
}

/// `pos` moved by `step` along `d`, kept inside the world box.
pub open spec fn advance_along(pos: Vec3, d: Vec3, step: int) -> Vec3 {
    let s = scaled_to(d, step);
    world_point(pos.x + s.x, pos.y + s.y, pos.z + s.z)
}

/// The player's position after walking `step` toward `target`: unchanged
/// within the arrival radius, exactly on the target when one step would
/// reach past it, otherwise one step along the way.
pub open spec fn walk(pos: Vec3, target: Vec3, step: int) -> Vec3 {
    let d = diff(target, pos);
    if len2(d) <= ARRIVE_RADIUS * ARRIVE_RADIUS {
        pos
    } else if step * step > len2(d) {
        target
    } else {
        advance_along(pos, d, step)
    }
}

/// `p` held at or behind the wall and inside the lane.
pub open spec fn bounded(p: Vec3, wall_x: int) -> Vec3 {
    vec3(
        if p.x > wall_x { wall_x } else { p.x as int },
        p.y as int,
        clamp_int(p.z as int, -PLAYER_BOUNDARY_Z, PLAYER_BOUNDARY_Z as int),
    )
}

/// Progress after the player reached longitudinal coordinate `x`.
pub open spec fn advanced(p: Progress, x: int) -> Progress {
    if x < p.min_x {
        Progress { min_x: x as i64, wall_x: (x + ADVANCE_WALL_GAP) as i64 }
    } else {
        p
    }
}

/// The wall stays ahead of the furthest point reached, and the furthest
/// point reached never moves back while the player walks.
pub proof fn lemma_advance_keeps_wall_ahead(p: Progress, x: int)
    requires
        p.wf(),
        -WORLD_LIMIT <= x,
    ensures
        advanced(p, x).wf(),
        advanced(p, x).min_x <= p.min_x,
        advanced(p, x).min_x < advanced(p, x).wall_x,
{
}

proof fn lemma_big_step_passes(step: int, n: int)
    requires
        step > 4 * WORLD_LIMIT,
        0 <= n <= 12 * WORLD_LIMIT * WORLD_LIMIT,
    ensures
        step * step > n,
{
    assert(step * step > 16 * WORLD_LIMIT * WORLD_LIMIT) by (nonlinear_arith)
        requires
            step > 4 * WORLD_LIMIT,
    ;
}

fn step_along(pos: Vec3, d: Vec3, step: i64) -> (r: Vec3)
    requires
        in_world(pos),
        in_box(d.x as int, 2 * WORLD_LIMIT),
        in_box(d.y as int, 2 * WORLD_LIMIT),
        in_box(d.z as int, 2 * WORLD_LIMIT),
        !is_zero(d),
        0 <= step <= SPEED_LIMIT,
    ensures
        r == advance_along(pos, d, step as int),
        in_world(r),
{
    let s = scale_to(d, step);
    clamp_to_world(
        pos.x as i128 + s.x as i128,
        pos.y as i128 + s.y as i128,
        pos.z as i128 + s.z as i128,
    )
}

/// Walks the player toward its target at `PLAYER_SPEED`, holds it behind
/// the wall and inside the lane, then moves `min_x` and the wall forward if
/// the player got further than ever before.
pub fn move_player(player: &mut Player, progress: &mut Progress, dt_ms: u64)
    requires
        old(player).wf(),
        old(progress).wf(),
    ensures
        *final(player) == (Player {
            position: bounded(
                walk(
                    old(player).position,
                    old(player).target.0,
                    travel(PLAYER_SPEED as int, dt_ms),
                ),
                old(progress).wall_x as int,
            ),
            ..*old(player)
        }),
        *final(progress) == advanced(*old(progress), final(player).position.x as int),
        final(player).wf(),
        final(progress).wf(),
        final(player).position.x <= final(progress).wall_x,
        -PLAYER_BOUNDARY_Z <= final(player).position.z <= PLAYER_BOUNDARY_Z,
        final(progress).min_x <= old(progress).min_x,
{
    let pos = player.position;
    let target = player.target.0;
    let d = difference(target, pos);
    let n2 = length_squared(d);
    let step: u128 = (PLAYER_SPEED as u128 * dt_ms as u128) / 1000;
    let walked: Vec3 = if n2 <= (ARRIVE_RADIUS * ARRIVE_RADIUS) as u128 {
        pos
    } else if step > 4 * WORLD_LIMIT as u128 {
        proof {
            lemma_big_step_passes(step as int, n2 as int);
        }
        target
    } else {
        assert(step * step <= 16 * WORLD_LIMIT * WORLD_LIMIT) by (nonlinear_arith)
            requires
                step <= 4 * WORLD_LIMIT,
        ;
        if step * step > n2 {
            target
        } else {
            step_along(pos, d, step as i64)
        }
    };
    let x = if walked.x > progress.wall_x {
        progress.wall_x
    } else {
        walked.x
    };
    let z = clamp_i128(walked.z as i128, -PLAYER_BOUNDARY_Z, PLAYER_BOUNDARY_Z);
    player.position = Vec3 { x, y: walked.y, z };
    if x < progress.min_x {
        progress.min_x = x;
        progress.wall_x = x + ADVANCE_WALL_GAP;
    }
}

/// The horizontal part of the vector from `from` to `to`.
pub open spec fn flat_diff(to: Vec3, from: Vec3) -> Vec3 {
    vec3(to.x - from.x, 0, to.z - from.z)
}

/// Orientation after aiming at `aim`: the unit (1000 milli-unit) horizontal
/// direction toward it, or the old orientation when the aim point is within
/// the dead zone.
pub open spec fn aimed(facing: Vec3, pos: Vec3, aim: Vec3) -> Vec3 {
    let look = flat_diff(aim, pos);
    if len2(look) > AIM_DEADZONE2 {
        scaled_to(look, UNIT as int)
    } else {
        facing
    }
}

/// Turns the player toward the hover point.
pub fn player_aiming(player: &mut Player, hover: &HoverPosition)
    requires
        old(player).wf(),
        in_world(hover.world),
    ensures
        *final(player) == (Player {
            facing: aimed(old(player).facing, old(player).position, hover.world),
            ..*old(player)
        }),
        final(player).wf(),
{
    let pos = player.position;
    let look = Vec3 { x: hover.world.x - pos.x, y: 0, z: hover.world.z - pos.z };
    let n2 = length_squared(look);
    if n2 > AIM_DEADZONE2 as u128 {
        player.facing = scale_to(look, UNIT);
    }
}

/// One enemy after a tick of pursuit: it closes in on the player by its
/// travel for the tick while horizontally farther than the stopping radius,
/// and always
/// faces the player (keeping its orientation only when standing exactly on
/// the player).
pub open spec fn pursued(e: Enemy, target: Vec3, dt_ms: u64) -> Enemy {
    let d = diff(target, e.position);
    let step = if travel(ENEMY_SPEED as int, dt_ms) > SPEED_LIMIT {
        SPEED_LIMIT as int
    } else {
        travel(ENEMY_SPEED as int, dt_ms)
    };
    Enemy {
        position: if len2(flat_diff(target, e.position)) > STOP_RADIUS * STOP_RADIUS {
            advance_along(e.position, d, step)
        } else {
            e.position
        },
        facing: if is_zero(d) {
            e.facing
        } else {
            scaled_to(d, UNIT as int)
        },
        ..e
    }
}

pub fn move_enemy(e: &mut Enemy, target: Vec3, dt_ms: u64)
    requires
        old(e).wf(),
        in_world(target),
    ensures
        *final(e) == pursued(*old(e), target, dt_ms),
        final(e).wf(),
{
    let d = difference(target, e.position);
    let n2 = length_squared(Vec3 { y: 0, ..d });
    let travel: u128 = (ENEMY_SPEED as u128 * dt_ms as u128) / 1000;
    let step: i64 = if travel > SPEED_LIMIT as u128 {
        SPEED_LIMIT
    } else {
        travel as i64
    };
    if d.x != 0 || d.y != 0 || d.z != 0 {
        if n2 > (STOP_RADIUS * STOP_RADIUS) as u128 {
            e.position = step_along(e.position, d, step);
        }
        e.facing = scale_to(d, UNIT);
    }
}

/// Every enemy pursues the player's position.
pub fn move_enemies(enemies: &mut Vec<Enemy>, target: Vec3, dt_ms: u64)
    requires
        forall|i: int| 0 <= i < old(enemies).len() ==> (#[trigger] old(enemies)[i]).wf(),
        in_world(target),
    ensures
        final(enemies).len() == old(enemies).len(),
        forall|i: int|
            0 <= i < final(enemies).len() ==> #[trigger] final(enemies)[i] == pursued(
                old(enemies)[i],
                target,
                dt_ms,
            ),
        forall|i: int| 0 <= i < final(enemies).len() ==> (#[trigger] final(enemies)[i]).wf(),
{
    let ghost start = enemies@;
    let n = enemies.len();
    let mut i: usize = 0;
    while i < n
        invariant
            n == start.len(),
            enemies.len() == n,
            in_world(target),
            i <= n,
            forall|j: int| 0 <= j < n ==> (#[trigger] start[j]).wf(),
            forall|j: int| 0 <= j < i ==> #[trigger] enemies[j] == pursued(start[j], target, dt_ms),
            forall|j: int| i <= j < n ==> #[trigger] enemies[j] == start[j],
            forall|j: int| 0 <= j < i ==> (#[trigger] enemies[j]).wf(),
        decreases n - i,
    {
        let mut e = enemies[i];
        move_enemy(&mut e, target, dt_ms);
        enemies.set(i, e);
        i = i + 1;
    }
}

/// Where the camera stands and what it looks at.
#[derive(Clone, Copy, Debug, PartialEq, Eq, Structural)]
pub struct CameraRig {
    pub position: Vec3,
    pub look_at: Vec3,
}

/// Offset of the camera from the point it follows, on each axis.
pub const CAMERA_OFFSET: i64 = 20_000;

/// The camera follows the progress longitudinally and the player laterally
/// and vertically, and looks at `(min_x, player.y, player.z)`.
pub open spec fn camera_rig(progress: Progress, player_pos: Vec3) -> CameraRig {
    CameraRig {
        position: vec3(
            progress.min_x + CAMERA_OFFSET,
            player_pos.y + CAMERA_OFFSET,
            player_pos.z + CAMERA_OFFSET,
        ),
        look_at: Vec3 { x: progress.min_x, ..player_pos },
    }
}

pub fn camera_follow(progress: &Progress, player_pos: Vec3) -> (r: CameraRig)
    requires
        progress.wf(),
        in_world(player_pos),
    ensures
        r == camera_rig(*progress, player_pos),
{
    CameraRig {
        position: Vec3 {
            x: progress.min_x + CAMERA_OFFSET,
            y: player_pos.y + CAMERA_OFFSET,
            z: player_pos.z + CAMERA_OFFSET,
        },
        look_at: Vec3 { x: progress.min_x, y: player_pos.y, z: player_pos.z },
    }
}

} // verus!
