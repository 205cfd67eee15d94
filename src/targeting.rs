//! Turning a pointer ray and held keys into an aim point and a movement
//! target.

use vstd::prelude::*;
use crate::geometry::{
    Vec3, in_world, in_box, abs, vec3, div_trunc, clamp_int, is_zero, scaled_to, world_point, WORLD_LIMIT,
    div_toward_zero, clamp_i128, scale_to, clamp_to_world,
};
use crate::components::{Player, TargetPosition, Progress, PLAYER_BOUNDARY_Z};

verus! {

/// Distance (milli-units) a directional key moves the target per tick.
pub const KEY_STEP: i64 = 1500;

/// A ray from the camera eye through the pointer, in world space.
#[derive(Clone, Copy, Debug, PartialEq, Eq, Structural)]
pub struct Ray {
    pub origin: Vec3,
    pub direction: Vec3,
}

/// The four directional keys held this tick.
#[derive(Clone, Copy, Debug, PartialEq, Eq, Structural)]
pub struct DirectionKeys {
    pub up: bool,
    pub down: bool,
    pub left: bool,
    pub right: bool,
}

/// The ray meets the ground plane `y = 0` in front of its origin
/// (`t = -origin.y / direction.y > 0`).
pub open spec fn hits_ground(r: Ray) -> bool {
    (r.origin.y > 0 && r.direction.y < 0) || (r.origin.y < 0 && r.direction.y > 0)
}

/// Coordinate `o + d * t` of the ground hit along one horizontal axis,
/// rounded toward zero.
pub open spec fn ground_coord(o: int, d: int, r: Ray) -> int {
    let oy = r.origin.y as int;
    let dy = r.direction.y as int;
    if dy < 0 {
        o + div_trunc(d * oy, -dy)
    } else {
        o + div_trunc(-(d * oy), dy)
    }
}

/// The ground point under the pointer, held behind the wall and inside the
/// lane (and inside the world box).
pub open spec fn resolved_point(r: Ray, wall_x: int) -> Option<Vec3> {
    if hits_ground(r) {
        Some(
            vec3(
                clamp_int(
                    ground_coord(r.origin.x as int, r.direction.x as int, r),
                    -WORLD_LIMIT,
                    wall_x,
                ),
                0,
                clamp_int(
                    ground_coord(r.origin.z as int, r.direction.z as int, r),
                    -PLAYER_BOUNDARY_Z,
                    PLAYER_BOUNDARY_Z as int,
                ),
            ),
        )
    } else {
        None
    }
}

/// Every resolved ground point lies at or behind the wall and inside the
/// lane, whatever the ray.
pub proof fn lemma_resolved_point_bounded(r: Ray, wall_x: int)
    requires
        -WORLD_LIMIT <= wall_x,
    ensures
        resolved_point(r, wall_x) matches Some(q) ==> {
            &&& q.x <= wall_x
            &&& -PLAYER_BOUNDARY_Z <= q.z <= PLAYER_BOUNDARY_Z
            &&& q.y == 0
        },
{
}

fn ground_coordinate(o: i64, d: i64, r: &Ray) -> (c: i128)
    requires
        in_world(r.origin),
        in_world(r.direction),
        in_box(o as int, WORLD_LIMIT as int),
        in_box(d as int, WORLD_LIMIT as int),
        r.direction.y != 0,
    ensures
        c == ground_coord(o as int, d as int, *r),
{
    let oy = r.origin.y as i128;
    let dy = r.direction.y as i128;
    assert(abs(d * oy) <= WORLD_LIMIT * WORLD_LIMIT) by (nonlinear_arith)
        requires
            in_box(d as int, WORLD_LIMIT as int),
            in_box(oy as int, WORLD_LIMIT as int),
    ;
    let p = d as i128 * oy;
    if dy < 0 {
        o as i128 + div_toward_zero(p, -dy)
    } else {
        o as i128 + div_toward_zero(-p, dy)
    }
}

/// Where the pointer ray meets the ground, or `None` when it does not meet
/// it in front of the camera. The longitudinal coordinate is held at or
/// behind `wall_x`, the lateral one inside the lane.
pub fn resolve_pointer(r: &Ray, wall_x: i64) -> (p: Option<Vec3>)
    requires
        in_world(r.origin),
        in_world(r.direction),
        -WORLD_LIMIT <= wall_x <= WORLD_LIMIT,
    ensures
        p == resolved_point(*r, wall_x as int),
        p is Some <==> hits_ground(*r),
        p matches Some(q) ==> {
            &&& q.x <= wall_x
            &&& -PLAYER_BOUNDARY_Z <= q.z <= PLAYER_BOUNDARY_Z
            &&& q.y == 0
            &&& in_world(q)
        },
{
    if (r.origin.y > 0 && r.direction.y < 0) || (r.origin.y < 0 && r.direction.y > 0) {
        let gx = ground_coordinate(r.origin.x, r.direction.x, r);
        let gz = ground_coordinate(r.origin.z, r.direction.z, r);
        let x = clamp_i128(gx, -WORLD_LIMIT, wall_x);
        let z = clamp_i128(gz, -PLAYER_BOUNDARY_Z, PLAYER_BOUNDARY_Z);
        Some(Vec3 { x, y: 0, z })
    } else {
        None
    }
}

/// Unit steps along the two horizontal axes for the held keys: up and down
/// move along the longitudinal axis (up is forward, toward negative `x`),
/// left and right along the lateral axis.
pub open spec fn key_direction(k: DirectionKeys) -> Vec3 {
    vec3(
        (if k.down { 1int } else { 0int }) - (if k.up { 1int } else { 0int }),
        0,
        (if k.left { 1int } else { 0int }) - (if k.right { 1int } else { 0int }),
    )
}

pub fn keyboard_direction(k: &DirectionKeys) -> (v: Vec3)
    ensures
        v == key_direction(*k),
{
    let mut x: i64 = 0;
    let mut z: i64 = 0;
    if k.up {
        x = x - 1;
    }
    if k.down {
        x = x + 1;
    }
    if k.left {
        z = z + 1;
    }
    if k.right {
        z = z - 1;
    }
    Vec3 { x, y: 0, z }
}

/// The target a keyboard step sets: the current position plus the key
/// direction scaled to `KEY_STEP`, kept inside the world box.
pub open spec fn keyboard_target(pos: Vec3, k: DirectionKeys) -> Vec3 {
    let d = scaled_to(key_direction(k), KEY_STEP as int);
    world_point(pos.x + d.x, pos.y + d.y, pos.z + d.z)
}

/// The player's movement target after this tick's input: the resolved
/// pointer point while the move button is held and the ray meets the
/// ground; otherwise a keyboard step when a direction is held; otherwise
/// the target is kept.
pub open spec fn input_target(
    player: Player,
    ray: Option<Ray>,
    move_held: bool,
    keys: DirectionKeys,
    wall_x: int,
) -> Vec3 {
    let pointer = if move_held {
        match ray {
            Some(r) => resolved_point(r, wall_x),
            None => None,
        }
    } else {
        None
    };
    match pointer {
        Some(p) => p,
        None => if !is_zero(key_direction(keys)) {
            keyboard_target(player.position, keys)
        } else {
            player.target.0
        },
    }
}

/// Sets the player's movement target from the pointer or the keys.
pub fn handle_input(
    player: &mut Player,
    ray: &Option<Ray>,
    move_held: bool,
    keys: &DirectionKeys,
    progress: &Progress,
)
    requires
        old(player).wf(),
        progress.wf(),
        ray matches Some(r) ==> in_world(r.origin) && in_world(r.direction),
    ensures
        *final(player) == (Player {
            target: TargetPosition(
                input_target(*old(player), *ray, move_held, *keys, progress.wall_x as int),
            ),
            ..*old(player)
        }),
        final(player).wf(),
{
    let mut pointer: Option<Vec3> = None;
    if move_held {
        if let Some(r) = ray {
            pointer = resolve_pointer(r, progress.wall_x);
        }
    }
    match pointer {
        Some(p) => {
            player.target = TargetPosition(p);
        },
        None => {
            let dir = keyboard_direction(keys);
            if dir.x != 0 || dir.y != 0 || dir.z != 0 {
                let step = scale_to(dir, KEY_STEP);
                let pos = player.position;
                let t = clamp_to_world(
                    pos.x as i128 + step.x as i128,
                    pos.y as i128 + step.y as i128,
                    pos.z as i128 + step.z as i128,
                );
                player.target = TargetPosition(t);
            }
        },
    }
}

} // verus!
