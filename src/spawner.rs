//! Timed enemy waves.

use vstd::prelude::*;
use crate::geometry::{Vec3, in_world, vec3, world_point, clamp_to_world};
use crate::components::{
    Enemy, Player, Health, AttackTimer, EnemySpawnTimer,
};
use crate::timer::{Timer, TimerMode};
use crate::combat::ENEMY_COOLDOWN_MS;
use crate::rng::random_in;

verus! {

/// Enemies appear 60 units ahead of the player.
pub const SPAWN_DISTANCE: i64 = 60_000;

pub const ENEMY_HEALTH: i64 = 100;

/// Number of enemy skins to pick from.
pub const ENEMY_MODELS: i64 = 4;

/// The random part of an enemy's lateral position lies in `[-3, 3)` units.
pub const SPAWN_JITTER: i64 = 3000;

/// The lateral wave term `sin(elapsed) * 5` lies in `[-5, 5]` units.
pub const WAVE_AMPLITUDE: i64 = 5000;

/// A one-shot timer of `duration_ms` that has already run out.
pub open spec fn ready_timer(duration_ms: u64) -> Timer {
    Timer { duration_ms, elapsed_ms: duration_ms, mode: TimerMode::Once, just_finished: false }
}

/// Direction an actor faces before it first turns: along negative `z`.
pub open spec fn initial_facing() -> Vec3 {
    vec3(0, 0, -1000)
}

/// A fresh enemy ahead of the player at `player_pos`, at lateral offset
/// `wave_z + jitter`, with full health and a ready attack.
pub open spec fn spawned(player_pos: Vec3, wave_z: i64, model: u8, jitter: i64) -> Enemy {
    Enemy {
        position: world_point(player_pos.x - SPAWN_DISTANCE, 0, wave_z + jitter),
        facing: initial_facing(),
        health: Health { current: ENEMY_HEALTH, max: ENEMY_HEALTH },
        attack: AttackTimer(ready_timer(ENEMY_COOLDOWN_MS)),
        model,
    }
}

pub fn spawn_enemy(player_pos: Vec3, wave_z: i64, model: u8, jitter: i64) -> (e: Enemy)
    requires
        in_world(player_pos),
    ensures
        e == spawned(player_pos, wave_z, model, jitter),
        e.wf(),
{
    Enemy {
        position: clamp_to_world(
            player_pos.x as i128 - SPAWN_DISTANCE as i128,
            0,
            wave_z as i128 + jitter as i128,
        ),
        facing: Vec3 { x: 0, y: 0, z: -1000 },
        health: Health::full(ENEMY_HEALTH),
        attack: AttackTimer(Timer::ready(ENEMY_COOLDOWN_MS)),
        model,
    }
}

/// The enemies after a tick of the spawn timer `t`: when it fired and a
/// player exists, the drawn enemy joins the end.
pub open spec fn after_spawn(
    enemies: Seq<Enemy>,
    t: Timer,
    player: Option<Player>,
    wave_z: i64,
    model: u8,
    jitter: i64,
) -> Seq<Enemy> {
    match player {
        Some(pl) => if t.just_finished {
            enemies.push(spawned(pl.position, wave_z, model, jitter))
        } else {
            enemies
        },
        None => enemies,
    }
}

pub open spec fn spawn_draw_ok(model: u8, jitter: i64) -> bool {
    0 <= model < ENEMY_MODELS && -SPAWN_JITTER <= jitter < SPAWN_JITTER
}

/// Draws the skin and the lateral jitter of the next enemy.
pub fn draw_spawn() -> (r: (u8, i64))
    ensures
        spawn_draw_ok(r.0, r.1),
{
    let model = random_in(0, ENEMY_MODELS) as u8;
    let jitter = random_in(-SPAWN_JITTER, SPAWN_JITTER);
    (model, jitter)
}

/// Ticks the spawn timer; when it fires and a player exists, an enemy with
/// skin `model` and lateral jitter `jitter` joins the end of `enemies`.
pub fn spawn_enemies(
    timer: &mut EnemySpawnTimer,
    player: &Option<Player>,
    wave_z: i64,
    dt_ms: u64,
    enemies: &mut Vec<Enemy>,
    model: u8,
    jitter: i64,
)
    requires
        old(timer).0.wf(),
        *player matches Some(pl) ==> pl.wf(),
        forall|i: int| 0 <= i < old(enemies).len() ==> (#[trigger] old(enemies)[i]).wf(),
    ensures
        final(timer).0 == old(timer).0.ticked(dt_ms),
        final(timer).0.wf(),
        final(enemies)@ == after_spawn(old(enemies)@, final(timer).0, *player, wave_z, model, jitter),
        forall|i: int| 0 <= i < final(enemies).len() ==> (#[trigger] final(enemies)[i]).wf(),
{
    timer.0.tick(dt_ms);
    if timer.0.just_finished {
        match player {
            Some(pl) => {
                let e = spawn_enemy(pl.position, wave_z, model, jitter);
                enemies.push(e);
            },
            None => {},
        }
    }
}

} // verus!
