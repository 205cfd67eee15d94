//! Attack cooldowns, firing, projectile flight and hits.

use vstd::prelude::*;
use crate::geometry::{
    Vec3, in_world, in_box, abs, vec3, world_point, is_zero, len2, norm2, scaled_to, div_trunc,
    WORLD_LIMIT, difference, length_squared, scale_to, clamp_to_world, div_toward_zero,
};
use crate::components::{Player, Enemy, Projectile, HoverPosition, AttackTimer};
use crate::timer::Timer;
use crate::movement::{flat_diff, diff};

verus! {

pub const PLAYER_COOLDOWN_MS: u64 = 500;
pub const ENEMY_COOLDOWN_MS: u64 = 2000;

/// Player shots: 25 units per second, 25 damage.
pub const PLAYER_SHOT_SPEED: i64 = 25_000;
pub const PLAYER_SHOT_DAMAGE: i64 = 25;

/// Enemy shots: 15 units per second, 10 damage.
pub const ENEMY_SHOT_SPEED: i64 = 15_000;
pub const ENEMY_SHOT_DAMAGE: i64 = 10;

/// Enemies fire only while closer than 35 units to the player.
pub const ENEMY_RANGE: i64 = 35_000;

/// Height above an actor's feet at which shots leave and hit.
pub const BODY_HEIGHT: i64 = 1500;

/// A shot hits an actor when closer than 2 units to its body point.
pub const HIT_RADIUS: i64 = 2000;

/// Shots farther than 500 units from the origin are dropped.
pub const PROJECTILE_RANGE: i64 = 500_000;

/// Direction of a player shot when the aim point gives none.
pub open spec fn default_shot_dir() -> Vec3 {
    vec3(-1, 0, -1)
}

/// `p` raised to body height, kept inside the world box.
pub open spec fn muzzle(p: Vec3) -> Vec3 {
    world_point(p.x as int, p.y + BODY_HEIGHT, p.z as int)
}

/// The shot the player fires toward `aim`: along the horizontal direction
/// to the aim point, or along the default direction when that is zero.
pub open spec fn player_shot(pos: Vec3, aim: Vec3) -> Projectile {
    let d = flat_diff(aim, pos);
    Projectile {
        position: muzzle(pos),
        velocity: scaled_to(
            if is_zero(d) { default_shot_dir() } else { d },
            PLAYER_SHOT_SPEED as int,
        ),
        damage: PLAYER_SHOT_DAMAGE,
        is_player: true,
    }
}

/// The player's cooldown after this tick, and the shot fired if any: the
/// cooldown ticks, and when the attack input is held and the cooldown is
/// ready a shot leaves and the cooldown restarts.
pub open spec fn player_attack(p: Player, aim: Vec3, attack_held: bool, dt_ms: u64) -> (
    Player,
    Option<Projectile>,
) {
    let t = p.attack.0.ticked(dt_ms);
    if attack_held && t.spec_finished() {
        (
            Player { attack: AttackTimer(Timer { elapsed_ms: 0, just_finished: false, ..t }), ..p },
            Some(player_shot(p.position, aim)),
        )
    } else {
        (Player { attack: AttackTimer(t), ..p }, None)
    }
}

fn raise(p: Vec3) -> (r: Vec3)
    requires
        in_world(p),
    ensures
        r == muzzle(p),
        in_world(r),
{
    clamp_to_world(p.x as i128, p.y as i128 + BODY_HEIGHT as i128, p.z as i128)
}

/// Ticks the player's cooldown and fires when the attack input is held and
/// the cooldown is ready.
pub fn player_fire(player: &mut Player, hover: &HoverPosition, attack_held: bool, dt_ms: u64) -> (shot: Option<Projectile>)
    requires
        old(player).wf(),
        in_world(hover.world),
    ensures
        (*final(player), shot) == player_attack(*old(player), hover.world, attack_held, dt_ms),
        final(player).wf(),
        shot matches Some(s) ==> s.wf(),
{
    player.attack.0.tick(dt_ms);
    if attack_held && player.attack.0.finished() {
        let pos = player.position;
        let d = Vec3 { x: hover.world.x - pos.x, y: 0, z: hover.world.z - pos.z };
        let dir = if d.x == 0 && d.z == 0 {
            Vec3 { x: -1, y: 0, z: -1 }
        } else {
            d
        };
        let velocity = scale_to(dir, PLAYER_SHOT_SPEED);
        let shot = Projectile {
            position: raise(pos),
            velocity,
            damage: PLAYER_SHOT_DAMAGE,
            is_player: true,
        };
        player.attack.0.reset();
        Some(shot)
    } else {
        None
    }
}

/// The shot an enemy at `from` fires at the player at `to`.
pub open spec fn enemy_shot(from: Vec3, to: Vec3) -> Projectile {
    let d = diff(to, from);
    Projectile {
        position: muzzle(from),
        velocity: if is_zero(d) { d } else { scaled_to(d, ENEMY_SHOT_SPEED as int) },
        damage: ENEMY_SHOT_DAMAGE,
        is_player: false,
    }
}

pub open spec fn in_range(a: Vec3, b: Vec3) -> bool {
    len2(diff(a, b)) < ENEMY_RANGE * ENEMY_RANGE
}

/// An enemy's cooldown after this tick, and its shot if it fires: the
/// cooldown always ticks; a ready enemy within range of the player fires at
/// the player's current position and restarts its cooldown.
pub open spec fn enemy_attack(e: Enemy, target: Option<Vec3>, dt_ms: u64) -> (Enemy, Option<Projectile>) {
    let t = e.attack.0.ticked(dt_ms);
    match target {
        Some(to) => if t.spec_finished() && in_range(to, e.position) {
            (
                Enemy { attack: AttackTimer(Timer { elapsed_ms: 0, just_finished: false, ..t }), ..e },
                Some(enemy_shot(e.position, to)),
            )
        } else {
            (Enemy { attack: AttackTimer(t), ..e }, None)
        },
        None => (Enemy { attack: AttackTimer(t), ..e }, None),
    }
}

pub fn enemy_fire(e: &mut Enemy, target: Option<Vec3>, dt_ms: u64) -> (shot: Option<Projectile>)
    requires
        old(e).wf(),
        target matches Some(t) ==> in_world(t),
    ensures
        (*final(e), shot) == enemy_attack(*old(e), target, dt_ms),
        final(e).wf(),
        shot matches Some(s) ==> s.wf(),
{
    e.attack.0.tick(dt_ms);
    match target {
        Some(to) => {
            if e.attack.0.finished() {
                let d = difference(to, e.position);
                let n2 = length_squared(d);
                if n2 < (ENEMY_RANGE * ENEMY_RANGE) as u128 {
                    let velocity = if d.x == 0 && d.y == 0 && d.z == 0 {
                        d
                    } else {
                        scale_to(d, ENEMY_SHOT_SPEED)
                    };
                    let shot = Projectile {
                        position: raise(e.position),
                        velocity,
                        damage: ENEMY_SHOT_DAMAGE,
                        is_player: false,
                    };
                    e.attack.0.reset();
                    return Some(shot);
                }
            }
            None
        },
        None => None,
    }
}

/// The shots fired by a sequence of enemies, in their order.
pub open spec fn volley(s: Seq<Enemy>, target: Option<Vec3>, dt_ms: u64) -> Seq<Projectile>
    decreases s.len(),
{
    if s.len() == 0 {
        Seq::empty()
    } else {
        let rest = volley(s.drop_last(), target, dt_ms);
        match enemy_attack(s.last(), target, dt_ms).1 {
            Some(p) => rest.push(p),
            None => rest,
        }
    }
}

/// Every enemy ticks its cooldown and, when it fires, its shot is appended
/// to `shots`.
pub fn enemy_attacks(enemies: &mut Vec<Enemy>, target: Option<Vec3>, dt_ms: u64, shots: &mut Vec<Projectile>)
    requires
        forall|i: int| 0 <= i < old(enemies).len() ==> (#[trigger] old(enemies)[i]).wf(),
        forall|i: int| 0 <= i < old(shots).len() ==> (#[trigger] old(shots)[i]).wf(),
        target matches Some(t) ==> in_world(t),
    ensures
        final(enemies).len() == old(enemies).len(),
        forall|i: int|
            0 <= i < final(enemies).len() ==> #[trigger] final(enemies)[i] == enemy_attack(
                old(enemies)[i],
                target,
                dt_ms,
            ).0,
        final(shots)@ == old(shots)@ + volley(old(enemies)@, target, dt_ms),
        forall|i: int| 0 <= i < final(enemies).len() ==> (#[trigger] final(enemies)[i]).wf(),
        forall|i: int| 0 <= i < final(shots).len() ==> (#[trigger] final(shots)[i]).wf(),
{
    let ghost start = enemies@;
    let ghost start_shots = shots@;
    let n = enemies.len();
    let mut i: usize = 0;
    while i < n
        invariant
            n == start.len(),
            enemies.len() == n,
            i <= n,
            target matches Some(t) ==> in_world(t),
            forall|j: int| 0 <= j < n ==> (#[trigger] start[j]).wf(),
            forall|j: int| 0 <= j < i ==> #[trigger] enemies[j] == enemy_attack(start[j], target, dt_ms).0,
            forall|j: int| i <= j < n ==> #[trigger] enemies[j] == start[j],
            forall|j: int| 0 <= j < i ==> (#[trigger] enemies[j]).wf(),
            shots@ == start_shots + volley(start.subrange(0, i as int), target, dt_ms),
            forall|j: int| 0 <= j < shots.len() ==> (#[trigger] shots[j]).wf(),
        decreases n - i,
    {
        let mut e = enemies[i];
        let shot = enemy_fire(&mut e, target, dt_ms);
        enemies.set(i, e);
        proof {
            assert(start.subrange(0, i + 1).drop_last() =~= start.subrange(0, i as int));
            assert(start.subrange(0, i + 1).last() == start[i as int]);
        }
        match shot {
            Some(s) => {
                shots.push(s);
            },
            None => {},
        }
        i = i + 1;
    }
    proof {
        assert(start.subrange(0, n as int) =~= start);
    }
}

/// A shot after flying for `dt_ms`, kept inside the world box.
pub open spec fn flown(p: Projectile, dt_ms: u64) -> Projectile {
    Projectile {
        position: world_point(
            p.position.x + div_trunc(p.velocity.x * dt_ms, 1000),
            p.position.y + div_trunc(p.velocity.y * dt_ms, 1000),
            p.position.z + div_trunc(p.velocity.z * dt_ms, 1000),
        ),
        ..p
    }
}

/// A shot past this point is dropped.
pub open spec fn too_far(pos: Vec3) -> bool {
    len2(pos) > PROJECTILE_RANGE * PROJECTILE_RANGE
}

/// A shot at `pos` is within the hit radius of the body point of an actor
/// standing at `a`.
pub open spec fn near(pos: Vec3, a: Vec3) -> bool {
    norm2(pos.x - a.x, pos.y - (a.y + BODY_HEIGHT), pos.z - a.z) < HIT_RADIUS * HIT_RADIUS
}

fn offset_coord(c: i64, v: i64, dt_ms: u64) -> (r: i128)
    requires
        in_box(c as int, WORLD_LIMIT as int),
        in_box(v as int, WORLD_LIMIT as int),
    ensures
        r == c + div_trunc(v * dt_ms, 1000),
{
    assert(abs(v * dt_ms) <= WORLD_LIMIT * 0x1_0000_0000_0000_0000) by (nonlinear_arith)
        requires
            in_box(v as int, WORLD_LIMIT as int),
            0 <= dt_ms < 0x1_0000_0000_0000_0000,
    ;
    c as i128 + div_toward_zero(v as i128 * dt_ms as i128, 1000)
}

/// Moves a shot along its velocity for `dt_ms`.
pub fn fly(p: &mut Projectile, dt_ms: u64)
    requires
        old(p).wf(),
    ensures
        *final(p) == flown(*old(p), dt_ms),
        final(p).wf(),
{
    let x = offset_coord(p.position.x, p.velocity.x, dt_ms);
    let y = offset_coord(p.position.y, p.velocity.y, dt_ms);
    let z = offset_coord(p.position.z, p.velocity.z, dt_ms);
    p.position = clamp_to_world(x, y, z);
}

fn square(a: i128) -> (r: i128)
    requires
        in_box(a as int, 3 * WORLD_LIMIT),
    ensures
        r == a * a,
        0 <= r <= 9 * WORLD_LIMIT * WORLD_LIMIT,
{
    assert(0 <= a * a <= 9 * WORLD_LIMIT * WORLD_LIMIT) by (nonlinear_arith)
        requires
            in_box(a as int, 3 * WORLD_LIMIT),
    ;
    a * a
}

pub fn is_near(pos: Vec3, a: Vec3) -> (r: bool)
    requires
        in_world(pos),
        in_world(a),
    ensures
        r == near(pos, a),
{
    let dx = square(pos.x as i128 - a.x as i128);
    let dy = square(pos.y as i128 - (a.y as i128 + BODY_HEIGHT as i128));
    let dz = square(pos.z as i128 - a.z as i128);
    dx + dy + dz < (HIT_RADIUS * HIT_RADIUS) as i128
}

/// Index of the first enemy, from `j` on, that a shot at `pos` hits, or the
/// length of `s` when none is hit.
pub open spec fn first_hit_from(s: Seq<Enemy>, pos: Vec3, j: int) -> int
    decreases s.len() - j,
{
    if j < 0 || j >= s.len() {
        s.len() as int
    } else if near(pos, s[j].position) {
        j
    } else {
        first_hit_from(s, pos, j + 1)
    }
}

pub open spec fn first_hit(s: Seq<Enemy>, pos: Vec3) -> int {
    first_hit_from(s, pos, 0)
}

proof fn lemma_first_hit_range(s: Seq<Enemy>, pos: Vec3, j: int)
    requires
        0 <= j <= s.len(),
    ensures
        j <= first_hit_from(s, pos, j) <= s.len(),
        first_hit_from(s, pos, j) < s.len() ==> near(pos, s[first_hit_from(s, pos, j)].position),
    decreases s.len() - j,
{
    if j < s.len() && !near(pos, s[j].position) {
        lemma_first_hit_range(s, pos, j + 1);
    }
}

/// Finds the first enemy (in order, not the closest) that a shot at `pos`
/// hits.
pub fn find_first_hit(enemies: &Vec<Enemy>, pos: Vec3) -> (k: usize)
    requires
        forall|i: int| 0 <= i < enemies.len() ==> (#[trigger] enemies[i]).wf(),
        in_world(pos),
    ensures
        k == first_hit(enemies@, pos),
        k <= enemies.len(),
{
    let mut j: usize = 0;
    proof {
        lemma_first_hit_range(enemies@, pos, 0);
    }
    while j < enemies.len()
        invariant
            j <= enemies.len(),
            first_hit(enemies@, pos) == first_hit_from(enemies@, pos, j as int),
            forall|i: int| 0 <= i < enemies.len() ==> (#[trigger] enemies[i]).wf(),
            in_world(pos),
        decreases enemies.len() - j,
    {
        if is_near(pos, enemies[j].position) {
            return j;
        }
        j = j + 1;
    }
    j
}

/// What the shots in flight leave behind: the shots still flying, the
/// enemies and the player.
pub type Field = (Seq<Projectile>, Seq<Enemy>, Option<Player>);

/// One shot's tick: it flies; past the range it is dropped; a player shot
/// that hits an enemy (the first hit, in order) damages it and is spent;
/// an enemy shot that hits the player damages the player and is spent;
/// otherwise it keeps flying.
pub open spec fn resolve_shot(f: Field, p: Projectile, dt_ms: u64) -> Field {
    let q = flown(p, dt_ms);
    if too_far(q.position) {
        f
    } else if q.is_player {
        let k = first_hit(f.1, q.position);
        if k < f.1.len() {
            (f.0, f.1.update(k, Enemy { health: f.1[k].health.after_hit(q.damage), ..f.1[k] }), f.2)
        } else {
            (f.0.push(q), f.1, f.2)
        }
    } else {
        match f.2 {
            Some(pl) => if near(q.position, pl.position) {
                (f.0, f.1, Some(Player { health: pl.health.after_hit(q.damage), ..pl }))
            } else {
                (f.0.push(q), f.1, f.2)
            },
            None => (f.0.push(q), f.1, f.2),
        }
    }
}

/// Where a shot would be after `dt_ms` without the world box: its position
/// plus its velocity times the time, rounded toward zero.
pub open spec fn straight_line(p: Projectile, dt_ms: u64) -> (int, int, int) {
    (
        p.position.x + div_trunc(p.velocity.x * dt_ms, 1000),
        p.position.y + div_trunc(p.velocity.y * dt_ms, 1000),
        p.position.z + div_trunc(p.velocity.z * dt_ms, 1000),
    )
}

/// A shot that stays inside the range and meets nobody of the other side
/// flies on in a straight line: it moves by its velocity times the tick,
/// keeps its velocity, damage and side, stays in flight, and no health
/// changes.
pub proof fn lemma_straight_flight(f: Field, p: Projectile, dt_ms: u64)
    requires
        in_box(straight_line(p, dt_ms).0, WORLD_LIMIT as int),
        in_box(straight_line(p, dt_ms).1, WORLD_LIMIT as int),
        in_box(straight_line(p, dt_ms).2, WORLD_LIMIT as int),
        !too_far(flown(p, dt_ms).position),
        p.is_player ==> forall|k: int|
            0 <= k < f.1.len() ==> !near(flown(p, dt_ms).position, #[trigger] f.1[k].position),
        !p.is_player ==> (f.2 matches Some(pl) ==> !near(flown(p, dt_ms).position, pl.position)),
    ensures
        flown(p, dt_ms).position == vec3(
            straight_line(p, dt_ms).0,
            straight_line(p, dt_ms).1,
            straight_line(p, dt_ms).2,
        ),
        flown(p, dt_ms) == (Projectile { position: flown(p, dt_ms).position, ..p }),
        resolve_shot(f, p, dt_ms) == (f.0.push(flown(p, dt_ms)), f.1, f.2),
{
    let q = flown(p, dt_ms);
    lemma_first_hit_range(f.1, q.position, 0);
}

/// All shots resolved in order, starting from no shots kept.
pub open spec fn resolve_shots(s: Seq<Projectile>, enemies: Seq<Enemy>, player: Option<Player>, dt_ms: u64) -> Field
    decreases s.len(),
{
    if s.len() == 0 {
        (Seq::empty(), enemies, player)
    } else {
        resolve_shot(resolve_shots(s.drop_last(), enemies, player, dt_ms), s.last(), dt_ms)
    }
}

/// Flies every shot for one tick and applies its hit, if any (see
/// `resolve_shot`).
pub fn update_projectiles(
    projectiles: &mut Vec<Projectile>,
    enemies: &mut Vec<Enemy>,
    player: &mut Option<Player>,
    dt_ms: u64,
)
    requires
        forall|i: int| 0 <= i < old(projectiles).len() ==> (#[trigger] old(projectiles)[i]).wf(),
        forall|i: int| 0 <= i < old(enemies).len() ==> (#[trigger] old(enemies)[i]).wf(),
        *old(player) matches Some(pl) ==> pl.wf(),
    ensures
        (final(projectiles)@, final(enemies)@, *final(player)) == resolve_shots(
            old(projectiles)@,
            old(enemies)@,
            *old(player),
            dt_ms,
        ),
        forall|i: int| 0 <= i < final(projectiles).len() ==> (#[trigger] final(projectiles)[i]).wf(),
        forall|i: int| 0 <= i < final(enemies).len() ==> (#[trigger] final(enemies)[i]).wf(),
        *final(player) matches Some(pl) ==> pl.wf(),
        final(player).is_some() == old(player).is_some(),
        *final(player) matches Some(pl) ==> pl == (Player { health: pl.health, ..old(player)->0 }),
{
    let ghost start = projectiles@;
    let ghost start_enemies = enemies@;
    let ghost start_player = *player;
    let n = projectiles.len();
    let mut kept: Vec<Projectile> = Vec::new();
    let mut i: usize = 0;
    while i < n
        invariant
            n == start.len(),
            projectiles@ == start,
            i <= n,
            forall|j: int| 0 <= j < n ==> (#[trigger] start[j]).wf(),
            (kept@, enemies@, *player) == resolve_shots(
                start.subrange(0, i as int),
                start_enemies,
                start_player,
                dt_ms,
            ),
            forall|j: int| 0 <= j < kept.len() ==> (#[trigger] kept[j]).wf(),
            forall|j: int| 0 <= j < enemies.len() ==> (#[trigger] enemies[j]).wf(),
            *player matches Some(pl) ==> pl.wf(),
            player.is_some() == start_player.is_some(),
            *player matches Some(pl) ==> pl == (Player { health: pl.health, ..start_player->0 }),
        decreases n - i,
    {
        proof {
            assert(start.subrange(0, i + 1).drop_last() =~= start.subrange(0, i as int));
            assert(start.subrange(0, i + 1).last() == start[i as int]);
        }
        let mut q = projectiles[i];
        fly(&mut q, dt_ms);
        let d2 = length_squared(q.position);
        if d2 > (PROJECTILE_RANGE * PROJECTILE_RANGE) as u128 {
        } else if q.is_player {
            let k = find_first_hit(enemies, q.position);
            if k < enemies.len() {
                let mut e = enemies[k];
                e.health.hit(q.damage);
                enemies.set(k, e);
            } else {
                kept.push(q);
            }
        } else {
            match *player {
                Some(pl) => {
                    if is_near(q.position, pl.position) {
                        let mut hit = pl;
                        hit.health.hit(q.damage);
                        *player = Some(hit);
                    } else {
                        kept.push(q);
                    }
                },
                None => {
                    kept.push(q);
                },
            }
        }
        i = i + 1;
    }
    proof {
        assert(start.subrange(0, n as int) =~= start);
    }
    *projectiles = kept;
}

} // verus!
