//! The endless lane: moving the player forward by a fixed offset once it has
//! gone far enough, and refreshing the scenery and the enemies around it.

use vstd::prelude::*;
use crate::geometry::{Vec3, WORLD_LIMIT, clamp_int, clamp_i128};
use crate::components::{
    Player, Enemy, Prop, Progress, TargetPosition, RECYCLE_LIMIT_X, RECYCLE_OFFSET_X,
    LANE_HALF_WIDTH, MAX_WALL_GAP,
};
use crate::rng::random_in;

verus! {

/// The random part of a prop's new lateral distance lies in `[-2, 4)` units.
pub const PROP_JITTER_LOW: i64 = -2000;
pub const PROP_JITTER_HIGH: i64 = 4000;

/// A prop moved back onto its side of the lane at distance
/// `LANE_HALF_WIDTH + jitter` from the centre line.
pub open spec fn repositioned(p: Prop, jitter: i64) -> Prop {
    let distance = LANE_HALF_WIDTH + jitter;
    Prop {
        position: Vec3 { z: (if p.position.z > 0 { distance } else { -distance }) as i64, ..p.position },
        ..p
    }
}

pub open spec fn jitter_ok(j: i64) -> bool {
    PROP_JITTER_LOW <= j < PROP_JITTER_HIGH
}


/// The player moved forward by the recycle offset, its target with it.
pub open spec fn teleported(pl: Player) -> Player {
    Player {
        position: Vec3 { x: (pl.position.x + RECYCLE_OFFSET_X) as i64, ..pl.position },
        target: TargetPosition(
            Vec3 {
                x: clamp_int(pl.target.0.x + RECYCLE_OFFSET_X, -WORLD_LIMIT, WORLD_LIMIT as int) as i64,
                ..pl.target.0
            },
        ),
        ..pl
    }
}

/// Moves the player forward, resets the progress to the new position with
/// the widest wall gap, puts every prop back on its side of the lane at a
/// new distance, and removes every enemy.
pub fn recycle_lane(
    player: &mut Player,
    progress: &mut Progress,
    props: &mut Vec<Prop>,
    enemies: &mut Vec<Enemy>,
    jitter: &Vec<i64>,
)
    requires
        old(player).wf(),
        old(player).position.x < RECYCLE_LIMIT_X,
        jitter.len() == old(props).len(),
        forall|i: int| 0 <= i < jitter.len() ==> jitter_ok(#[trigger] jitter[i]),
        forall|i: int| 0 <= i < old(props).len() ==> (#[trigger] old(props)[i]).wf(),
    ensures
        *final(player) == teleported(*old(player)),
        *final(progress) == (Progress {
            min_x: final(player).position.x,
            wall_x: (final(player).position.x + MAX_WALL_GAP) as i64,
        }),
        final(props).len() == old(props).len(),
        forall|i: int|
            0 <= i < final(props).len() ==> #[trigger] final(props)[i] == repositioned(
                old(props)[i],
                jitter[i],
            ),
        final(enemies)@.len() == 0,
        final(player).wf(),
        final(progress).wf(),
        forall|i: int| 0 <= i < final(props).len() ==> (#[trigger] final(props)[i]).wf(),
{
    let x = player.position.x + RECYCLE_OFFSET_X;
    player.position.x = x;
    let tx = clamp_i128(
        player.target.0.x as i128 + RECYCLE_OFFSET_X as i128,
        -WORLD_LIMIT,
        WORLD_LIMIT,
    );
    player.target.0.x = tx;
    progress.min_x = x;
    progress.wall_x = x + MAX_WALL_GAP;
    let ghost start = props@;
    let n = props.len();
    let mut i: usize = 0;
    while i < n
        invariant
            n == start.len(),
            props.len() == n,
            jitter.len() == n,
            i <= n,
            forall|j: int| 0 <= j < n ==> jitter_ok(#[trigger] jitter[j]),
            forall|j: int| 0 <= j < n ==> (#[trigger] start[j]).wf(),
            forall|j: int| 0 <= j < i ==> #[trigger] props[j] == repositioned(start[j], jitter[j]),
            forall|j: int| i <= j < n ==> #[trigger] props[j] == start[j],
            forall|j: int| 0 <= j < n ==> (#[trigger] props[j]).wf(),
        decreases n - i,
    {
        let mut p = props[i];
        let distance = LANE_HALF_WIDTH + jitter[i];
        p.position.z = if p.position.z > 0 {
            distance
        } else {
            -distance
        };
        props.set(i, p);
        i = i + 1;
    }
    enemies.clear();
}

/// The player has fallen behind the rearward limit.
pub open spec fn behind_limit(player: Option<Player>) -> bool {
    player matches Some(pl) && pl.position.x < RECYCLE_LIMIT_X
}

pub fn needs_recycle(player: &Option<Player>) -> (r: bool)
    ensures
        r == behind_limit(*player),
{
    match player {
        Some(pl) => pl.position.x < RECYCLE_LIMIT_X,
        None => false,
    }
}

/// Draws one admissible jitter for each of `n` props.
pub fn draw_prop_jitter(n: usize) -> (jitter: Vec<i64>)
    ensures
        jitter.len() == n,
        forall|i: int| 0 <= i < n ==> jitter_ok(#[trigger] jitter[i]),
{
    let mut jitter: Vec<i64> = Vec::new();
    while jitter.len() < n
        invariant
            jitter.len() <= n,
            forall|j: int| 0 <= j < jitter.len() ==> jitter_ok(#[trigger] jitter[j]),
        decreases n - jitter.len(),
    {
        jitter.push(random_in(PROP_JITTER_LOW, PROP_JITTER_HIGH));
    }
    jitter
}

/// The props repositioned with one jitter each.
pub open spec fn repositioned_all(props: Seq<Prop>, jitter: Seq<i64>) -> Seq<Prop> {
    Seq::new(props.len(), |i: int| repositioned(props[i], jitter[i]))
}

/// Recycles the lane when the player has fallen behind the rearward limit
/// (see `recycle_lane`), with `jitter[i]` for prop `i`. Returns whether it
/// did; when it did not, nothing changed.
pub fn loop_environment(
    player: &mut Option<Player>,
    progress: &mut Progress,
    props: &mut Vec<Prop>,
    enemies: &mut Vec<Enemy>,
    jitter: &Vec<i64>,
) -> (recycled: bool)
    requires
        *old(player) matches Some(pl) ==> pl.wf(),
        forall|i: int| 0 <= i < old(props).len() ==> (#[trigger] old(props)[i]).wf(),
        behind_limit(*old(player)) ==> jitter.len() == old(props).len(),
        behind_limit(*old(player)) ==> forall|i: int|
            0 <= i < jitter.len() ==> jitter_ok(#[trigger] jitter[i]),
    ensures
        recycled == behind_limit(*old(player)),
        !recycled ==> {
            &&& *final(player) == *old(player)
            &&& *final(progress) == *old(progress)
            &&& final(props)@ == old(props)@
            &&& final(enemies)@ == old(enemies)@
        },
        recycled ==> *final(player) == Some(teleported(old(player)->0)),
        recycled ==> *final(progress) == (Progress {
            min_x: final(player)->0.position.x,
            wall_x: (final(player)->0.position.x + MAX_WALL_GAP) as i64,
        }),
        recycled ==> final(props)@ == repositioned_all(old(props)@, jitter@),
        recycled ==> final(enemies)@ == Seq::<Enemy>::empty(),
        recycled ==> final(progress).wf(),
        *final(player) matches Some(pl) ==> pl.wf(),
        forall|i: int| 0 <= i < final(props).len() ==> (#[trigger] final(props)[i]).wf(),
{
    match *player {
        Some(pl) => {
            if pl.position.x < RECYCLE_LIMIT_X {
                let mut moved = pl;
                recycle_lane(&mut moved, progress, props, enemies, jitter);
                *player = Some(moved);
                assert(props@ =~= repositioned_all(old(props)@, jitter@));
                assert(enemies@ =~= Seq::<Enemy>::empty());
                true
            } else {
                false
            }
        },
        None => false,
    }
}

} // verus!
