//! Deaths, score, lives and the survival countdown.

use vstd::prelude::*;
use crate::components::{
    Enemy, Player, Score, PlayerLives, GameState, SurvivalTimer, KILL_SCORE, Health,
};
use crate::timer::{Timer, TimerMode};

verus! {

/// The enemies of `s` that are still alive, in order.
pub open spec fn survivors(s: Seq<Enemy>) -> Seq<Enemy>
    decreases s.len(),
{
    if s.len() == 0 {
        Seq::empty()
    } else if s.last().health.is_dead() {
        survivors(s.drop_last())
    } else {
        survivors(s.drop_last()).push(s.last())
    }
}

/// How many enemies of `s` are dead.
pub open spec fn kills(s: Seq<Enemy>) -> nat
    decreases s.len(),
{
    if s.len() == 0 {
        0
    } else if s.last().health.is_dead() {
        kills(s.drop_last()) + 1
    } else {
        kills(s.drop_last())
    }
}

/// The score after `k` more kills, saturating at the counter's maximum.
pub open spec fn score_after(score: u32, k: nat) -> u32 {
    if score + KILL_SCORE * k > u32::MAX {
        u32::MAX
    } else {
        (score + KILL_SCORE * k) as u32
    }
}

/// What a player death does: with lives to spare a life is spent and health
/// restored to its maximum; on the last life the lives drop to zero, the
/// player is left as it is, and the game is over. A living (or absent)
/// player changes nothing.
pub open spec fn player_outcome(player: Option<Player>, lives: u32) -> (Option<Player>, u32, Option<GameState>) {
    match player {
        Some(pl) => if pl.health.is_dead() {
            if lives > 1 {
                (
                    Some(Player { health: Health { current: pl.health.max, ..pl.health }, ..pl }),
                    (lives - 1) as u32,
                    None,
                )
            } else {
                (Some(pl), 0, Some(GameState::GameOver))
            }
        } else {
            (player, lives, None)
        },
        None => (player, lives, None),
    }
}

/// Removes dead enemies, scoring each kill, and handles the player's death.
/// Returns the state the game should move to, if any.
pub fn handle_death(
    enemies: &mut Vec<Enemy>,
    player: &mut Option<Player>,
    score: &mut Score,
    lives: &mut PlayerLives,
) -> (next: Option<GameState>)
    requires
        forall|i: int| 0 <= i < old(enemies).len() ==> (#[trigger] old(enemies)[i]).wf(),
        *old(player) matches Some(pl) ==> pl.wf(),
    ensures
        final(enemies)@ == survivors(old(enemies)@),
        final(score).0 == score_after(old(score).0, kills(old(enemies)@)),
        (*final(player), final(lives).0, next) == player_outcome(*old(player), old(lives).0),
        forall|i: int| 0 <= i < final(enemies).len() ==> (#[trigger] final(enemies)[i]).wf(),
        *final(player) matches Some(pl) ==> pl.wf(),
{
    let ghost start = enemies@;
    let ghost start_score = score.0;
    let n = enemies.len();
    let mut alive: Vec<Enemy> = Vec::new();
    let mut i: usize = 0;
    while i < n
        invariant
            n == start.len(),
            enemies@ == start,
            i <= n,
            forall|j: int| 0 <= j < n ==> (#[trigger] start[j]).wf(),
            alive@ == survivors(start.subrange(0, i as int)),
            score.0 == score_after(start_score, kills(start.subrange(0, i as int))),
            forall|j: int| 0 <= j < alive.len() ==> (#[trigger] alive[j]).wf(),
        decreases n - i,
    {
        proof {
            assert(start.subrange(0, i + 1).drop_last() =~= start.subrange(0, i as int));
            assert(start.subrange(0, i + 1).last() == start[i as int]);
        }
        let e = enemies[i];
        if e.health.current <= 0 {
            if score.0 > u32::MAX - KILL_SCORE {
                score.0 = u32::MAX;
            } else {
                score.0 = score.0 + KILL_SCORE;
            }
        } else {
            alive.push(e);
        }
        i = i + 1;
    }
    proof {
        assert(start.subrange(0, n as int) =~= start);
    }
    *enemies = alive;
    match *player {
        Some(pl) => {
            if pl.health.current <= 0 {
                if lives.0 > 1 {
                    lives.0 = lives.0 - 1;
                    let mut revived = pl;
                    revived.health.current = revived.health.max;
                    *player = Some(revived);
                    None
                } else {
                    lives.0 = 0;
                    Some(GameState::GameOver)
                }
            } else {
                None
            }
        },
        None => None,
    }
}

/// A player on the last life whose health has run out loses that life and
/// the game, and keeps its health as it was.
pub proof fn lemma_last_life_ends_game(pl: Player)
    requires
        pl.health.is_dead(),
    ensures
        player_outcome(Some(pl), 1) == (Some(pl), 0u32, Some(GameState::GameOver)),
{
}

/// Counts the survival time down; returns `Victory` in the tick in which it
/// runs out.
pub fn survival_tick(timer: &mut SurvivalTimer, dt_ms: u64) -> (next: Option<GameState>)
    requires
        old(timer).0.wf(),
        old(timer).0.mode == TimerMode::Once,
    ensures
        final(timer).0 == old(timer).0.ticked(dt_ms),
        final(timer).0.wf(),
        next == (if final(timer).0.just_finished { Some(GameState::Victory) } else { None }),
        old(timer).0.spec_finished() ==> {
            &&& next is None
            &&& final(timer).0 == (Timer { just_finished: false, ..old(timer).0 })
            &&& final(timer).0.duration_ms - final(timer).0.elapsed_ms == 0
        },
{
    timer.0.tick(dt_ms);
    if timer.0.just_finished {
        Some(GameState::Victory)
    } else {
        None
    }
}

/// Once a one-shot countdown has run out, further ticks leave it as it is
/// and never report it finishing again.
pub proof fn lemma_finished_countdown_is_stable(t: Timer, dt_ms: u64)
    requires
        t.wf(),
        t.mode == TimerMode::Once,
        t.spec_finished(),
    ensures
        t.ticked(dt_ms) == (Timer { just_finished: false, ..t }),
        !t.ticked(dt_ms).just_finished,
{
}

/// The countdown shown to the player as whole minutes and seconds.
pub fn minutes_seconds(remaining_ms: u64) -> (r: (u64, u64))
    ensures
        r.0 == remaining_ms / 60_000,
        r.1 == (remaining_ms / 1000) % 60,
{
    (remaining_ms / 60_000, (remaining_ms / 1000) % 60)
}

} // verus!
