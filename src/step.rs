//! One simulation tick: every system in its fixed order, stated over a view
//! of the session as plain values.

use vstd::prelude::*;
use crate::components::{
    GameState, PlayerChoice, Player, Enemy, Projectile, Prop, Progress, HoverPosition, Score,
    PlayerLives, SurvivalTimer, EnemySpawnTimer, TargetPosition, MAX_WALL_GAP,
};
use crate::geometry::Vec3;
use crate::timer::{Timer, TimerMode};
use crate::session::{Session, TickInput, TickReport};
use crate::targeting::{input_target, resolved_point, handle_input, resolve_pointer};
use crate::movement::{
    bounded, walk, travel, advanced, aimed, pursued, move_player, player_aiming, move_enemies,
    PLAYER_SPEED,
};
use crate::combat::{
    player_attack, enemy_attack, volley, resolve_shots, player_fire, enemy_attacks,
    update_projectiles,
};
use crate::lifecycle::{
    survivors, kills, score_after, player_outcome, handle_death, survival_tick,
};
use crate::spawner::{after_spawn, spawn_draw_ok, draw_spawn, spawn_enemies};
use crate::recycler::{
    behind_limit, teleported, repositioned_all, jitter_ok, needs_recycle, draw_prop_jitter,
    loop_environment,
};

verus! {

/// A session as plain values.
pub struct SessionView {
    pub state: GameState,
    pub choice: PlayerChoice,
    pub player: Option<Player>,
    pub enemies: Seq<Enemy>,
    pub projectiles: Seq<Projectile>,
    pub props: Seq<Prop>,
    pub progress: Progress,
    pub hover: HoverPosition,
    pub score: Score,
    pub lives: PlayerLives,
    pub survival: SurvivalTimer,
    pub spawn_timer: EnemySpawnTimer,
}

impl View for Session {
    type V = SessionView;

    open spec fn view(&self) -> SessionView {
        SessionView {
            state: self.state,
            choice: self.choice,
            player: self.player,
            enemies: self.enemies@,
            projectiles: self.projectiles@,
            props: self.props@,
            progress: self.progress,
            hover: self.hover,
            score: self.score,
            lives: self.lives,
            survival: self.survival,
            spawn_timer: self.spawn_timer,
        }
    }
}

/// The player takes its new target from the input, walks toward it, and
/// pushes the progress forward.
pub open spec fn input_step(w: SessionView, input: TickInput) -> SessionView {
    match w.player {
        Some(pl) => {
            let target = input_target(
                pl,
                input.pointer_ray,
                input.move_held,
                input.keys,
                w.progress.wall_x as int,
            );
            let pos = bounded(
                walk(pl.position, target, travel(PLAYER_SPEED as int, input.dt_ms)),
                w.progress.wall_x as int,
            );
            SessionView {
                player: Some(Player { position: pos, target: TargetPosition(target), ..pl }),
                progress: advanced(w.progress, pos.x as int),
                ..w
            }
        },
        None => w,
    }
}

/// The aim point follows the pointer whenever its ray meets the ground.
pub open spec fn hover_step(w: SessionView, input: TickInput) -> SessionView {
    match input.pointer_ray {
        Some(r) => match resolved_point(r, w.progress.wall_x as int) {
            Some(p) => SessionView { hover: HoverPosition { world: p }, ..w },
            None => w,
        },
        None => w,
    }
}

/// The player turns toward the aim point.
pub open spec fn aim_step(w: SessionView) -> SessionView {
    match w.player {
        Some(pl) => SessionView {
            player: Some(Player { facing: aimed(pl.facing, pl.position, w.hover.world), ..pl }),
            ..w
        },
        None => w,
    }
}

/// The spawn timer ticks, and a drawn enemy may join.
pub open spec fn spawn_step(w: SessionView, input: TickInput, model: u8, jitter: i64) -> SessionView {
    let t = w.spawn_timer.0.ticked(input.dt_ms);
    SessionView {
        spawn_timer: EnemySpawnTimer(t),
        enemies: after_spawn(w.enemies, t, w.player, input.wave_z, model, jitter),
        ..w
    }
}

/// Every enemy pursues the player.
pub open spec fn pursuit_step(w: SessionView, input: TickInput) -> SessionView {
    match w.player {
        Some(pl) => SessionView {
            enemies: w.enemies.map_values(|e: Enemy| pursued(e, pl.position, input.dt_ms)),
            ..w
        },
        None => w,
    }
}

/// The player's cooldown ticks and the player may fire.
pub open spec fn fire_step(w: SessionView, input: TickInput) -> SessionView {
    match w.player {
        Some(pl) => {
            let (p, shot) = player_attack(pl, w.hover.world, input.attack_held, input.dt_ms);
            SessionView {
                player: Some(p),
                projectiles: match shot {
                    Some(s) => w.projectiles.push(s),
                    None => w.projectiles,
                },
                ..w
            }
        },
        None => w,
    }
}

pub open spec fn player_position(player: Option<Player>) -> Option<Vec3> {
    match player {
        Some(pl) => Some(pl.position),
        None => None,
    }
}

/// Every enemy's cooldown ticks and the enemies in range fire.
pub open spec fn volley_step(w: SessionView, input: TickInput) -> SessionView {
    let target = player_position(w.player);
    SessionView {
        enemies: w.enemies.map_values(|e: Enemy| enemy_attack(e, target, input.dt_ms).0),
        projectiles: w.projectiles + volley(w.enemies, target, input.dt_ms),
        ..w
    }
}

/// The shots fly and hit.
pub open spec fn shots_step(w: SessionView, input: TickInput) -> SessionView {
    let f = resolve_shots(w.projectiles, w.enemies, w.player, input.dt_ms);
    SessionView { projectiles: f.0, enemies: f.1, player: f.2, ..w }
}

/// Dead enemies are removed and scored; a player death spends a life or
/// asks for the end of the game.
pub open spec fn death_step(w: SessionView) -> (SessionView, Option<GameState>) {
    let o = player_outcome(w.player, w.lives.0);
    (
        SessionView {
            enemies: survivors(w.enemies),
            score: Score(score_after(w.score.0, kills(w.enemies))),
            player: o.0,
            lives: PlayerLives(o.1),
            ..w
        },
        o.2,
    )
}

/// Everything up to and including the deaths, with the state change asked
/// for.
pub open spec fn early_steps(w: SessionView, input: TickInput, model: u8, spawn_jitter: i64) -> (
    SessionView,
    Option<GameState>,
) {
    let w1 = input_step(w, input);
    let w2 = hover_step(w1, input);
    let w3 = aim_step(w2);
    let w4 = spawn_step(w3, input, model, spawn_jitter);
    let w5 = pursuit_step(w4, input);
    let w6 = fire_step(w5, input);
    let w7 = volley_step(w6, input);
    let w8 = shots_step(w7, input);
    death_step(w8)
}

/// The lane is recycled when the player has fallen behind the limit.
pub open spec fn recycle_step(w: SessionView, jitter: Seq<i64>) -> (SessionView, bool) {
    if behind_limit(w.player) {
        let moved = teleported(w.player->0);
        (
            SessionView {
                player: Some(moved),
                progress: Progress {
                    min_x: moved.position.x,
                    wall_x: (moved.position.x + MAX_WALL_GAP) as i64,
                },
                props: repositioned_all(w.props, jitter),
                enemies: Seq::empty(),
                ..w
            },
            true,
        )
    } else {
        (w, false)
    }
}

/// The countdown ticks; its end asks for victory, over any other request.
pub open spec fn countdown_step(w: SessionView, input: TickInput, next: Option<GameState>) -> (
    SessionView,
    Option<GameState>,
) {
    let t = w.survival.0.ticked(input.dt_ms);
    (
        SessionView { survival: SurvivalTimer(t), ..w },
        if t.just_finished { Some(GameState::Victory) } else { next },
    )
}

/// A requested end of the game: the state changes and the world is gone.
pub open spec fn leave_step(w: SessionView, next: Option<GameState>) -> SessionView {
    match next {
        Some(s) => if s != GameState::Playing {
            SessionView {
                state: s,
                player: None,
                enemies: Seq::empty(),
                projectiles: Seq::empty(),
                props: Seq::empty(),
                ..w
            }
        } else {
            w
        },
        None => w,
    }
}

/// Recycling, countdown and the state change.
pub open spec fn late_steps(
    w: SessionView,
    input: TickInput,
    next: Option<GameState>,
    jitter: Seq<i64>,
) -> (SessionView, bool) {
    let (w10, recycled) = recycle_step(w, jitter);
    let (w11, next2) = countdown_step(w10, input, next);
    (leave_step(w11, next2), recycled)
}

/// A whole tick with the given draws: nothing outside `Playing`; otherwise
/// input, player movement, aim point, orientation, spawning, pursuit,
/// firing, projectiles, deaths, recycling, countdown, then the state change.
pub open spec fn stepped(
    w: SessionView,
    input: TickInput,
    model: u8,
    spawn_jitter: i64,
    jitter: Seq<i64>,
) -> (SessionView, bool) {
    if w.state != GameState::Playing {
        (w, false)
    } else {
        let (w9, next) = early_steps(w, input, model, spawn_jitter);
        late_steps(w9, input, next, jitter)
    }
}

/// Once the countdown has run out, a later countdown step never asks for
/// victory again and changes nothing but clearing its own "just finished"
/// flag: the remaining time stays zero and score, lives and the world are
/// untouched.
pub proof fn lemma_countdown_stays_finished(w: SessionView, input: TickInput, next: Option<GameState>)
    requires
        w.survival.0.wf(),
        w.survival.0.mode == TimerMode::Once,
        w.survival.0.spec_finished(),
    ensures
        countdown_step(w, input, next) == (
            SessionView { survival: SurvivalTimer(Timer { just_finished: false, ..w.survival.0 }), ..w },
            next,
        ),
        w.survival.0.duration_ms - w.survival.0.elapsed_ms == 0,
{
}

/// A session that has reached victory (or any state but `Playing`) is left
/// exactly as it is by every tick, whatever the input and the draws.
pub proof fn lemma_ended_game_is_final(
    w: SessionView,
    input: TickInput,
    model: u8,
    spawn_jitter: i64,
    jitter: Seq<i64>,
)
    requires
        w.state != GameState::Playing,
    ensures
        stepped(w, input, model, spawn_jitter, jitter) == (w, false),
{
}

/// Draws admissible for a session with `n` props.
pub open spec fn draws_ok(model: u8, spawn_jitter: i64, jitter: Seq<i64>, n: nat) -> bool {
    &&& spawn_draw_ok(model, spawn_jitter)
    &&& jitter.len() == n
    &&& forall|i: int| 0 <= i < jitter.len() ==> jitter_ok(#[trigger] jitter[i])
}

impl Session {
    /// Runs the systems up to and including the deaths; returns the state
    /// change they ask for.
    fn advance(&mut self, input: &TickInput, model: u8, spawn_jitter: i64) -> (next: Option<
        GameState,
    >)
        requires
            old(self).wf(),
            input.wf(),
            old(self).state == GameState::Playing,
        ensures
            (final(self)@, next) == early_steps(old(self)@, *input, model, spawn_jitter),
            final(self).wf(),
            final(self).progress.min_x <= old(self).progress.min_x,
            final(self).score.0 >= old(self).score.0,
            final(self).lives.0 <= old(self).lives.0,
            next is Some ==> next == Some(GameState::GameOver) && final(self).lives.0 == 0,
    {
        let dt = input.dt_ms;
        let ghost w0 = self@;
        match self.player {
            Some(pl) => {
                let mut p = pl;
                handle_input(&mut p, &input.pointer_ray, input.move_held, &input.keys, &self.progress);
                move_player(&mut p, &mut self.progress, dt);
                self.player = Some(p);
            },
            None => {},
        }
        assert(self@ == input_step(w0, *input));
        let ghost w1 = self@;
        match input.pointer_ray {
            Some(ray) => match resolve_pointer(&ray, self.progress.wall_x) {
                Some(point) => {
                    self.hover.world = point;
                },
                None => {},
            },
            None => {},
        }
        assert(self@ == hover_step(w1, *input));
        let ghost w2 = self@;
        match self.player {
            Some(pl) => {
                let mut p = pl;
                player_aiming(&mut p, &self.hover);
                self.player = Some(p);
            },
            None => {},
        }
        assert(self@ == aim_step(w2));
        let ghost w3 = self@;
        spawn_enemies(
            &mut self.spawn_timer,
            &self.player,
            input.wave_z,
            dt,
            &mut self.enemies,
            model,
            spawn_jitter,
        );
        assert(self@ == spawn_step(w3, *input, model, spawn_jitter));
        let ghost w4 = self@;
        match self.player {
            Some(pl) => {
                move_enemies(&mut self.enemies, pl.position, dt);
                assert(self.enemies@ =~= w4.enemies.map_values(
                    |e: Enemy| pursued(e, pl.position, dt),
                ));
            },
            None => {},
        }
        assert(self@ == pursuit_step(w4, *input));
        let ghost w5 = self@;
        match self.player {
            Some(pl) => {
                let mut p = pl;
                let shot = player_fire(&mut p, &self.hover, input.attack_held, dt);
                self.player = Some(p);
                match shot {
                    Some(s) => {
                        self.projectiles.push(s);
                    },
                    None => {},
                }
            },
            None => {},
        }
        assert(self@ == fire_step(w5, *input));
        let ghost w6 = self@;
        let target = match self.player {
            Some(pl) => Some(pl.position),
            None => None,
        };
        enemy_attacks(&mut self.enemies, target, dt, &mut self.projectiles);
        assert(self.enemies@ =~= w6.enemies.map_values(|e: Enemy| enemy_attack(e, target, dt).0));
        assert(self@ == volley_step(w6, *input));
        let ghost w7 = self@;
        update_projectiles(&mut self.projectiles, &mut self.enemies, &mut self.player, dt);
        assert(self@ == shots_step(w7, *input));
        let ghost w8 = self@;
        let next = handle_death(&mut self.enemies, &mut self.player, &mut self.score, &mut self.lives);
        assert((self@, next) == death_step(w8));
        next
    }

    /// Recycles the lane if due, ticks the countdown and applies the state
    /// change asked for.
    fn conclude(&mut self, input: &TickInput, next: Option<GameState>, jitter: &Vec<i64>) -> (recycled: bool)
        requires
            old(self).wf(),
            old(self).state == GameState::Playing,
            next is Some ==> next == Some(GameState::GameOver),
            behind_limit(old(self).player) ==> jitter.len() == old(self).props.len(),
            behind_limit(old(self).player) ==> forall|i: int|
                0 <= i < jitter.len() ==> jitter_ok(#[trigger] jitter[i]),
        ensures
            (final(self)@, recycled) == late_steps(old(self)@, *input, next, jitter@),
            final(self).wf(),
            !recycled ==> final(self).progress == old(self).progress,
            final(self).progress.min_x < final(self).progress.wall_x,
            recycled ==> final(self).progress.wall_x == final(self).progress.min_x + MAX_WALL_GAP,
            recycled ==> final(self).enemies@.len() == 0,
            final(self).score == old(self).score,
            final(self).lives == old(self).lives,
            final(self).state == GameState::Playing || final(self).is_cleared(),
            final(self).state == GameState::Playing || final(self).state == GameState::Victory
                || (final(self).state == GameState::GameOver && next == Some(GameState::GameOver)),
    {
        let ghost w9 = self@;
        let ghost requested = next;
        let recycled = loop_environment(&mut self.player, &mut self.progress, &mut self.props, &mut self.enemies, jitter);
        assert((self@, recycled) == recycle_step(w9, jitter@));
        let ghost w10 = self@;
        let victory = survival_tick(&mut self.survival, input.dt_ms);
        let next = if victory.is_some() {
            victory
        } else {
            next
        };
        assert((self@, next) == countdown_step(w10, *input, requested));
        let ghost w11 = self@;
        match next {
            Some(s) => {
                self.transition(s);
                assert(self.enemies@ =~= Seq::<Enemy>::empty());
                assert(self.projectiles@ =~= Seq::<Projectile>::empty());
                assert(self.props@ =~= Seq::<Prop>::empty());
            },
            None => {},
        }
        assert(self@ == leave_step(w11, next));
        recycled
    }

    /// One simulation tick with the given draws: `model` and `spawn_jitter`
    /// for an enemy that spawns, `jitter[i]` for prop `i` if the lane is
    /// recycled (see `stepped`).
    pub fn tick_with(&mut self, input: &TickInput, model: u8, spawn_jitter: i64, jitter: &Vec<i64>) -> (r: TickReport)
        requires
            old(self).wf(),
            input.wf(),
            draws_ok(model, spawn_jitter, jitter@, old(self).props@.len()),
        ensures
            (final(self)@, r.recycled) == stepped(old(self)@, *input, model, spawn_jitter, jitter@),
            final(self).wf(),
    {
        if self.state != GameState::Playing {
            return TickReport { recycled: false };
        }
        let next = self.advance(input, model, spawn_jitter);
        let recycled = self.conclude(input, next, jitter);
        TickReport { recycled }
    }

    /// One simulation tick, drawing the random values it needs (see
    /// `stepped`). Outside `Playing` nothing happens. The wall stays ahead
    /// of the furthest point reached, which only moves forward when the
    /// lane is recycled; the score never drops and lives never grow; a game
    /// ends only in victory or with no lives left, and then the world is
    /// gone.
    pub fn tick(&mut self, input: &TickInput) -> (r: TickReport)
        requires
            old(self).wf(),
            input.wf(),
        ensures
            exists|model: u8, spawn_jitter: i64, jitter: Seq<i64>|
                draws_ok(model, spawn_jitter, jitter, old(self).props@.len()) && (
                final(self)@,
                r.recycled,
            ) == stepped(old(self)@, *input, model, spawn_jitter, jitter),
            final(self).wf(),
            old(self).state != GameState::Playing ==> final(self)@ == old(self)@ && !r.recycled,
            final(self).progress.min_x < final(self).progress.wall_x,
            !r.recycled ==> final(self).progress.min_x <= old(self).progress.min_x,
            r.recycled ==> final(self).progress.wall_x == final(self).progress.min_x + MAX_WALL_GAP,
            r.recycled ==> final(self).enemies@.len() == 0,
            final(self).score.0 >= old(self).score.0,
            final(self).lives.0 <= old(self).lives.0,
            old(self).state == GameState::Playing ==> {
                ||| final(self).state == GameState::Playing
                ||| final(self).state == GameState::Victory && final(self).is_cleared()
                ||| final(self).state == GameState::GameOver && final(self).lives.0 == 0
                    && final(self).is_cleared()
            },
    {
        let ghost n = self.props@.len();
        let ghost zeros = Seq::new(n, |i: int| 0i64);
        if self.state != GameState::Playing {
            assert(draws_ok(0, 0, zeros, n) && (self@, false) == stepped(self@, *input, 0, 0, zeros));
            return TickReport { recycled: false };
        }
        let ghost w0 = self@;
        let (model, spawn_jitter) = draw_spawn();
        let next = self.advance(input, model, spawn_jitter);
        let jitter = if needs_recycle(&self.player) {
            draw_prop_jitter(self.props.len())
        } else {
            Vec::new()
        };
        let ghost w9 = self@;
        let recycled = self.conclude(input, next, &jitter);
        proof {
            if behind_limit(w9.player) {
                assert(draws_ok(model, spawn_jitter, jitter@, n) && (self@, recycled) == stepped(
                    w0,
                    *input,
                    model,
                    spawn_jitter,
                    jitter@,
                ));
            } else {
                assert(late_steps(w9, *input, next, jitter@) == late_steps(w9, *input, next, zeros));
                assert(draws_ok(model, spawn_jitter, zeros, n) && (self@, recycled) == stepped(
                    w0,
                    *input,
                    model,
                    spawn_jitter,
                    zeros,
                ));
            }
        }
        TickReport { recycled }
    }
}

} // verus!
