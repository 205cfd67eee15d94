//! The whole game session: the state machine and the setup and teardown of
//! the world. One tick of the simulation is in `step`.

use vstd::prelude::*;
use crate::geometry::{Vec3, in_world, vec3, abs};
use crate::components::{
    GameState, PlayerChoice, Character, Player, Enemy, Projectile, Prop, PropKind, Progress,
    HoverPosition, Score, PlayerLives, SurvivalTimer, EnemySpawnTimer, Health, AttackTimer,
    TargetPosition, MenuButton, STARTING_LIVES, SURVIVAL_MS, SPAWN_INTERVAL_MS, LANE_HALF_WIDTH,
    PLAYER_BOUNDARY_Z,
};
use crate::timer::{Timer, TimerMode};
use crate::targeting::{Ray, DirectionKeys};
use crate::movement::{camera_follow, camera_rig, CameraRig};
use crate::combat::PLAYER_COOLDOWN_MS;
use crate::spawner::{ready_timer, initial_facing};
use crate::step::SessionView;

verus! {

pub const PLAYER_HEALTH: i64 = 200;

/// Rows of scenery run from `-LAST_ROW` to `LAST_ROW`.
pub const LAST_ROW: i64 = 40;

/// Longitudinal distance between two rows of scenery: 10 units.
pub const ROW_SPACING: i64 = 10_000;

/// Heights of the two parts of a tree.
pub const TRUNK_HEIGHT: i64 = 500;
pub const LEAVES_HEIGHT: i64 = 2000;

/// What the input side hands the simulation each tick.
#[derive(Clone, Copy, Debug, PartialEq, Eq, Structural)]
pub struct TickInput {
    /// Milliseconds since the previous tick.
    pub dt_ms: u64,
    /// The camera ray through the pointer, if the pointer is known.
    pub pointer_ray: Option<Ray>,
    /// The move button (secondary pointer button) is held.
    pub move_held: bool,
    /// The attack key or the primary pointer button is held.
    pub attack_held: bool,
    pub keys: DirectionKeys,
    /// The lateral wave term `sin(elapsed seconds) * 5` for this tick's
    /// spawn, in milli-units.
    pub wave_z: i64,
}

impl TickInput {
    pub open spec fn wf(self) -> bool {
        self.pointer_ray matches Some(r) ==> in_world(r.origin) && in_world(r.direction)
    }
}

/// What happened during a tick.
#[derive(Clone, Copy, Debug, PartialEq, Eq, Structural)]
pub struct TickReport {
    /// The lane was recycled.
    pub recycled: bool,
}

pub open spec fn building(x: int, z: int, model: int) -> Prop {
    Prop { position: vec3(x, 0, z), kind: PropKind::Building(model as u8) }
}

pub open spec fn tree(x: int, z: int) -> Seq<Prop> {
    seq![
        Prop { position: vec3(x, TRUNK_HEIGHT as int, z), kind: PropKind::TreeTrunk },
        Prop { position: vec3(x, LEAVES_HEIGHT as int, z), kind: PropKind::TreeLeaves },
    ]
}

/// The scenery of row `i`: a building on each edge of the lane, and, but
/// for the last row, a tree on each edge half a row further on.
pub open spec fn row_props(i: int) -> Seq<Prop> {
    let x = i * ROW_SPACING;
    let buildings = seq![
        building(x, LANE_HALF_WIDTH as int, abs(i) % 4),
        building(x, -LANE_HALF_WIDTH, (abs(i) + 2) % 4),
    ];
    if i < LAST_ROW {
        buildings + tree(x + ROW_SPACING / 2, LANE_HALF_WIDTH as int) + tree(
            x + ROW_SPACING / 2,
            -LANE_HALF_WIDTH,
        )
    } else {
        buildings
    }
}

/// The first `k` rows of scenery, starting at row `-LAST_ROW`.
pub open spec fn lane_layout(k: nat) -> Seq<Prop>
    decreases k,
{
    if k == 0 {
        Seq::empty()
    } else {
        lane_layout((k - 1) as nat) + row_props(k - 1 - LAST_ROW)
    }
}

/// The player as a session starts: at the origin, at full health, with a
/// ready attack.
pub open spec fn initial_player() -> Player {
    Player {
        position: vec3(0, 0, 0),
        facing: initial_facing(),
        health: Health { current: PLAYER_HEALTH, max: PLAYER_HEALTH },
        attack: AttackTimer(ready_timer(PLAYER_COOLDOWN_MS)),
        target: TargetPosition(vec3(0, 0, 0)),
    }
}

/// The state a menu button leads to from `state`, if any.
pub open spec fn button_target(state: GameState, b: MenuButton) -> Option<GameState> {
    if state == GameState::Menu && b == MenuButton::StartGame {
        Some(GameState::Playing)
    } else if (state == GameState::GameOver || state == GameState::Victory) && b
        == MenuButton::Restart {
        Some(GameState::Menu)
    } else {
        None
    }
}

/// The character chosen after pressing `b` with `c` chosen before.
pub open spec fn chosen_after(c: Character, b: MenuButton) -> Character {
    match b {
        MenuButton::SelectCharA => Character::A,
        MenuButton::SelectCharB => Character::B,
        _ => c,
    }
}

/// The state after pressing `b` in `state`.
pub open spec fn state_after(state: GameState, b: MenuButton) -> GameState {
    match button_target(state, b) {
        Some(s) => s,
        None => state,
    }
}

/// Every record of a game, and every entity of the world.
pub struct Session {
    pub state: GameState,
    pub choice: PlayerChoice,
    pub player: Option<Player>,
    pub enemies: Vec<Enemy>,
    pub projectiles: Vec<Projectile>,
    pub props: Vec<Prop>,
    pub progress: Progress,
    pub hover: HoverPosition,
    pub score: Score,
    pub lives: PlayerLives,
    pub survival: SurvivalTimer,
    pub spawn_timer: EnemySpawnTimer,
}

fn build_lane() -> (props: Vec<Prop>)
    ensures
        props@ == lane_layout((2 * LAST_ROW + 1) as nat),
        forall|i: int| 0 <= i < props.len() ==> (#[trigger] props[i]).wf(),
{
    let mut props: Vec<Prop> = Vec::new();
    let mut i: i64 = -LAST_ROW;
    while i <= LAST_ROW
        invariant
            -LAST_ROW <= i <= LAST_ROW + 1,
            props@ == lane_layout((i + LAST_ROW) as nat),
            forall|j: int| 0 <= j < props.len() ==> (#[trigger] props[j]).wf(),
        decreases LAST_ROW + 1 - i,
    {
        let x = i * ROW_SPACING;
        let a = if i < 0 {
            -i
        } else {
            i
        };
        let ghost before = props@;
        props.push(
            Prop {
                position: Vec3 { x, y: 0, z: LANE_HALF_WIDTH },
                kind: PropKind::Building((a % 4) as u8),
            },
        );
        props.push(
            Prop {
                position: Vec3 { x, y: 0, z: -LANE_HALF_WIDTH },
                kind: PropKind::Building(((a + 2) % 4) as u8),
            },
        );
        if i < LAST_ROW {
            let tx = x + ROW_SPACING / 2;
            props.push(
                Prop { position: Vec3 { x: tx, y: TRUNK_HEIGHT, z: LANE_HALF_WIDTH }, kind: PropKind::TreeTrunk },
            );
            props.push(
                Prop { position: Vec3 { x: tx, y: LEAVES_HEIGHT, z: LANE_HALF_WIDTH }, kind: PropKind::TreeLeaves },
            );
            props.push(
                Prop { position: Vec3 { x: tx, y: TRUNK_HEIGHT, z: -LANE_HALF_WIDTH }, kind: PropKind::TreeTrunk },
            );
            props.push(
                Prop { position: Vec3 { x: tx, y: LEAVES_HEIGHT, z: -LANE_HALF_WIDTH }, kind: PropKind::TreeLeaves },
            );
        }
        proof {
            assert(abs(i as int) == a);
            assert(props@ =~= before + row_props(i as int));
        }
        i = i + 1;
    }
    props
}

impl Session {
    pub open spec fn wf(self) -> bool {
        &&& self.progress.wf()
        &&& self.player matches Some(pl) ==> {
            &&& pl.wf()
            &&& pl.position.x <= self.progress.wall_x
            &&& -PLAYER_BOUNDARY_Z <= pl.position.z <= PLAYER_BOUNDARY_Z
        }
        &&& forall|i: int| 0 <= i < self.enemies.len() ==> (#[trigger] self.enemies[i]).wf()
        &&& forall|i: int| 0 <= i < self.projectiles.len() ==> (#[trigger] self.projectiles[i]).wf()
        &&& forall|i: int| 0 <= i < self.props.len() ==> (#[trigger] self.props[i]).wf()
        &&& in_world(self.hover.world)
        &&& -PLAYER_BOUNDARY_Z <= self.hover.world.z <= PLAYER_BOUNDARY_Z
        &&& self.survival.0.wf()
        &&& self.survival.0.mode == TimerMode::Once
        &&& self.spawn_timer.0.wf()
    }

    /// No gameplay entity exists.
    pub open spec fn is_cleared(self) -> bool {
        &&& self.player is None
        &&& self.enemies@.len() == 0
        &&& self.projectiles@.len() == 0
        &&& self.props@.len() == 0
    }

    /// A game just started: the player at its start, the full countdown,
    /// score zero, all lives, the progress and aim point reset, the whole
    /// lane of scenery and no enemies or shots.
    pub open spec fn is_fresh_game(self) -> bool {
        &&& self.state == GameState::Playing
        &&& self.player == Some(initial_player())
        &&& self.score.0 == 0
        &&& self.lives.0 == STARTING_LIVES
        &&& self.survival.0 == (Timer {
            duration_ms: SURVIVAL_MS,
            elapsed_ms: 0,
            mode: TimerMode::Once,
            just_finished: false,
        })
        &&& self.progress == (Progress { min_x: 0, wall_x: 20_000 })
        &&& self.hover.world == vec3(0, 0, 0)
        &&& self.enemies@.len() == 0
        &&& self.projectiles@.len() == 0
        &&& self.props@ == lane_layout((2 * LAST_ROW + 1) as nat)
    }

    /// A session at the menu, with an empty world.
    pub fn new() -> (s: Session)
        ensures
            s.wf(),
            s.state == GameState::Menu,
            s.choice == (PlayerChoice { character: Character::A }),
            s.is_cleared(),
            s.score.0 == 0,
            s.lives.0 == STARTING_LIVES,
            s.progress == (Progress { min_x: 0, wall_x: 20_000 }),
    {
        Session {
            state: GameState::Menu,
            choice: PlayerChoice { character: Character::A },
            player: None,
            enemies: Vec::new(),
            projectiles: Vec::new(),
            props: Vec::new(),
            progress: Progress::default(),
            hover: HoverPosition { world: Vec3 { x: 0, y: 0, z: 0 } },
            score: Score(0),
            lives: PlayerLives(STARTING_LIVES),
            survival: SurvivalTimer(Timer::new(SURVIVAL_MS, TimerMode::Once)),
            spawn_timer: EnemySpawnTimer(Timer::new(SPAWN_INTERVAL_MS, TimerMode::Repeating)),
        }
    }

    /// Destroys every gameplay entity.
    pub fn cleanup_playing(&mut self)
        requires
            old(self).wf(),
        ensures
            final(self).is_cleared(),
            final(self).wf(),
            final(self).state == old(self).state,
            final(self).progress == old(self).progress,
            final(self).score == old(self).score,
            final(self).lives == old(self).lives,
            final(self).survival == old(self).survival,
            final(self).spawn_timer == old(self).spawn_timer,
            final(self).hover == old(self).hover,
            final(self).choice == old(self).choice,
    {
        self.player = None;
        self.enemies.clear();
        self.projectiles.clear();
        self.props.clear();
    }

    /// Starts a game: resets score, lives, countdown, progress and aim, and
    /// builds the world at its starting positions.
    pub fn setup_game(&mut self)
        requires
            old(self).wf(),
        ensures
            final(self).wf(),
            final(self).is_fresh_game(),
            final(self).choice == old(self).choice,
            final(self).spawn_timer == old(self).spawn_timer,
    {
        self.state = GameState::Playing;
        self.score = Score(0);
        self.lives = PlayerLives(STARTING_LIVES);
        self.survival = SurvivalTimer(Timer::new(SURVIVAL_MS, TimerMode::Once));
        self.progress = Progress::default();
        self.hover = HoverPosition { world: Vec3 { x: 0, y: 0, z: 0 } };
        self.player = Some(
            Player {
                position: Vec3 { x: 0, y: 0, z: 0 },
                facing: Vec3 { x: 0, y: 0, z: -1000 },
                health: Health::full(PLAYER_HEALTH),
                attack: AttackTimer(Timer::ready(PLAYER_COOLDOWN_MS)),
                target: TargetPosition(Vec3 { x: 0, y: 0, z: 0 }),
            },
        );
        self.enemies.clear();
        self.projectiles.clear();
        self.props = build_lane();
    }

    /// Moves the state machine to `next`: leaving `Playing` destroys the
    /// world, entering it builds a fresh one.
    pub fn transition(&mut self, next: GameState)
        requires
            old(self).wf(),
        ensures
            final(self).wf(),
            final(self).state == next,
            final(self).choice == old(self).choice,
            old(self).state == GameState::Playing && next != GameState::Playing ==> {
                &&& final(self).is_cleared()
                &&& final(self).progress == old(self).progress
                &&& final(self).score == old(self).score
                &&& final(self).lives == old(self).lives
                &&& final(self).survival == old(self).survival
                &&& final(self).hover == old(self).hover
                &&& final(self).spawn_timer == old(self).spawn_timer
            },
            old(self).state != GameState::Playing && next == GameState::Playing
                ==> final(self).is_fresh_game(),
            old(self).state != GameState::Playing && next != GameState::Playing ==> final(self)@
                == (SessionView { state: next, ..old(self)@ }),
            old(self).state == GameState::Playing && next == GameState::Playing ==> final(self)@
                == old(self)@,
    {
        if self.state == GameState::Playing && next != GameState::Playing {
            self.cleanup_playing();
        }
        if self.state != GameState::Playing && next == GameState::Playing {
            self.setup_game();
        }
        self.state = next;
    }

    /// A press of a menu button: outside a game it may pick a character, and
    /// moves the state machine as `button_target` says (start from the menu,
    /// restart from the end screens). During a game it does nothing.
    pub fn press_button(&mut self, b: MenuButton)
        requires
            old(self).wf(),
        ensures
            final(self).wf(),
            old(self).state == GameState::Playing ==> final(self)@ == old(self)@,
            old(self).state != GameState::Playing ==> final(self).choice.character
                == chosen_after(old(self).choice.character, b),
            old(self).state != GameState::Playing ==> final(self).state == state_after(
                old(self).state,
                b,
            ),
            old(self).state != GameState::Playing && button_target(old(self).state, b) == Some(
                GameState::Playing,
            ) ==> final(self).is_fresh_game(),
            old(self).state != GameState::Playing && button_target(old(self).state, b) != Some(
                GameState::Playing,
            ) ==> final(self)@ == (SessionView {
                state: final(self).state,
                choice: final(self).choice,
                ..old(self)@
            }),
    {
        if self.state == GameState::Playing {
            return;
        }
        match b {
            MenuButton::SelectCharA => {
                self.choice = PlayerChoice { character: Character::A };
            },
            MenuButton::SelectCharB => {
                self.choice = PlayerChoice { character: Character::B };
            },
            MenuButton::StartGame => {
                if self.state == GameState::Menu {
                    self.transition(GameState::Playing);
                }
            },
            MenuButton::Restart => {
                if self.state == GameState::GameOver || self.state == GameState::Victory {
                    self.transition(GameState::Menu);
                }
            },
        }
    }

    /// Where the camera should be, following the player.
    pub fn camera(&self) -> (r: Option<CameraRig>)
        requires
            self.wf(),
        ensures
            r == match self.player {
                Some(pl) => Some(camera_rig(self.progress, pl.position)),
                None => None,
            },
    {
        match self.player {
            Some(pl) => Some(camera_follow(&self.progress, pl.position)),
            None => None,
        }
    }
}

} // verus!
