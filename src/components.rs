//! The data the simulation is made of: actors, projectiles, props and the
//! session-wide records.

use vstd::prelude::*;
use crate::geometry::{Vec3, in_world, WORLD_LIMIT};
use crate::timer::Timer;

verus! {

/// Lateral bound of the player's movement and of resolved pointer points.
pub const PLAYER_BOUNDARY_Z: i64 = 7000;

/// Lateral distance from the centre line to the lane's edge, where the props
/// stand.
pub const LANE_HALF_WIDTH: i64 = 8000;

/// Longitudinal coordinate below which the lane is recycled.
pub const RECYCLE_LIMIT_X: i64 = -350_000;

/// Forward offset applied to the player when the lane is recycled.
pub const RECYCLE_OFFSET_X: i64 = 700_000;

/// Largest gap ever kept between `min_x` and `wall_x`.
pub const MAX_WALL_GAP: i64 = 30_000;

/// Full width of a health bar (2.0 world units) in milli-units.
pub const HEALTH_BAR_WIDTH: u64 = 2000;

/// Points awarded for each enemy killed.
pub const KILL_SCORE: u32 = 100;

/// Lives at the start of a session.
pub const STARTING_LIVES: u32 = 3;

/// Length of the survival countdown: five minutes.
pub const SURVIVAL_MS: u64 = 300_000;

/// Interval between enemy spawns.
pub const SPAWN_INTERVAL_MS: u64 = 5000;

/// Largest damage one projectile can carry.
pub const DAMAGE_LIMIT: i64 = 1_000_000;

/// The top-level state machine of the game.
#[derive(Clone, Copy, Debug, PartialEq, Eq, Structural)]
pub enum GameState {
    Menu,
    Playing,
    GameOver,
    Victory,
}

impl Default for GameState {
    fn default() -> (r: GameState)
        ensures
            r == GameState::Menu,
    {
        GameState::Menu
    }
}

/// The countdown whose end is the win condition.
#[derive(Clone, Copy, Debug, PartialEq, Eq, Structural)]
pub struct SurvivalTimer(pub Timer);

#[derive(Clone, Copy, Debug, PartialEq, Eq, Structural)]
pub struct Score(pub u32);

#[derive(Clone, Copy, Debug, PartialEq, Eq, Structural)]
pub struct PlayerLives(pub u32);

/// The two playable characters offered by the menu.
#[derive(Clone, Copy, Debug, PartialEq, Eq, Structural)]
pub enum Character {
    A,
    B,
}

/// The character picked in the menu.
#[derive(Clone, Copy, Debug, PartialEq, Eq, Structural)]
pub struct PlayerChoice {
    pub character: Character,
}

impl PlayerChoice {
    pub open spec fn spec_highlights(self, b: MenuButton) -> bool {
        match b {
            MenuButton::SelectCharA => self.character == Character::A,
            MenuButton::SelectCharB => self.character == Character::B,
            _ => false,
        }
    }

    /// Whether the menu shows button `b` as the current selection: a
    /// character button is highlighted while its character is chosen.
    pub fn highlights(&self, b: MenuButton) -> (r: bool)
        ensures
            r == self.spec_highlights(b),
    {
        match b {
            MenuButton::SelectCharA => self.character == Character::A,
            MenuButton::SelectCharB => self.character == Character::B,
            _ => false,
        }
    }
}

/// Current and maximum health of an actor.
#[derive(Clone, Copy, Debug, PartialEq, Eq, Structural)]
pub struct Health {
    pub current: i64,
    pub max: i64,
}

impl Health {
    /// Health never exceeds its positive maximum; it may be negative until
    /// the death is processed.
    pub open spec fn wf(self) -> bool {
        0 < self.max && self.current <= self.max
    }

    pub open spec fn is_dead(self) -> bool {
        self.current <= 0
    }

    /// Health after a hit of `damage`, saturating at the type's lower end.
    pub open spec fn after_hit(self, damage: i64) -> Health {
        Health {
            current: if self.current - damage < i64::MIN {
                i64::MIN
            } else {
                (self.current - damage) as i64
            },
            ..self
        }
    }

    pub fn full(max: i64) -> (r: Health)
        requires
            max > 0,
        ensures
            r == (Health { current: max, max }),
            r.wf(),
    {
        Health { current: max, max }
    }

    /// Takes `damage` off the current health.
    pub fn hit(&mut self, damage: i64)
        requires
            0 <= damage <= DAMAGE_LIMIT,
        ensures
            *final(self) == old(self).after_hit(damage),
            old(self).wf() ==> final(self).wf(),
    {
        if self.current < i64::MIN + damage {
            self.current = i64::MIN;
        } else {
            self.current = self.current - damage;
        }
    }
}

/// Width of a health bar, in thousandths of a world unit:
/// `max(current / max, 0) * 2.0`, rounded down.
pub open spec fn bar_scale(h: Health) -> int {
    if h.current <= 0 {
        0
    } else {
        (h.current * HEALTH_BAR_WIDTH) / (h.max as int)
    }
}

/// Width of the health bar drawn over an actor (see `bar_scale`).
pub fn health_bar_scale(h: &Health) -> (r: u64)
    requires
        h.wf(),
    ensures
        r == bar_scale(*h),
        r <= HEALTH_BAR_WIDTH,
        r == HEALTH_BAR_WIDTH <==> h.current == h.max,
{
    if h.current <= 0 {
        0
    } else {
        let c = h.current as u128;
        let m = h.max as u128;
        proof {
            let ci = c as int;
            let mi = m as int;
            assert(ci * 2000 <= mi * 2000) by (nonlinear_arith)
                requires ci <= mi;
            assert((ci * 2000) / mi <= 2000) by (nonlinear_arith)
                requires ci * 2000 <= mi * 2000, mi > 0, ci >= 0;
            if ci < mi {
                assert((ci * 2000) / mi < 2000) by (nonlinear_arith)
                    requires 0 < ci < mi;
            } else {
                assert((ci * 2000) / mi == 2000) by (nonlinear_arith)
                    requires ci == mi, mi > 0;
            }
        }
        ((c * 2000) / m) as u64
    }
}

/// An attack cooldown.
#[derive(Clone, Copy, Debug, PartialEq, Eq, Structural)]
pub struct AttackTimer(pub Timer);

/// The point the player walks toward.
#[derive(Clone, Copy, Debug, PartialEq, Eq, Structural)]
pub struct TargetPosition(pub Vec3);

/// The player character.
#[derive(Clone, Copy, Debug, PartialEq, Eq, Structural)]
pub struct Player {
    pub position: Vec3,
    /// Horizontal direction the player faces (its length carries no meaning).
    pub facing: Vec3,
    pub health: Health,
    pub attack: AttackTimer,
    pub target: TargetPosition,
}

/// A pursuing enemy.
#[derive(Clone, Copy, Debug, PartialEq, Eq, Structural)]
pub struct Enemy {
    pub position: Vec3,
    pub facing: Vec3,
    pub health: Health,
    pub attack: AttackTimer,
    /// Which of the enemy skins the visual side shows.
    pub model: u8,
}

/// A shot in flight.
#[derive(Clone, Copy, Debug, PartialEq, Eq, Structural)]
pub struct Projectile {
    pub position: Vec3,
    /// Milli-units per second.
    pub velocity: Vec3,
    pub damage: i64,
    /// Fired by the player (hits enemies) or by an enemy (hits the player).
    pub is_player: bool,
}

/// What a prop looks like.
#[derive(Clone, Copy, Debug, PartialEq, Eq, Structural)]
pub enum PropKind {
    /// A building, with the index of its model.
    Building(u8),
    TreeTrunk,
    TreeLeaves,
}

/// Static scenery along the edges of the lane.
#[derive(Clone, Copy, Debug, PartialEq, Eq, Structural)]
pub struct Prop {
    pub position: Vec3,
    pub kind: PropKind,
}

/// The buttons of the menu, game-over and victory screens.
#[derive(Clone, Copy, Debug, PartialEq, Eq, Structural)]
pub enum MenuButton {
    SelectCharA,
    SelectCharB,
    StartGame,
    Restart,
}

#[derive(Clone, Copy, Debug, PartialEq, Eq, Structural)]
pub struct EnemySpawnTimer(pub Timer);

/// How far the player has come, and the wall that keeps them from going back.
#[derive(Clone, Copy, Debug, PartialEq, Eq, Structural)]
pub struct Progress {
    /// Furthest (most negative) longitudinal coordinate reached.
    pub min_x: i64,
    /// Longitudinal coordinate the player may not exceed.
    pub wall_x: i64,
}

impl Progress {
    pub open spec fn wf(self) -> bool {
        &&& -WORLD_LIMIT <= self.min_x < RECYCLE_LIMIT_X + RECYCLE_OFFSET_X
        &&& self.min_x < self.wall_x <= self.min_x + MAX_WALL_GAP
    }
}

impl Default for Progress {
    fn default() -> (r: Progress)
        ensures
            r == (Progress { min_x: 0, wall_x: 20_000 }),
            r.wf(),
    {
        Progress { min_x: 0, wall_x: 20_000 }
    }
}

/// The last ground point resolved under the pointer.
#[derive(Clone, Copy, Debug, PartialEq, Eq, Structural)]
pub struct HoverPosition {
    pub world: Vec3,
}

impl Player {
    pub open spec fn wf(self) -> bool {
        &&& in_world(self.position)
        &&& in_world(self.facing)
        &&& in_world(self.target.0)
        &&& self.health.wf()
        &&& self.attack.0.wf()
    }
}

impl Enemy {
    pub open spec fn wf(self) -> bool {
        &&& in_world(self.position)
        &&& in_world(self.facing)
        &&& self.health.wf()
        &&& self.attack.0.wf()
    }
}

impl Projectile {
    pub open spec fn wf(self) -> bool {
        &&& in_world(self.position)
        &&& in_world(self.velocity)
        &&& 0 <= self.damage <= DAMAGE_LIMIT
    }
}

impl Prop {
    pub open spec fn wf(self) -> bool {
        in_world(self.position)
    }
}

} // verus!
