use lane_survival::components::{
    Character, Enemy, GameState, Health, AttackTimer, MenuButton, Progress, Prop, PropKind,
    LANE_HALF_WIDTH,
};
use lane_survival::geometry::{isqrt, scale_to, Vec3};
use lane_survival::lifecycle::{minutes_seconds, survival_tick};
use lane_survival::movement::{camera_follow, move_enemy, move_player, player_aiming};
use lane_survival::recycler::{draw_prop_jitter, loop_environment, needs_recycle, recycle_lane};
use lane_survival::session::{Session, TickInput};
use lane_survival::spawner::{draw_spawn, spawn_enemies};
use lane_survival::targeting::{handle_input, resolve_pointer, DirectionKeys, Ray};
use lane_survival::timer::{Timer, TimerMode};
use lane_survival::components::{EnemySpawnTimer, HoverPosition, SurvivalTimer};

fn v(x: i64, y: i64, z: i64) -> Vec3 {
    Vec3 { x, y, z }
}

fn no_keys() -> DirectionKeys {
    DirectionKeys { up: false, down: false, left: false, right: false }
}

fn idle(dt_ms: u64) -> TickInput {
    TickInput {
        dt_ms,
        pointer_ray: None,
        move_held: false,
        attack_held: false,
        keys: no_keys(),
        wave_z: 0,
    }
}

fn playing() -> Session {
    let mut s = Session::new();
    s.press_button(MenuButton::StartGame);
    assert_eq!(s.state, GameState::Playing);
    s
}

#[test]
fn resolved_points_are_clamped() {
    // From (0, 10, 0) looking down toward (+x, -z): hits ground at (50, 0, -30).
    let ray = Ray { origin: v(0, 10000, 0), direction: v(5000, -1000, -3000) };
    let p = resolve_pointer(&ray, 20000).expect("ray meets the ground");
    assert_eq!(p, v(20000, 0, -7000));
    let behind = resolve_pointer(&ray, 60000).unwrap();
    assert_eq!(behind, v(50000, 0, -7000));
    let inside = Ray { origin: v(-3000, 5000, 1000), direction: v(-1000, -1000, 1000) };
    assert_eq!(resolve_pointer(&inside, 0).unwrap(), v(-8000, 0, 6000));
    let up = Ray { origin: v(0, 10000, 0), direction: v(0, 1000, 0) };
    assert_eq!(resolve_pointer(&up, 20000), None);
    let flat = Ray { origin: v(0, 10000, 0), direction: v(1000, 0, 0) };
    assert_eq!(resolve_pointer(&flat, 20000), None);
}

#[test]
fn pointer_move_beats_keyboard() {
    let s = playing();
    let mut player = s.player.unwrap();
    let ray = Ray { origin: v(0, 10000, 0), direction: v(-1000, -1000, 0) };
    let keys = DirectionKeys { up: true, down: false, left: true, right: false };
    handle_input(&mut player, &Some(ray), true, &keys, &s.progress);
    assert_eq!(player.target.0, v(-10000, 0, 0));
    handle_input(&mut player, &Some(ray), false, &keys, &s.progress);
    assert_eq!(player.target.0, v(-1060, 0, 1060));
    let before = player.target.0;
    handle_input(&mut player, &None, false, &no_keys(), &s.progress);
    assert_eq!(player.target.0, before);
    let both = DirectionKeys { up: true, down: true, left: false, right: false };
    handle_input(&mut player, &None, false, &both, &s.progress);
    assert_eq!(player.target.0, before);
}

#[test]
fn player_walks_snaps_and_is_walled() {
    let s = playing();
    let mut player = s.player.unwrap();
    let mut progress = Progress::default();
    player.target.0 = v(-10000, 0, 0);
    move_player(&mut player, &mut progress, 1000);
    assert_eq!(player.position, v(-7000, 0, 0));
    assert_eq!(progress, Progress { min_x: -7000, wall_x: 8000 });
    move_player(&mut player, &mut progress, 1000);
    assert_eq!(player.position, v(-10000, 0, 0));
    assert_eq!(progress, Progress { min_x: -10000, wall_x: 5000 });

    player.target.0 = v(30000, 0, 20000);
    for _ in 0..20 {
        move_player(&mut player, &mut progress, 1000);
    }
    assert_eq!(player.position.x, 5000);
    assert_eq!(player.position.z, 7000);
    assert_eq!(progress.min_x, -10000);
}

#[test]
fn player_turns_to_aim_unless_in_dead_zone() {
    let s = playing();
    let mut player = s.player.unwrap();
    player_aiming(&mut player, &HoverPosition { world: v(0, 0, 50) });
    assert_eq!(player.facing, v(0, 0, -1000));
    player_aiming(&mut player, &HoverPosition { world: v(0, 0, 5000) });
    assert_eq!(player.facing, v(0, 0, 1000));
}

#[test]
fn enemy_closes_in_and_faces_player() {
    let mut e = Enemy {
        position: v(-60000, 0, 0),
        facing: v(0, 0, -1000),
        health: Health::full(100),
        attack: AttackTimer(Timer::ready(2000)),
        model: 2,
    };
    move_enemy(&mut e, v(0, 0, 0), 1000);
    assert_eq!(e.position, v(-55000, 0, 0));
    assert_eq!(e.facing, v(1000, 0, 0));
    e.position = v(0, 0, 10000);
    move_enemy(&mut e, v(0, 0, 0), 1000);
    assert_eq!(e.position, v(0, 0, 10000));
    assert_eq!(e.facing, v(0, 0, -1000));
}

#[test]
fn camera_tracks_progress_and_player() {
    let rig = camera_follow(&Progress { min_x: -5000, wall_x: 10000 }, v(-2000, 0, 3000));
    assert_eq!(rig.position, v(15000, 20000, 23000));
    assert_eq!(rig.look_at, v(-5000, 0, 3000));
}

#[test]
fn recycle_moves_player_forward_and_clears_enemies() {
    let mut s = playing();
    let mut player = s.player.unwrap();
    player.position = v(-351000, 0, 2000);
    player.target.0 = v(-351000, 0, 2000);
    s.player = Some(player);
    s.progress = Progress { min_x: -300000, wall_x: -285000 };
    s.enemies.push(Enemy {
        position: v(-340000, 0, 0),
        facing: v(0, 0, -1000),
        health: Health::full(100),
        attack: AttackTimer(Timer::ready(2000)),
        model: 1,
    });
    let report = s.tick(&idle(16));
    assert!(report.recycled);
    let p = s.player.unwrap();
    assert_eq!(p.position.x, 349000);
    assert_eq!(p.target.0.x, 349000);
    assert_eq!(s.progress, Progress { min_x: 349000, wall_x: 379000 });
    assert!(s.enemies.is_empty());
}

#[test]
fn recycle_keeps_props_on_their_side() {
    let mut player = Session::new();
    player.press_button(MenuButton::StartGame);
    let mut pl = player.player.unwrap();
    pl.position.x = -400000;
    let mut progress = Progress { min_x: -400000, wall_x: -390000 };
    let mut props = vec![
        Prop { position: v(0, 0, 8000), kind: PropKind::Building(1) },
        Prop { position: v(5000, 500, -8000), kind: PropKind::TreeTrunk },
        Prop { position: v(5000, 2000, 0), kind: PropKind::TreeLeaves },
    ];
    let mut enemies = Vec::new();
    recycle_lane(&mut pl, &mut progress, &mut props, &mut enemies, &vec![-2000, 3999, 0]);
    assert_eq!(props[0].position, v(0, 0, 6000));
    assert_eq!(props[1].position, v(5000, 500, -11999));
    assert_eq!(props[2].position, v(5000, 2000, -8000));

    let mut some = Some(pl);
    some.as_mut().unwrap().position.x = -360000;
    assert!(needs_recycle(&some));
    let jitter = draw_prop_jitter(props.len());
    let before: Vec<i64> = props.iter().map(|p| p.position.z).collect();
    assert!(loop_environment(&mut some, &mut progress, &mut props, &mut enemies, &jitter));
    for ((p, z), j) in props.iter().zip(before).zip(jitter) {
        let d = p.position.z.abs();
        assert_eq!(d, LANE_HALF_WIDTH + j);
        assert_eq!(p.position.z > 0, z > 0);
    }
    assert!(!needs_recycle(&some));
    let kept = props.clone();
    assert!(!loop_environment(&mut some, &mut progress, &mut props, &mut enemies, &Vec::new()));
    assert_eq!(props, kept);
}

#[test]
fn spawner_places_enemy_ahead_of_player() {
    let s = playing();
    let mut timer = EnemySpawnTimer(Timer::new(5000, TimerMode::Repeating));
    let mut enemies = Vec::new();
    spawn_enemies(&mut timer, &s.player, 4000, 4990, &mut enemies, 3, -3000);
    assert!(enemies.is_empty());
    for _ in 0..20 {
        spawn_enemies(&mut timer, &s.player, 4000, 10, &mut enemies, 3, -3000);
    }
    assert_eq!(enemies.len(), 1);
    let e = enemies[0];
    assert_eq!(e.position, v(-60000, 0, 1000));
    assert_eq!(e.model, 3);
    assert_eq!(e.health, Health { current: 100, max: 100 });
    assert!(e.attack.0.finished());
    let mut more = Vec::new();
    spawn_enemies(&mut timer, &None, 0, 5000, &mut more, 0, 0);
    assert!(more.is_empty());
}

#[test]
fn spawn_draws_stay_in_range_and_vary() {
    let draws: Vec<(u8, i64)> = (0..200).map(|_| draw_spawn()).collect();
    for (model, jitter) in &draws {
        assert!(*model < 4);
        assert!((-3000..3000).contains(jitter));
    }
    assert!(draws.iter().any(|d| d.1 != draws[0].1));
    assert!(draws.iter().any(|d| d.0 != draws[0].0));
}

#[test]
fn tick_with_spawns_the_drawn_enemy() {
    let mut s = playing();
    s.spawn_timer = EnemySpawnTimer(Timer { duration_ms: 5000, elapsed_ms: 4990, mode: TimerMode::Repeating, just_finished: false });
    let mut input = idle(16);
    input.wave_z = 2500;
    let jitter = vec![0; s.props.len()];
    let r = s.tick_with(&input, 2, 1500, &jitter);
    assert!(!r.recycled);
    assert_eq!(s.enemies.len(), 1);
    assert_eq!(s.enemies[0].model, 2);
    // Spawned at (-60, 0, 2.5 + 1.5), then one 16 ms pursuit step of 0.08
    // units toward the player at the origin.
    assert_eq!(s.enemies[0].position, v(-59921, 0, 3995));
}

#[test]
fn victory_happens_once() {
    let mut s = playing();
    s.survival = SurvivalTimer(Timer { duration_ms: 300_000, elapsed_ms: 299_990, mode: TimerMode::Once, just_finished: false });
    s.tick(&idle(16));
    assert_eq!(s.state, GameState::Victory);
    assert!(s.player.is_none() && s.props.is_empty());
    let score = s.score;
    for _ in 0..5 {
        let r = s.tick(&idle(16));
        assert!(!r.recycled);
        assert_eq!(s.state, GameState::Victory);
        assert_eq!(s.score, score);
    }
    let mut t = SurvivalTimer(Timer { duration_ms: 300_000, elapsed_ms: 300_000, mode: TimerMode::Once, just_finished: true });
    assert_eq!(survival_tick(&mut t, 16), None);
    assert!(!t.0.just_finished);
}

#[test]
fn countdown_display() {
    assert_eq!(minutes_seconds(300_000), (5, 0));
    assert_eq!(minutes_seconds(61_500), (1, 1));
    assert_eq!(minutes_seconds(999), (0, 0));
}

#[test]
fn wall_stays_ahead_while_playing() {
    let mut s = playing();
    let mut input = idle(100);
    input.keys = DirectionKeys { up: true, down: false, left: false, right: false };
    let mut last_min = s.progress.min_x;
    for _ in 0..200 {
        let r = s.tick(&input);
        assert!(s.progress.wall_x > s.progress.min_x);
        if !r.recycled {
            assert!(s.progress.min_x <= last_min);
        }
        last_min = s.progress.min_x;
        let p = s.player.unwrap();
        assert!(p.position.x <= s.progress.wall_x);
    }
    assert!(s.progress.min_x < 0);
}

#[test]
fn menu_flow() {
    let mut s = Session::new();
    assert_eq!(s.state, GameState::Menu);
    assert!(s.choice.highlights(MenuButton::SelectCharA));
    s.press_button(MenuButton::SelectCharB);
    assert_eq!(s.choice.character, Character::B);
    assert!(s.choice.highlights(MenuButton::SelectCharB));
    assert!(!s.choice.highlights(MenuButton::SelectCharA));
    assert!(!s.choice.highlights(MenuButton::StartGame));
    s.press_button(MenuButton::Restart);
    assert_eq!(s.state, GameState::Menu);
    s.press_button(MenuButton::StartGame);
    assert_eq!(s.state, GameState::Playing);
    assert_eq!(s.props.len(), 81 * 2 + 80 * 4);
    assert_eq!(s.props[0], Prop { position: v(-400000, 0, 8000), kind: PropKind::Building(0) });
    assert_eq!(s.props[1], Prop { position: v(-400000, 0, -8000), kind: PropKind::Building(2) });
    assert_eq!(s.props[2], Prop { position: v(-395000, 500, 8000), kind: PropKind::TreeTrunk });
    assert_eq!(s.lives.0, 3);
    s.press_button(MenuButton::Restart);
    assert_eq!(s.state, GameState::Playing);
    s.transition(GameState::GameOver);
    assert!(s.player.is_none() && s.enemies.is_empty() && s.props.is_empty());
    s.press_button(MenuButton::StartGame);
    assert_eq!(s.state, GameState::GameOver);
    s.press_button(MenuButton::Restart);
    assert_eq!(s.state, GameState::Menu);
    assert_eq!(s.choice.character, Character::B);
}

#[test]
fn lives_exhaustion_ends_game_through_tick() {
    let mut s = playing();
    s.lives.0 = 1;
    let mut p = s.player.unwrap();
    p.health.current = 0;
    s.player = Some(p);
    s.tick(&idle(16));
    assert_eq!(s.state, GameState::GameOver);
    assert_eq!(s.lives.0, 0);
}

#[test]
fn timers() {
    let mut t = Timer::new(500, TimerMode::Once);
    t.tick(300);
    assert!(!t.finished());
    t.tick(300);
    assert!(t.finished() && t.just_finished);
    assert_eq!(t.elapsed_ms, 500);
    assert_eq!(t.remaining_ms(), 0);
    t.reset();
    assert_eq!(t.remaining_ms(), 500);
    let mut r = Timer::new(5000, TimerMode::Repeating);
    r.tick(12_000);
    assert!(r.just_finished);
    assert_eq!(r.elapsed_ms, 2000);
    r.tick(1000);
    assert!(!r.finished());
}

#[test]
fn integer_square_root_and_scaling() {
    assert_eq!(isqrt(0), 0);
    assert_eq!(isqrt(15), 3);
    assert_eq!(isqrt(16), 4);
    assert_eq!(isqrt(1 << 80), 1 << 40);
    assert_eq!(scale_to(v(3, 0, 4), 5000), v(3000, 0, 4000));
    assert_eq!(scale_to(v(0, -7, 0), 25000), v(0, -25000, 0));
}

#[test]
fn recycled_props_get_varied_distances() {
    let mut s = playing();
    let mut p = s.player.unwrap();
    p.position.x = -350_001;
    p.target.0.x = -350_001;
    s.player = Some(p);
    s.progress = Progress { min_x: -350_001, wall_x: -335_001 };
    let count = s.props.len();
    let r = s.tick(&idle(16));
    assert!(r.recycled);
    assert_eq!(s.props.len(), count);
    let first = s.props[0].position.z.abs();
    assert!(s.props.iter().any(|q| q.position.z.abs() != first));
    for q in &s.props {
        let d = q.position.z.abs();
        assert!((6000..12000).contains(&d));
    }
}

#[test]
fn start_builds_a_fresh_game() {
    let mut s = playing();
    s.score.0 = 700;
    s.lives.0 = 1;
    s.enemies.push(Enemy {
        position: v(-10000, 0, 0),
        facing: v(0, 0, -1000),
        health: Health::full(100),
        attack: AttackTimer(Timer::ready(2000)),
        model: 0,
    });
    s.progress = Progress { min_x: -90000, wall_x: -75000 };
    s.transition(GameState::GameOver);
    s.press_button(MenuButton::Restart);
    assert_eq!(s.state, GameState::Menu);
    assert_eq!(s.score.0, 700);
    s.press_button(MenuButton::StartGame);
    assert_eq!(s.state, GameState::Playing);
    assert_eq!(s.score.0, 0);
    assert_eq!(s.lives.0, 3);
    assert_eq!(s.progress, Progress { min_x: 0, wall_x: 20000 });
    assert_eq!(s.survival.0.remaining_ms(), 300_000);
    assert!(s.enemies.is_empty() && s.projectiles.is_empty());
    assert_eq!(s.props.len(), 482);
    let p = s.player.unwrap();
    assert_eq!(p.position, v(0, 0, 0));
    assert_eq!(p.health, Health { current: 200, max: 200 });
}

#[test]
fn enemy_stops_by_horizontal_distance() {
    let mut e = Enemy {
        position: v(0, 20000, 5000),
        facing: v(0, 0, -1000),
        health: Health::full(100),
        attack: AttackTimer(Timer::ready(2000)),
        model: 0,
    };
    move_enemy(&mut e, v(0, 0, 0), 1000);
    assert_eq!(e.position, v(0, 20000, 5000));
}
