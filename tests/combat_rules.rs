use lane_survival::combat::{
    enemy_attacks, enemy_fire, find_first_hit, fly, is_near, player_fire, update_projectiles,
};
use lane_survival::components::{
    health_bar_scale, AttackTimer, Enemy, Health, HoverPosition, Player, Projectile, Score,
    PlayerLives, TargetPosition, GameState,
};
use lane_survival::geometry::Vec3;
use lane_survival::lifecycle::handle_death;
use lane_survival::timer::Timer;

fn v(x: i64, y: i64, z: i64) -> Vec3 {
    Vec3 { x, y, z }
}

fn enemy_at(p: Vec3, health: i64) -> Enemy {
    Enemy {
        position: p,
        facing: v(0, 0, -1000),
        health: Health { current: health, max: 100 },
        attack: AttackTimer(Timer::ready(2000)),
        model: 0,
    }
}

fn player_at(p: Vec3) -> Player {
    Player {
        position: p,
        facing: v(0, 0, -1000),
        health: Health::full(200),
        attack: AttackTimer(Timer::ready(500)),
        target: TargetPosition(p),
    }
}

fn shot_at(p: Vec3, is_player: bool, damage: i64) -> Projectile {
    Projectile { position: p, velocity: v(0, 0, 0), damage, is_player }
}

#[test]
fn repeated_hits_then_death_scores_once() {
    let mut enemies = vec![enemy_at(v(-60000, 0, 0), 100)];
    let mut player = Some(player_at(v(0, 0, 0)));
    let mut score = Score(0);
    let mut lives = PlayerLives(3);
    let body = v(-60000, 1500, 0);
    let expected = [75, 50, 25, 0];
    for (k, want) in expected.iter().enumerate() {
        let mut shots = vec![shot_at(body, true, 25)];
        update_projectiles(&mut shots, &mut enemies, &mut player, 16);
        assert!(shots.is_empty(), "hit {} should spend the shot", k);
        assert_eq!(enemies[0].health.current, *want);
        let next = handle_death(&mut enemies, &mut player, &mut score, &mut lives);
        assert_eq!(next, None);
        if *want > 0 {
            assert_eq!(enemies.len(), 1);
            assert_eq!(score.0, 0);
        }
    }
    assert!(enemies.is_empty());
    assert_eq!(score.0, 100);
}

#[test]
fn player_shot_hits_first_enemy_in_order_not_closest() {
    let far_but_first = enemy_at(v(1000, 0, 0), 100);
    let exact = enemy_at(v(0, 0, 0), 100);
    let mut enemies = vec![far_but_first, exact];
    let mut player = None;
    let mut shots = vec![shot_at(v(0, 1500, 0), true, 25)];
    update_projectiles(&mut shots, &mut enemies, &mut player, 0);
    assert_eq!(enemies[0].health.current, 75);
    assert_eq!(enemies[1].health.current, 100);
    assert_eq!(find_first_hit(&vec![enemy_at(v(5000, 0, 0), 100)], v(0, 1500, 0)), 1);
}

#[test]
fn enemy_shot_hits_player_and_never_enemies() {
    let mut enemies = vec![enemy_at(v(0, 0, 0), 100)];
    let mut player = Some(player_at(v(0, 0, 0)));
    let mut shots = vec![shot_at(v(0, 1500, 0), false, 10)];
    update_projectiles(&mut shots, &mut enemies, &mut player, 0);
    assert!(shots.is_empty());
    assert_eq!(player.unwrap().health.current, 190);
    assert_eq!(enemies[0].health.current, 100);
}

#[test]
fn player_shot_misses_outside_hit_radius() {
    let mut enemies = vec![enemy_at(v(0, 0, 0), 100)];
    let mut player = None;
    let mut shots = vec![shot_at(v(2000, 1500, 0), true, 25)];
    update_projectiles(&mut shots, &mut enemies, &mut player, 0);
    assert_eq!(shots.len(), 1);
    assert_eq!(enemies[0].health.current, 100);
    assert!(is_near(v(1999, 1500, 0), v(0, 0, 0)));
    assert!(!is_near(v(2000, 1500, 0), v(0, 0, 0)));
}

#[test]
fn projectile_flies_straight_and_is_dropped_past_range() {
    let mut player = player_at(v(0, 0, 0));
    let hover = HoverPosition { world: v(20000, 0, 0) };
    let shot = player_fire(&mut player, &hover, true, 16).expect("a ready attack fires");
    assert_eq!(shot.velocity, v(25000, 0, 0));
    assert_eq!(shot.position, v(0, 1500, 0));
    assert_eq!(shot.damage, 25);
    assert!(shot.is_player);
    let start = shot.position;
    let mut p = shot;
    for _ in 0..50 {
        fly(&mut p, 16);
    }
    let dx = (p.position.x - start.x) as f64 / 1000.0;
    let dz = (p.position.z - start.z) as f64 / 1000.0;
    let moved = (dx * dx + dz * dz).sqrt();
    assert!((moved - 20.0).abs() < 0.01, "moved {}", moved);
    assert_eq!(p.position.y, start.y);

    let mut shots = vec![Projectile {
        position: v(499_990, 0, 0),
        velocity: v(25000, 0, 0),
        damage: 25,
        is_player: true,
    }];
    let mut enemies = Vec::new();
    let mut none = None;
    update_projectiles(&mut shots, &mut enemies, &mut none, 0);
    assert_eq!(shots.len(), 1);
    update_projectiles(&mut shots, &mut enemies, &mut none, 16);
    assert!(shots.is_empty());
}

#[test]
fn player_cooldown_gates_fire() {
    let mut player = player_at(v(0, 0, 0));
    let hover = HoverPosition { world: v(0, 0, 0) };
    let first = player_fire(&mut player, &hover, true, 16).expect("ready");
    // Aim point on the player: the default direction (-1, 0, -1) is used.
    assert_eq!(first.velocity, v(-17679, 0, -17679));
    assert_eq!(player.attack.0.elapsed_ms, 0);
    assert!(player_fire(&mut player, &hover, true, 400).is_none());
    assert!(player_fire(&mut player, &hover, false, 200).is_none());
    assert!(player_fire(&mut player, &hover, true, 0).is_some());
}

#[test]
fn enemy_fires_only_in_range_and_keeps_cooldown_when_out_of_range() {
    let mut near = enemy_at(v(-30000, 0, 0), 100);
    let shot = enemy_fire(&mut near, Some(v(0, 0, 0)), 16).expect("in range and ready");
    assert_eq!(shot.velocity, v(15000, 0, 0));
    assert_eq!(shot.damage, 10);
    assert!(!shot.is_player);
    assert_eq!(near.attack.0.elapsed_ms, 0);

    let mut far = enemy_at(v(-35000, 0, 0), 100);
    assert!(enemy_fire(&mut far, Some(v(0, 0, 0)), 16).is_none());
    assert!(far.attack.0.finished());
    far.position = v(-34000, 0, 0);
    assert!(enemy_fire(&mut far, Some(v(0, 0, 0)), 0).is_some());

    let mut alone = enemy_at(v(0, 0, 0), 100);
    assert!(enemy_fire(&mut alone, None, 16).is_none());
}

#[test]
fn volley_appends_shots_in_enemy_order() {
    let mut enemies = vec![
        enemy_at(v(-10000, 0, 0), 100),
        enemy_at(v(-90000, 0, 0), 100),
        enemy_at(v(0, 0, 20000), 100),
    ];
    let mut shots = Vec::new();
    enemy_attacks(&mut enemies, Some(v(0, 0, 0)), 16, &mut shots);
    assert_eq!(shots.len(), 2);
    assert_eq!(shots[0].velocity, v(15000, 0, 0));
    assert_eq!(shots[1].velocity, v(0, 0, -15000));
}

#[test]
fn last_life_ends_game_and_keeps_health() {
    let mut enemies = Vec::new();
    let mut dying = player_at(v(0, 0, 0));
    dying.health.current = -5;
    let mut player = Some(dying);
    let mut score = Score(0);
    let mut lives = PlayerLives(1);
    let next = handle_death(&mut enemies, &mut player, &mut score, &mut lives);
    assert_eq!(next, Some(GameState::GameOver));
    assert_eq!(lives.0, 0);
    assert_eq!(player.unwrap().health.current, -5);
}

#[test]
fn spare_life_restores_health() {
    let mut enemies = Vec::new();
    let mut dying = player_at(v(1000, 0, 0));
    dying.health.current = 0;
    let mut player = Some(dying);
    let mut score = Score(0);
    let mut lives = PlayerLives(3);
    let next = handle_death(&mut enemies, &mut player, &mut score, &mut lives);
    assert_eq!(next, None);
    assert_eq!(lives.0, 2);
    assert_eq!(player.unwrap().health.current, 200);
    assert_eq!(player.unwrap().position, v(1000, 0, 0));
}

#[test]
fn score_saturates() {
    let mut enemies = vec![enemy_at(v(0, 0, 0), 0), enemy_at(v(0, 0, 0), -3)];
    let mut player = None;
    let mut score = Score(u32::MAX - 150);
    let mut lives = PlayerLives(3);
    handle_death(&mut enemies, &mut player, &mut score, &mut lives);
    assert_eq!(score.0, u32::MAX);
    assert!(enemies.is_empty());
}

#[test]
fn health_bar_scale_values() {
    assert_eq!(health_bar_scale(&Health { current: 200, max: 200 }), 2000);
    assert_eq!(health_bar_scale(&Health { current: 199, max: 200 }), 1990);
    assert_eq!(health_bar_scale(&Health { current: 50, max: 100 }), 1000);
    assert_eq!(health_bar_scale(&Health { current: 0, max: 100 }), 0);
    assert_eq!(health_bar_scale(&Health { current: -40, max: 100 }), 0);
    assert_eq!(health_bar_scale(&Health { current: 99, max: 100 }), 1980);
}

#[test]
fn health_hit_saturates() {
    let mut h = Health { current: i64::MIN + 3, max: 10 };
    h.hit(25);
    assert_eq!(h.current, i64::MIN);
    let mut g = Health::full(100);
    g.hit(25);
    assert_eq!(g.current, 75);
}
