use skull_arena::geometry::Vec2;
use skull_arena::health::{Damage, DamageEvent};
use skull_arena::player::PlayerHurtEvent;
use skull_arena::spawner::{
    far_enough_from_player, pick_spawn_position, SkullsKilled, SpawnParameters, Spawner,
};
use skull_arena::states::{AppState, GameState, PauseState};
use skull_arena::world::World;

#[test]
fn difficulty_curve_values() {
    let mut p = SpawnParameters::new();
    assert_eq!(p.skulls_to_spawn, 5000);
    assert_eq!(p.delay_before_next_spawner, 10_000);
    p.set_difficulty(0);
    assert_eq!(p.skulls_to_spawn, 5000);
    assert_eq!(p.delay_before_next_spawner, 10_000);
    p.set_difficulty(10);
    assert_eq!(p.skulls_to_spawn, 11_928);
    assert_eq!(p.delay_before_next_spawner, 9546);
    p.set_difficulty(100);
    assert_eq!(p.skulls_to_spawn, 26_908);
    assert_eq!(p.delay_before_next_spawner, 7500);
    assert_eq!(p.wave_size(), 26);
    p.set_difficulty(1_000_000);
    assert_eq!(p.delay_before_next_spawner, 5001);
    p.set_difficulty(1_000_000_000_000);
    assert_eq!(p.delay_before_next_spawner, 5001);
}

#[test]
fn scheduler_fires_after_delay() {
    let mut p = SpawnParameters::new();
    assert_eq!(p.update(9999, &SkullsKilled { count: 0 }), None);
    assert_eq!(p.update(1, &SkullsKilled { count: 3 }), Some(8));
    assert_eq!(p.difficulty, 3);
    assert_eq!(p.delay_before_next_spawner, 9855);
    assert_eq!(p.timer.duration, 9855);
    assert_eq!(p.timer.elapsed, 0);
    assert_eq!(p.update(9854, &SkullsKilled { count: 3 }), None);
}

#[test]
fn first_spawner_is_fixed() {
    let p = SpawnParameters::new();
    let ev = p.first_spawner();
    assert_eq!(ev.pos, Vec2::new(0, -20_000));
    assert_eq!(ev.skulls_left, 5);
}

#[test]
fn spawn_points_keep_their_distance() {
    let player = Vec2::new(0, 0);
    assert!(far_enough_from_player(&Vec2::new(15_000, 0), &player));
    assert!(!far_enough_from_player(&Vec2::new(14_999, 0), &player));
    assert!(far_enough_from_player(&Vec2::new(10_000, 11_181), &player));
    let candidates = vec![
        Vec2::new(0, 1000),
        Vec2::new(3000, 4000),
        Vec2::new(20_000, 0),
        Vec2::new(30_000, 0),
    ];
    assert_eq!(pick_spawn_position(&candidates, &player), Some(Vec2::new(20_000, 0)));
    assert_eq!(pick_spawn_position(&candidates[..2].to_vec(), &player), None);
    assert_eq!(pick_spawn_position(&vec![], &player), None);
}

#[test]
fn spawner_emits_every_period_until_empty() {
    let mut s = Spawner::new(2);
    assert!(!s.tick(749));
    assert!(s.tick(1));
    assert_eq!(s.skulls_left, 1);
    assert!(!s.is_exhausted());
    assert!(s.tick(750));
    assert_eq!(s.skulls_left, 0);
    assert!(s.is_exhausted());
}

#[test]
fn first_enemy_dies_into_a_blast() {
    let mut w = World::new();
    assert_eq!(w.spawners.len(), 1);
    assert_eq!(w.spawners[0].pos, Vec2::new(0, -20_000));
    w.run_spawners(749);
    assert!(w.skulls.is_empty());
    w.run_spawners(1);
    assert_eq!(w.skulls.len(), 1);
    let skull = w.skulls[0];
    assert_eq!(skull.pos, Vec2::new(0, -20_000));
    let out = w.handle_damage(&vec![DamageEvent { entity: skull.id, damage: Damage::Infinite, chain: 0 }]);
    assert_eq!(out.explosions.len(), 1);
    assert_eq!(out.explosions[0].pos, Vec2::new(0, -20_000));
    assert_eq!(out.explosions[0].chain, 1);
    assert_eq!(out.explosions[0].scale, 1000);
    assert_eq!(out.explosions[0].damage, 25_000);
    assert_eq!(out.scores.len(), 1);
    assert_eq!(out.scores[0].chain, 0);
    assert_eq!(w.kills.count, 1);
    assert!(w.skulls.is_empty());
    w.score.handle_score_events(&out.scores);
    assert_eq!(w.score.score, 150);
}

#[test]
fn second_hit_on_a_dead_enemy_raises_nothing() {
    let mut w = World::new();
    w.run_spawners(750);
    let id = w.skulls[0].id;
    let hit = DamageEvent { entity: id, damage: Damage::Amount(15_000), chain: 2 };
    let out = w.handle_damage(&vec![hit, hit]);
    assert_eq!(out.explosions.len(), 1);
    assert_eq!(out.explosions[0].chain, 3);
    assert_eq!(out.scores.len(), 1);
    assert_eq!(out.scores[0].chain, 2);
    assert_eq!(w.kills.count, 1);
    let again = w.handle_damage(&vec![hit]);
    assert!(again.explosions.is_empty());
    assert!(again.scores.is_empty());
}

#[test]
fn wounded_enemy_and_hurt_player() {
    let mut w = World::new();
    w.run_spawners(750);
    let id = w.skulls[0].id;
    let out = w.handle_damage(&vec![
        DamageEvent { entity: id, damage: Damage::Amount(4000), chain: 0 },
        DamageEvent { entity: 0, damage: Damage::Amount(20_000), chain: 0 },
        DamageEvent { entity: 0, damage: Damage::Amount(20_000), chain: 0 },
        DamageEvent { entity: 99, damage: Damage::Infinite, chain: 0 },
    ]);
    assert!(out.explosions.is_empty());
    assert_eq!(w.skulls[0].health.current, 6000);
    assert!(!w.skulls[0].health.dead);
    assert_eq!(out.hurts, vec![PlayerHurtEvent { died: false }]);
    assert_eq!(w.player.health.current, 80_000);
    assert_eq!(w.kills.count, 0);
}

#[test]
fn spawner_runs_out_after_its_wave() {
    let mut w = World::new();
    for _ in 0..5 {
        w.run_spawners(750);
    }
    assert_eq!(w.skulls.len(), 5);
    assert!(w.spawners.is_empty());
    let ids: Vec<u64> = w.skulls.iter().map(|s| s.id).collect();
    assert_eq!(ids, vec![2, 3, 4, 5, 6]);
    w.run_spawners(750);
    assert_eq!(w.skulls.len(), 5);
}

#[test]
fn contact_with_player_kills_enemy() {
    let mut w = World::new();
    w.run_spawners(750);
    let id = w.skulls[0].id;
    let kills = w.skull_collisions(&vec![(0, id), (id, 0), (5, 6), (0, 77)]);
    let expected = DamageEvent { entity: id, damage: Damage::Infinite, chain: 0 };
    assert_eq!(kills, vec![expected, expected]);
}

#[test]
fn enemies_steer_toward_player() {
    let mut w = World::new();
    w.run_spawners(750);
    w.move_skulls();
    assert_eq!(w.skulls[0].motion.desired_velocity, Vec2::new(0, 5000));
}

#[test]
fn new_spawner_gets_fresh_id() {
    let mut w = World::new();
    let ev = w.spawn_parameters.first_spawner();
    w.spawn_spawner(&ev);
    assert_eq!(w.spawners.len(), 2);
    assert_eq!(w.spawners[1].id, 2);
    assert_eq!(w.next_id, 3);
}

#[test]
fn session_state_transitions() {
    assert_eq!(GameState::Startup.next(AppState::AssetLoading, true), GameState::Startup);
    assert_eq!(GameState::Startup.next(AppState::Ready, false), GameState::MainMenu);
    assert_eq!(GameState::MainMenu.next(AppState::Ready, false), GameState::MainMenu);
    assert_eq!(GameState::MainMenu.next(AppState::Ready, true), GameState::InGame);
    assert_eq!(GameState::InGame.next(AppState::Ready, true), GameState::InGame);
    assert_eq!(GameState::End.next(AppState::Ready, true), GameState::InGame);
    assert_eq!(GameState::InGame.after_death_countdown(false), GameState::InGame);
    assert_eq!(GameState::InGame.after_death_countdown(true), GameState::End);
    assert_eq!(GameState::MainMenu.after_death_countdown(true), GameState::MainMenu);
    assert_eq!(PauseState::Unpaused.toggled(true), PauseState::Paused);
    assert_eq!(PauseState::Paused.toggled(true), PauseState::Unpaused);
    assert_eq!(PauseState::Paused.toggled(false), PauseState::Paused);
    assert_eq!(PauseState::Paused.sim_delta(16), 0);
    assert_eq!(PauseState::Unpaused.sim_delta(16), 16);
}

#[test]
fn paused_frames_do_not_advance_spawners() {
    let mut w = World::new();
    for _ in 0..10 {
        w.run_spawners(PauseState::Paused.sim_delta(750));
    }
    assert!(w.skulls.is_empty());
    assert_eq!(w.spawners[0].spawner.timer.elapsed, 0);
}
