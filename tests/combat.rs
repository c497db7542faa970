use skull_arena::explosion::{explosion_collision, falloff, radius_for_scale, ExplosionEvent, ExplosionHit};
use skull_arena::geometry::Vec2;
use skull_arena::health::{Damage, DamageEvent, Health};
use skull_arena::player::{Player, PlayerHurtEvent};
use skull_arena::score::{Score, ScoreEvent};
use skull_arena::shotgun::{ShapeHit, Shotgun, ShotgunEvent, ShotgunState};

#[test]
fn shotgun_first_press_fires_once_and_returns_to_idle() {
    let mut gun = Shotgun::new();
    assert_eq!(gun.update(true, false, 16), Some(ShotgunEvent::Fire));
    assert!(matches!(gun.state, ShotgunState::Firing { .. }));
    assert_eq!(gun.shots, 1);
    assert_eq!(gun.next_state, ShotgunState::Idle);
    // still holding the trigger while the firing time runs out
    assert_eq!(gun.update(true, false, 30), None);
    assert!(matches!(gun.state, ShotgunState::Firing { .. }));
    assert_eq!(gun.update(true, false, 20), None);
    assert_eq!(gun.state, ShotgunState::Idle);
    assert_eq!(gun.shots, 1);
}

#[test]
fn shotgun_second_barrel_fires_on_release_then_reloads() {
    let mut gun = Shotgun::new();
    gun.shots = 1;
    assert_eq!(gun.update(true, false, 16), None);
    assert_eq!(gun.state, ShotgunState::Idle);
    assert_eq!(gun.update(false, true, 16), Some(ShotgunEvent::Fire));
    assert_eq!(gun.shots, 0);
    assert!(matches!(gun.next_state, ShotgunState::Reloading { .. }));
    assert_eq!(gun.update(false, false, 50), Some(ShotgunEvent::Reload));
    assert!(matches!(gun.state, ShotgunState::Reloading { .. }));
    assert_eq!(gun.update(false, false, 999), None);
    assert!(matches!(gun.state, ShotgunState::Reloading { .. }));
    assert_eq!(gun.update(false, false, 1), None);
    assert_eq!(gun.state, ShotgunState::Idle);
    assert_eq!(gun.shots, 2);
}

#[test]
fn shotgun_does_not_fire_while_busy_or_without_trigger() {
    let mut gun = Shotgun::new();
    assert!(!gun.should_fire(false, false));
    assert!(!gun.should_fire(false, true));
    assert!(gun.should_fire(true, false));
    gun.update(true, false, 1);
    assert!(!gun.should_fire(true, true));
}

#[test]
fn shotgun_damage_falls_off_linearly() {
    let gun = Shotgun::new();
    assert_eq!(gun.falloff_damage(0), 100_000);
    assert_eq!(gun.falloff_damage(15_000), 100_000);
    assert_eq!(gun.falloff_damage(22_500), 50_000);
    assert_eq!(gun.falloff_damage(27_000), 20_000);
    assert_eq!(gun.falloff_damage(30_000), 0);
    assert_eq!(gun.falloff_damage(45_000), 0);
}

#[test]
fn shotgun_hit_makes_one_damage_event() {
    let gun = Shotgun::new();
    let ev = gun.hit_event(&ShapeHit { entity: 7, distance: 22_500 });
    assert_eq!(ev, DamageEvent { entity: 7, damage: Damage::Amount(50_000), chain: 0 });
}

#[test]
fn health_death_latches_once() {
    let mut h = Health::new(100_000);
    assert!(!h.dead);
    assert!(h.apply_damage(Damage::Amount(150_000)));
    assert!(h.dead);
    assert_eq!(h.current, -50_000);
    assert!(!h.apply_damage(Damage::Amount(10)));
    assert!(h.dead);
    assert_eq!(h.current, -50_010);
}

#[test]
fn health_edge_cases() {
    assert!(Health::new(0).dead);
    assert!(!Health::new(1).dead);
    let mut h = Health::new(5);
    assert!(!h.apply_damage(Damage::Amount(4)));
    assert_eq!(h.current, 1);
    assert!(h.apply_damage(Damage::Infinite));
    assert_eq!(h.current, i64::MIN);
    let mut low = Health { current: i64::MIN + 3, dead: true };
    assert!(!low.apply_damage(Damage::Amount(u64::MAX)));
    assert_eq!(low.current, i64::MIN);
    assert!(!Damage::Amount(0).positive());
    assert!(Damage::Amount(1).positive());
    assert!(Damage::Infinite.positive());
}

#[test]
fn player_invulnerability_window() {
    let mut p = Player::new();
    let mut h = Health::new(100_000);
    assert!(p.is_vulnerable());
    assert_eq!(p.receive_damage(&mut h, Damage::Amount(20_000)), Some(PlayerHurtEvent { died: false }));
    assert_eq!(h.current, 80_000);
    assert!(!p.is_vulnerable());
    assert_eq!(p.receive_damage(&mut h, Damage::Amount(20_000)), None);
    assert_eq!(h.current, 80_000);
    p.update(199);
    assert!(!p.is_vulnerable());
    p.update(1);
    assert!(p.is_vulnerable());
    assert_eq!(p.receive_damage(&mut h, Damage::Amount(0)), None);
    assert!(p.is_vulnerable());
    assert_eq!(p.receive_damage(&mut h, Damage::Infinite), Some(PlayerHurtEvent { died: true }));
    assert!(h.dead);
}

#[test]
fn player_death_timer_ends_game_once() {
    let mut p = Player::new();
    let alive = Health::new(10);
    assert!(!p.death_tick(&alive, 5000));
    let dead = Health { current: -1, dead: true };
    assert!(!p.death_tick(&dead, 1999));
    assert!(p.death_tick(&dead, 1));
    assert!(!p.death_tick(&dead, 1));
}

#[test]
fn explosion_falloff_is_linear() {
    let r = radius_for_scale(1000);
    assert_eq!(r, 2500);
    assert_eq!(radius_for_scale(2000), 5000);
    assert_eq!(radius_for_scale(1), 2);
    assert_eq!(falloff(25_000, r, 0), 25_000);
    assert_eq!(falloff(25_000, r, 1250), 12_500);
    assert_eq!(falloff(25_000, r, 2500), 0);
    assert_eq!(falloff(25_000, r, 9000), 0);
    assert_eq!(falloff(25_000, 0, 0), 0);
}

#[test]
fn explosion_damages_each_overlapping_entity() {
    let ev = ExplosionEvent { pos: Vec2::new(0, 0), scale: 1000, damage: 25_000, chain: 3 };
    let hits = vec![
        ExplosionHit { entity: 1, center: Vec2::new(0, 0) },
        ExplosionHit { entity: 2, center: Vec2::new(1250, 0) },
        ExplosionHit { entity: 3, center: Vec2::new(0, -2600) },
        ExplosionHit { entity: 4, center: Vec2::new(600, 800) },
    ];
    let out = explosion_collision(&ev, &hits);
    assert_eq!(
        out,
        vec![
            DamageEvent { entity: 1, damage: Damage::Amount(25_000), chain: 3 },
            DamageEvent { entity: 2, damage: Damage::Amount(12_500), chain: 3 },
            DamageEvent { entity: 3, damage: Damage::Amount(0), chain: 3 },
            DamageEvent { entity: 4, damage: Damage::Amount(15_000), chain: 3 },
        ]
    );
    assert!(explosion_collision(&ev, &vec![]).is_empty());
}

#[test]
fn score_single_kills() {
    let mut s = Score::new();
    s.handle_score_events(&vec![ScoreEvent { chain: 0 }]);
    assert_eq!(s.score, 150);
    s.handle_score_events(&vec![ScoreEvent { chain: 2 }]);
    assert_eq!(s.score, 420);
}

#[test]
fn score_batch_sums_before_commit() {
    let mut s = Score::new();
    s.handle_score_events(&vec![ScoreEvent { chain: 0 }, ScoreEvent { chain: 1 }]);
    assert_eq!(s.score, 360);
    s.handle_score_events(&vec![]);
    assert_eq!(s.score, 360);
}
