use combat::components::Player;
use combat::damage::{Barrier, Health, HitMarker};
use combat::geometry::Vec3;
use combat::health::{DeathAction, HealthSystem};
use combat::hitscan::{Bullet, PelletSpread};
use combat::shooting::{PlayerView, ShootingSystem};
use combat::ui::UIHealthSystem;

fn bullet(damage: u64) -> Bullet {
    Bullet {
        speed: 1,
        direction: Vec3::new(0, 0, 1),
        spread: PelletSpread { x: 0, y: 0, z: 0 },
        shot_from: Vec3::new(5, 0, 0),
        damage,
    }
}

#[test]
fn barrier_absorbs_all_damage() {
    let mut h = Health::new(100);
    h.apply_bullet_damage(Some(Barrier { current_barrier: 3 }), &bullet(25));
    assert_eq!(h, Health::new(100));
}

#[test]
fn empty_barrier_lets_damage_through() {
    let mut h = Health::new(100);
    h.apply_bullet_damage(Some(Barrier { current_barrier: 0 }), &bullet(25));
    assert_eq!(h.current_health, 75);
    assert!(h.recently_damaged);
    assert_eq!(h.last_damaged_from, Some(Vec3::new(5, 0, 0)));
    h.apply_bullet_damage(None, &bullet(90));
    assert_eq!(h.current_health, -15);
    h.clear_recently_damaged();
    assert!(!h.recently_damaged);
    h.take_damage(5);
    assert_eq!(h.current_health, -20);
}

#[test]
fn hit_marker_sides() {
    let forward = Vec3::new(0, 0, 1000);
    let pos = Vec3::new(0, 0, 0);
    let mut h = Health::new(100);
    h.record_hit_direction(&forward, &pos, &Vec3::new(0, 0, 5000));
    assert_eq!(h.marker, HitMarker::Front);
    assert!(!h.start_blood_timer);
    h.record_hit_direction(&forward, &pos, &Vec3::new(5000, 0, 1000));
    assert_eq!(h.marker, HitMarker::Left);
    assert!(h.start_blood_timer);
    h.record_hit_direction(&forward, &pos, &Vec3::new(-5000, 0, 0));
    assert_eq!(h.marker, HitMarker::Right);
    h.record_hit_direction(&forward, &pos, &Vec3::new(1000, 0, 1000));
    assert_eq!(h.marker, HitMarker::Front);
    h.record_hit_direction(&forward, &pos, &pos);
    assert_eq!(h.marker, HitMarker::Front);
}

#[test]
fn marker_fades_after_two_seconds() {
    let ui = UIHealthSystem::new();
    let mut h = Health::new(100);
    h.record_hit_direction(&Vec3::new(0, 0, 1000), &Vec3::new(0, 0, 0), &Vec3::new(-3000, 0, 0));
    assert_eq!(ui.display_markers(&mut h, 1000), HitMarker::Right);
    assert_eq!(ui.display_markers(&mut h, 900), HitMarker::Right);
    assert_eq!(ui.display_markers(&mut h, 200), HitMarker::Front);
    assert!(!h.start_blood_timer);
}

#[test]
fn health_readout() {
    let ui = UIHealthSystem::new();
    let mut h = Health::new(250);
    h.take_damage(200);
    assert_eq!(ui.health_fraction(&h), 200);
    assert!(!ui.shows_low_marker(&h));
    h.take_damage(1);
    assert!(ui.shows_low_marker(&h));
    h.take_damage(52);
    assert_eq!(h.current_health, 2 - 5);
    assert_eq!(ui.health_fraction(&h), -12);
    assert!(ui.shows_low_marker(&h));
}

#[test]
fn barriers_follow_spawner_count() {
    let sys = HealthSystem::new();
    let mut b = vec![Barrier { current_barrier: 0 }, Barrier { current_barrier: 9 }];
    sys.check_for_barrier(&mut b, 2);
    assert!(b.iter().all(|x| x.current_barrier == 2));
    let mut hs = vec![Health::new(1), Health::new(2)];
    hs[0].recently_damaged = true;
    sys.clear_recently_damaged(&mut hs);
    assert!(hs.iter().all(|h| !h.recently_damaged));
}

#[test]
fn dead_entities_are_removed_or_handed_over() {
    let sys = HealthSystem::new();
    let alive = Health::new(10);
    let mut dead = Health::new(10);
    dead.take_damage(10);
    let mut none: Option<Player> = None;
    assert_eq!(sys.remove_dead_entity(&alive, false, &mut none, 16), DeathAction::Keep);
    assert_eq!(sys.remove_dead_entity(&dead, true, &mut none, 16), DeathAction::MarkDead);
    assert_eq!(sys.remove_dead_entity(&dead, false, &mut none, 16), DeathAction::Remove);
    let mut p = Some(Player { death_transition: false, death_transition_timer: 777 });
    assert_eq!(sys.remove_dead_entity(&dead, false, &mut p, 1500), DeathAction::Keep);
    assert_eq!(p, Some(Player { death_transition: true, death_transition_timer: 1500 }));
    assert_eq!(sys.remove_dead_entity(&dead, false, &mut p, 500), DeathAction::Remove);
}

#[test]
fn bullet_travel_per_frame() {
    let b = Bullet { speed: 50_000, ..bullet(1) };
    assert_eq!(b.travel_distance(16), 800);
    assert_eq!(b.travel_distance(0), 0);
}

#[test]
fn damage_on_player_records_direction_then_health() {
    let sys = ShootingSystem::new();
    let mut h = Health::new(100);
    let view = PlayerView { position: Vec3::new(0, 0, 0), forward: Vec3::new(0, 0, 1000) };
    let b = Bullet { shot_from: Vec3::new(-4000, 0, -100), ..bullet(30) };
    sys.handle_damage(&mut h, None, &b, Some(view));
    assert_eq!(h.current_health, 70);
    assert_eq!(h.marker, HitMarker::Right);
    assert!(h.start_blood_timer);
    let mut shielded = Health::new(100);
    sys.handle_damage(&mut shielded, Some(Barrier { current_barrier: 1 }), &b, None);
    assert_eq!(shielded, Health::new(100));
}
