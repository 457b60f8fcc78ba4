use combat::geometry::Vec3;
use combat::grenade::{
    falloff_damage, floor_sqrt, teleport_destination, Grenade, GrenadeState, GrenadeSystem,
    ThrowInput, Throwable,
};

fn grenade() -> Grenade {
    Grenade {
        current_time: 0,
        max_time_before_detonation: 3000,
        minimum_time_for_teleport: 1000,
        explosion_radius: 10_000,
        damage: 100,
        has_teleport: true,
        is_teleport_ready: false,
        noise: 1,
        explosion_prefab: 2,
    }
}

#[test]
fn teleport_requested_mid_flight_wins_over_detonation() {
    let mut g = grenade();
    for _ in 0..3 {
        assert_eq!(g.flight_step(500, false), GrenadeState::Flying);
    }
    assert_eq!(g.current_time, 1500);
    assert_eq!(g.flight_step(0, true), GrenadeState::Teleported);
    assert!(g.is_teleport_ready);
}

#[test]
fn teleport_not_armed_before_minimum_time() {
    let mut g = grenade();
    assert_eq!(g.flight_step(500, true), GrenadeState::Flying);
    assert!(!g.is_teleport_ready);
}

#[test]
fn teleport_disabled_grenade_detonates_after_deadline() {
    let mut g = grenade();
    g.has_teleport = false;
    for _ in 0..6 {
        assert_eq!(g.flight_step(500, true), GrenadeState::Flying);
    }
    assert_eq!(g.current_time, 3000);
    assert_eq!(g.flight_step(500, false), GrenadeState::Detonated);
    assert_eq!(g.current_time, 3000);
}

#[test]
fn teleport_wins_in_the_deadline_frame() {
    let mut g = grenade();
    g.current_time = 3000;
    assert_eq!(g.flight_step(16, true), GrenadeState::Teleported);
}

#[test]
fn fuse_light_grows_with_time() {
    let mut g = grenade();
    g.current_time = 1250;
    assert_eq!(g.fuse_light(), (5000, 1250));
}

#[test]
fn falloff_values() {
    assert_eq!(falloff_damage(100, 0, 10), 100);
    assert_eq!(falloff_damage(100, 5, 10), 50);
    assert_eq!(falloff_damage(100, 3, 10), 70);
    assert_eq!(falloff_damage(100, 10, 10), 0);
    assert_eq!(falloff_damage(100, 15, 10), 0);
    assert_eq!(falloff_damage(7, 1, 3), 4);
    assert_eq!(falloff_damage(100, 0, 0), 0);
}

#[test]
fn floor_sqrt_values() {
    assert_eq!(floor_sqrt(0), 0);
    assert_eq!(floor_sqrt(15), 3);
    assert_eq!(floor_sqrt(16), 4);
    assert_eq!(floor_sqrt(25_000_000), 5000);
    assert_eq!(floor_sqrt(u64::MAX), 4_294_967_295);
}

#[test]
fn detonation_damages_by_distance() {
    let mut sys = GrenadeSystem::new();
    sys.tick(300);
    assert_eq!(sys.timer, 300);
    let g = grenade();
    let center = Vec3::new(0, 0, 0);
    let targets = vec![Vec3::new(0, 0, 0), Vec3::new(3000, 4000, 0), Vec3::new(20_000, 0, 0)];
    let hits = sys.handle_detonation(&g, &center, &targets);
    assert_eq!(sys.timer, 0);
    assert_eq!(hits.iter().map(|h| h.damage).collect::<Vec<_>>(), vec![100, 50, 0]);
    assert_eq!(hits[1].distance, 5000);
}

#[test]
fn teleport_lands_above_grenade() {
    assert_eq!(teleport_destination(&Vec3::new(1, 2, 3)), Vec3::new(1, 502, 3));
}

fn thrower() -> Throwable {
    Throwable {
        active: true,
        cooldown_timer: 0,
        grenade_cooldown: 1000,
        current_charge: 0,
        charge_time: 300,
        velocity: 15_000,
        angular_dampening: 500,
        item: 9,
    }
}

#[test]
fn shoulder_charges_and_throws() {
    let mut t = Throwable { cooldown_timer: 1000, ..thrower() };
    let held = ThrowInput { right_shoulder: true, right_click: false };
    assert!(!t.charge_step(&held, 200));
    assert_eq!(t.current_charge, 200);
    assert!(t.charge_step(&held, 200));
    assert_eq!(t.current_charge, 0);
    assert_eq!(t.cooldown_timer, 0);
}

#[test]
fn shoulder_waits_for_cooldown() {
    let mut t = thrower();
    let held = ThrowInput { right_shoulder: true, right_click: false };
    assert!(!t.charge_step(&held, 400));
    assert_eq!(t.current_charge, 0);
    assert_eq!(t.cooldown_timer, 400);
    assert!(!t.charge_step(&held, 599));
    assert_eq!(t.current_charge, 0);
    assert!(!t.charge_step(&held, 1));
    assert_eq!(t.current_charge, 1);
}

#[test]
fn click_waits_for_cooldown() {
    let mut t = thrower();
    let click = ThrowInput { right_shoulder: false, right_click: true };
    assert!(!t.charge_step(&click, 500));
    assert_eq!(t.current_charge, 0);
    assert_eq!(t.cooldown_timer, 500);
    assert!(!t.charge_step(&click, 499));
    assert_eq!(t.current_charge, 0);
    assert!(!t.charge_step(&click, 200));
    assert_eq!(t.current_charge, 200);
    assert!(t.charge_step(&click, 100));
    assert_eq!(t.current_charge, 0);
}

#[test]
fn inactive_thrower_does_nothing() {
    let mut t = thrower();
    t.active = false;
    let held = ThrowInput { right_shoulder: true, right_click: true };
    assert!(!t.charge_step(&held, 5000));
    assert_eq!(t, Throwable { active: false, ..thrower() });
}
