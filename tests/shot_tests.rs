use combat::geometry::Vec3;
use combat::gun::{Gun, GunInput, GunMode, ShotOutcome};
use combat::hitscan::{resolve_aim_direction, sample_pellet_spread};
use combat::pool::{BulletPool, POOL_CAPACITY};
use combat::shooting::{get_bullet_prefab, ShootingSystem};

fn slots() -> Vec<u64> {
    (0..POOL_CAPACITY as u64).map(|i| 100 + i).collect()
}

fn blast_gun() -> Gun {
    Gun {
        mode: GunMode::Blast,
        single_ammo: 30,
        burst_ammo: 40,
        blast_ammo: 12,
        single_max_ammo: 30,
        burst_max_ammo: 40,
        blast_max_ammo: 12,
        max_distance: 100_000,
        damage: 7,
        refire_rate: 600,
        burst_multiplier: 3,
        single_reload_duration: 1500,
        refire_timer: None,
        is_reloading: false,
        reload_timer: 0,
        holding_trigger: false,
        is_shooting: false,
        trigger_shooting_anim_enemy: false,
        spread_angle: 5000,
        bullet_amount: 8,
    }
}

#[test]
fn blast_shot_claims_eight_slots_within_spread() {
    let mut sys = ShootingSystem::new();
    sys.initialize(slots());
    let mut g = blast_gun();
    let input = GunInput { weapon_shoot: true, ..GunInput::default() };
    assert!(matches!(g.player_step(&input, 16), ShotOutcome::Fired { .. }));
    let hit = Some(Vec3::new(0, 1000, 20_000));
    let muzzle = Vec3::new(0, 1000, 500);
    let forward = Vec3::new(0, 0, 1000);
    let shooter = Vec3::new(0, 0, 0);
    let shots = sys.resolve_player_shot(&g, hit, &muzzle, &forward, &shooter, 50_000);
    assert_eq!(shots.len(), 8);
    for (i, s) in shots.iter().enumerate() {
        assert_eq!(s.slot, 100 + i as u64);
        assert!(s.bullet.spread.x.abs() <= 2500);
        assert!(s.bullet.spread.y.abs() <= 2500);
        assert!(s.bullet.spread.z.abs() <= 2500);
        assert_eq!(s.bullet.direction, Vec3::new(0, 0, 19_500));
        assert_eq!(s.bullet.damage, 7);
        assert_eq!(s.bullet.shot_from, shooter);
    }
    assert_eq!(sys.pool.get(), 108);
}

#[test]
fn single_shot_has_no_spread_and_follows_forward_without_hit() {
    let mut sys = ShootingSystem::new();
    sys.initialize(slots());
    let mut g = blast_gun();
    g.mode = GunMode::Single;
    let forward = Vec3::new(0, 0, 1000);
    let shots = sys.resolve_player_shot(&g, None, &Vec3::new(1, 2, 3), &forward, &Vec3::new(0, 0, 0), 1);
    assert_eq!(shots.len(), 1);
    assert_eq!(shots[0].bullet.spread.x, 0);
    assert_eq!(shots[0].bullet.spread.y, 0);
    assert_eq!(shots[0].bullet.spread.z, 0);
    assert_eq!(shots[0].bullet.direction, forward);
}

#[test]
fn enemy_shot_aims_at_target() {
    let mut sys = ShootingSystem::new();
    sys.initialize(slots());
    let g = blast_gun();
    let shooter = Vec3::new(1000, 0, 0);
    let target = Vec3::new(4000, 0, 4000);
    let shots = sys.resolve_enemy_shot(&g, 1000, &shooter, &target, 9);
    assert_eq!(shots.len(), 8);
    for s in shots.iter() {
        assert_eq!(s.bullet.direction, Vec3::new(3000, 0, 4000));
        assert!(s.bullet.spread.x.abs() <= 3000);
    }
}

#[test]
fn pool_wraps_after_capacity() {
    let mut pool = BulletPool::new();
    pool.initialize(slots());
    let mut seen = Vec::new();
    for _ in 0..POOL_CAPACITY {
        seen.push(pool.get());
    }
    let mut sorted = seen.clone();
    sorted.dedup();
    assert_eq!(sorted.len(), POOL_CAPACITY);
    assert_eq!(pool.get(), seen[0]);
    assert_eq!(pool.get(), seen[1]);
}

#[test]
fn aim_direction_from_muzzle_to_hit() {
    let muzzle = Vec3::new(10, 20, 30);
    let forward = Vec3::new(0, 0, 1000);
    assert_eq!(resolve_aim_direction(Some(Vec3::new(110, 20, 1030)), &muzzle, &forward), Vec3::new(100, 0, 1000));
    assert_eq!(resolve_aim_direction(None, &muzzle, &forward), forward);
}

#[test]
fn sampled_spread_is_random_and_contained() {
    let mut distinct = std::collections::HashSet::new();
    for _ in 0..200 {
        let s = sample_pellet_spread(1001);
        assert!(s.x.abs() <= 500 && s.y.abs() <= 500 && s.z.abs() <= 500);
        distinct.insert(s.x);
    }
    assert!(distinct.len() > 1);
    let s = sample_pellet_spread(0);
    assert_eq!((s.x, s.y, s.z), (0, 0, 0));
}

#[test]
fn bullet_prefab_names() {
    assert_eq!(get_bullet_prefab(GunMode::Burst, true, false), "Burst Bullet");
    assert_eq!(get_bullet_prefab(GunMode::Single, false, true), "Boss Bullet");
    assert_eq!(get_bullet_prefab(GunMode::Blast, false, false), "Enemy Blast Bullet");
}

#[test]
fn initialize_keeps_cursor() {
    let mut pool = BulletPool::new();
    pool.initialize(slots());
    for _ in 0..7 {
        pool.get();
    }
    pool.initialize((0..POOL_CAPACITY as u64).map(|i| 5000 + i).collect());
    assert_eq!(pool.get(), 5007);
}
