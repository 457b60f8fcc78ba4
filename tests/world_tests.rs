use combat::components::{CropType, Inventory, Item, Quantity, Stage};
use combat::geometry::Vec3;
use combat::grenade::{Grenade, Throwable};
use combat::gun::GunMode;
use combat::targeting::{has_line_of_sight, select_nearest_visible, sight_rays, Candidate};
use combat::ui::UIGunSystem;

fn c(x: i64, visible: bool) -> Candidate {
    Candidate { position: Vec3::new(x, 0, 0), visible }
}

#[test]
fn nearest_visible_candidate_first_seen_on_ties() {
    let me = Vec3::new(0, 0, 0);
    assert_eq!(select_nearest_visible(&me, &vec![c(10, true), c(5, false), c(7, true), c(-7, true)]), Some(2));
    assert_eq!(select_nearest_visible(&me, &vec![c(5, false)]), None);
    assert_eq!(select_nearest_visible(&me, &vec![]), None);
}

#[test]
fn sight_needs_a_ray_hitting_the_target() {
    assert!(has_line_of_sight(&vec![None, Some(3), Some(7)], 7));
    assert!(!has_line_of_sight(&vec![None, Some(3), None, None], 7));
    let rays = sight_rays(&Vec3::new(0, 0, 0), &Vec3::new(10, 100, 0));
    assert_eq!(rays.len(), 4);
    assert_eq!(rays[0].start, Vec3::new(0, 750, 0));
    assert_eq!(rays[0].finish, Vec3::new(10, 350, 0));
    assert_eq!(rays[3].finish, Vec3::new(10, 1100, 0));
}

#[test]
fn quantities() {
    let mut q = Quantity::default();
    assert!(!q.can_use());
    q.increase_by(3);
    assert_eq!(q, Quantity::Finite(3));
    q.decrement_by(5);
    assert_eq!(q, Quantity::Finite(3));
    q.decrement_by(1);
    assert_eq!(q, Quantity::Finite(2));
    q.decrement_by(2);
    assert_eq!(q, Quantity::Empty);
    let mut inf = Quantity::Infinite;
    inf.decrement_by(100);
    assert!(inf.can_use());
    assert!(!Quantity::Finite(0).can_use());
}

#[test]
fn inventory_awards_known_items_only() {
    let pumpkin = Item::Crop(CropType::Pumpkin);
    let seed = Item::Seed(CropType::Pumpkin);
    let mut inv = Inventory { items: vec![(pumpkin, Quantity::Empty)] };
    assert!(!inv.can_use(&pumpkin));
    inv.award(pumpkin, 4);
    assert!(inv.can_use(&pumpkin));
    assert_eq!(inv.items, vec![(pumpkin, Quantity::Finite(4))]);
    inv.award(seed, 4);
    assert!(!inv.can_use(&seed));
    assert_eq!(inv.items.len(), 1);
}

#[test]
fn crop_stages() {
    assert_eq!(Stage::Seeds.get_next_stage(), Stage::Seedling);
    assert_eq!(Stage::Flowering.get_next_stage(), Stage::Mature);
    assert_eq!(Stage::Mature.get_next_stage(), Stage::Mature);
    assert_eq!(Stage::Seedling.get_prefab(), "Seedling");
    assert_eq!(CropType::Pumpkin.get_prefab(), "Prefab::Pumpkin");
}

#[test]
fn hud_ammo_and_grenade_bar() {
    let ui = UIGunSystem::new();
    assert_eq!(ui.ammo_opacity(GunMode::Burst, GunMode::Burst, true), 500);
    assert_eq!(ui.ammo_opacity(GunMode::Burst, GunMode::Single, true), 0);
    assert_eq!(ui.ammo_opacity(GunMode::Burst, GunMode::Single, false), 300);
    let t = Throwable {
        active: true,
        cooldown_timer: 1500,
        grenade_cooldown: 2000,
        current_charge: 0,
        charge_time: 300,
        velocity: 1,
        angular_dampening: 1,
        item: 1,
    };
    let g = Grenade {
        current_time: 0,
        max_time_before_detonation: 3000,
        minimum_time_for_teleport: 1000,
        explosion_radius: 1,
        damage: 1,
        has_teleport: true,
        is_teleport_ready: false,
        noise: 0,
        explosion_prefab: 0,
    };
    let bar = ui.grenade_bar(&t, &g).unwrap();
    assert_eq!(bar.fill, 750);
    assert!(bar.teleport_shown);
    let bar = ui.grenade_bar(&Throwable { cooldown_timer: 5000, ..t }, &g).unwrap();
    assert_eq!(bar.fill, 1000);
    assert!(!bar.teleport_shown);
    assert!(ui.grenade_bar(&Throwable { active: false, ..t }, &g).is_none());
}
