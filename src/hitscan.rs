//! Hitscan resolution: aim correction, pellet spread sampling and slot claims.
use vstd::prelude::*;
use rand::Rng;
use crate::geometry::{diff, in_world, Vec3};
use crate::gun::{FireEvent, Gun, GunMode};
use crate::pool::{cursor_after, lemma_cursor_step, BulletPool};

verus! {

/// Per-axis rotation applied to one pellet, in millidegrees.
#[derive(Clone, Copy, Debug, PartialEq, Eq, Structural)]
pub struct PelletSpread {
    pub x: i64,
    pub y: i64,
    pub z: i64,
}

/// Every axis of the rotation lies within half the spread angle.
pub open spec fn spread_contained(s: PelletSpread, spread_angle: u64) -> bool {
    let half = spread_angle as int / 2;
    &&& -half <= s.x <= half
    &&& -half <= s.y <= half
    &&& -half <= s.z <= half
}

/// One projectile in flight.
#[derive(Clone, Copy, Debug, PartialEq, Eq, Structural)]
pub struct Bullet {
    /// Travel speed, in millimetres per second.
    pub speed: u64,
    /// Resolved aim direction before the pellet's own rotation.
    pub direction: Vec3,
    /// The pellet's rotation away from `direction`.
    pub spread: PelletSpread,
    /// Where the shooter stood when the shot left.
    pub shot_from: Vec3,
    pub damage: u64,
}

impl Bullet {
    /// Distance covered in `dt` milliseconds, in millimetres, rounded down.
    pub fn travel_distance(&self, dt: u64) -> (r: u64)
        requires
            self.speed * dt <= u64::MAX,
        ensures
            r == self.speed * dt / 1000,
    {
        self.speed * dt / 1000
    }
}

/// A pooled slot claimed for one pellet and the bullet that it now carries.
#[derive(Clone, Copy, Debug, PartialEq, Eq, Structural)]
pub struct PelletShot {
    pub slot: u64,
    pub bullet: Bullet,
}

/// Relies on rand's `thread_rng` and `Rng::gen_range`: a value of the
/// inclusive range, which must not be empty (`gen_range` panics on an empty range).
#[verifier::external_body]
fn random_in_range(low: i64, high: i64) -> (r: i64)
    requires
        low <= high,
    ensures
        low <= r <= high,
{
    rand::thread_rng().gen_range(low..=high)
}

/// Draws one pellet's rotation, independently on each axis, within half the
/// spread angle.
pub fn sample_pellet_spread(spread_angle: u64) -> (r: PelletSpread)
    ensures
        spread_contained(r, spread_angle),
{
    let half = (spread_angle / 2) as i64;
    let x = random_in_range(-half, half);
    let y = random_in_range(-half, half);
    let z = random_in_range(-half, half);
    PelletSpread { x, y, z }
}

/// Aim direction for the pellets: from the muzzle to the ray's hit point when
/// the ray hit something, else the shooter's forward direction.
pub fn resolve_aim_direction(hit: Option<Vec3>, muzzle: &Vec3, forward: &Vec3) -> (r: Vec3)
    requires
        in_world(*muzzle),
        hit is Some ==> in_world(hit->Some_0),
    ensures
        hit is Some ==> r == diff(hit->Some_0, *muzzle),
        hit is None ==> r == *forward,
{
    match hit {
        Some(point) => point.minus(muzzle),
        None => *forward,
    }
}

/// Resolves one firing event: for each pellet, draws its rotation, claims the
/// next pooled slot and loads it with a bullet aimed along `direction`.
pub fn fire_pellets(
    pool: &mut BulletPool,
    event: &FireEvent,
    direction: &Vec3,
    speed: u64,
    damage: u64,
    shot_from: &Vec3,
) -> (r: Vec<PelletShot>)
    requires
        old(pool).is_ready(),
    ensures
        final(pool).is_ready(),
        final(pool).slots() == old(pool).slots(),
        final(pool).cursor() == cursor_after(old(pool).cursor(), event.pellets as int),
        r@.len() == event.pellets,
        forall|i: int|
            0 <= i < r@.len() ==> {
                &&& (#[trigger] r@[i]).slot == old(pool).slots()[cursor_after(
                    old(pool).cursor(),
                    i,
                )]
                &&& spread_contained(r@[i].bullet.spread, event.spread_angle)
                &&& r@[i].bullet.direction == *direction
                &&& r@[i].bullet.shot_from == *shot_from
                &&& r@[i].bullet.damage == damage
                &&& r@[i].bullet.speed == speed
            },
{
    let mut shots: Vec<PelletShot> = Vec::new();
    let mut i: u32 = 0;
    proof {
        vstd::arithmetic::div_mod::lemma_small_mod(pool.cursor() as nat, 2000);
    }
    while i < event.pellets
        invariant
            0 <= i <= event.pellets,
            pool.is_ready(),
            pool.slots() == old(pool).slots(),
            0 <= old(pool).cursor() < 2000,
            pool.cursor() == cursor_after(old(pool).cursor(), i as int),
            shots@.len() == i,
            forall|k: int|
                0 <= k < shots@.len() ==> {
                    &&& (#[trigger] shots@[k]).slot == old(pool).slots()[cursor_after(
                        old(pool).cursor(),
                        k,
                    )]
                    &&& spread_contained(shots@[k].bullet.spread, event.spread_angle)
                    &&& shots@[k].bullet.direction == *direction
                    &&& shots@[k].bullet.shot_from == *shot_from
                    &&& shots@[k].bullet.damage == damage
                    &&& shots@[k].bullet.speed == speed
                },
        decreases event.pellets - i,
    {
        let spread = sample_pellet_spread(event.spread_angle);
        let slot = pool.get();
        proof {
            lemma_cursor_step(old(pool).cursor(), i as int);
        }
        let bullet = Bullet { speed, direction: *direction, spread, shot_from: *shot_from, damage };
        shots.push(PelletShot { slot, bullet });
        i = i + 1;
    }
    shots
}

/// Shot pattern of an enemy's firing event: its gun's pattern with the
/// shooter's aim inaccuracy added to the spread angle.
pub fn enemy_fire_event(gun: &Gun, aim_inaccuracy: u32) -> (r: FireEvent)
    ensures
        r.mode == gun.mode,
        gun.mode == GunMode::Blast ==> r.pellets == gun.bullet_amount && r.spread_angle
            == gun.spread_angle + aim_inaccuracy,
        gun.mode != GunMode::Blast ==> r.pellets == 1 && r.spread_angle == aim_inaccuracy,
{
    let event = gun.fire_event();
    FireEvent { spread_angle: event.spread_angle + aim_inaccuracy as u64, ..event }
}

} // verus!
