//! The shooting system: owns the projectile pool and turns accepted shots into
//! loaded pellets.
use vstd::prelude::*;
use crate::damage::{damaged, marker_for, Barrier, Health, HitMarker};
use crate::geometry::{diff, in_world, is_offset, Vec3};
use crate::gun::{enemy_frame, FireEvent, Gun, GunMode};
use crate::hitscan::{
    enemy_fire_event, fire_pellets, resolve_aim_direction, spread_contained, Bullet, PelletShot,
};
use crate::pool::{cursor_after, BulletPool};

verus! {

/// Owns the projectile pool of all shooters.
#[derive(Debug)]
pub struct ShootingSystem {
    pub pool: BulletPool,
}

/// Bullet template name for a mode and a shooter kind.
pub open spec fn bullet_prefab_name(mode: GunMode, is_player: bool, is_boss: bool) -> Seq<char> {
    if is_player {
        match mode {
            GunMode::Single => "Single Bullet"@,
            GunMode::Burst => "Burst Bullet"@,
            GunMode::Blast => "Blast Bullet"@,
        }
    } else if is_boss {
        "Boss Bullet"@
    } else {
        "Enemy Blast Bullet"@
    }
}

/// Bullet template for a mode: the player's per mode, one for bosses and one
/// for other enemies.
pub fn get_bullet_prefab(mode: GunMode, is_player: bool, is_boss: bool) -> (r: &'static str)
    ensures
        r@ == bullet_prefab_name(mode, is_player, is_boss),
{
    if is_player {
        match mode {
            GunMode::Single => "Single Bullet",
            GunMode::Burst => "Burst Bullet",
            GunMode::Blast => "Blast Bullet",
        }
    } else if is_boss {
        "Boss Bullet"
    } else {
        "Enemy Blast Bullet"
    }
}

/// Where a hit player stands and looks.
#[derive(Clone, Copy, Debug, PartialEq, Eq, Structural)]
pub struct PlayerView {
    pub position: Vec3,
    pub forward: Vec3,
}

impl ShootingSystem {
    /// A system whose pool is still to be filled.
    pub fn new() -> (r: ShootingSystem)
        ensures
            r.pool.slots().len() == 0,
            r.pool.cursor() == 0,
    {
        ShootingSystem { pool: BulletPool::new() }
    }

    /// Fills the pool with the pre-created projectile slots.
    pub fn initialize(&mut self, slots: Vec<u64>)
        requires
            slots@.len() == crate::pool::POOL_CAPACITY as int,
            slots@.no_duplicates(),
            0 <= old(self).pool.cursor() < crate::pool::POOL_CAPACITY as int,
        ensures
            final(self).pool.is_ready(),
            final(self).pool.slots() == slots@,
            final(self).pool.cursor() == old(self).pool.cursor(),
    {
        self.pool.initialize(slots);
    }

    /// Resolves a shot that the player's gun accepted: aims from the muzzle at
    /// what the camera ray hit (or along the camera when it hit nothing) and
    /// loads one pooled slot per pellet.
    pub fn resolve_player_shot(
        &mut self,
        gun: &Gun,
        hit: Option<Vec3>,
        muzzle: &Vec3,
        forward: &Vec3,
        shooter: &Vec3,
        speed: u64,
    ) -> (r: Vec<PelletShot>)
        requires
            old(self).pool.is_ready(),
            in_world(*muzzle),
            hit is Some ==> in_world(hit->Some_0),
        ensures
            final(self).pool.is_ready(),
            final(self).pool.slots() == old(self).pool.slots(),
            final(self).pool.cursor() == cursor_after(
                old(self).pool.cursor(),
                if gun.mode == GunMode::Blast { gun.bullet_amount as int } else { 1 },
            ),
            r@.len() == if gun.mode == GunMode::Blast { gun.bullet_amount as int } else { 1 },
            forall|i: int|
                0 <= i < r@.len() ==> {
                    &&& (#[trigger] r@[i]).slot == old(self).pool.slots()[cursor_after(
                        old(self).pool.cursor(),
                        i,
                    )]
                    &&& spread_contained(
                        r@[i].bullet.spread,
                        if gun.mode == GunMode::Blast { gun.spread_angle as u64 } else { 0 },
                    )
                    &&& r@[i].bullet.direction == (if hit is Some {
                        diff(hit->Some_0, *muzzle)
                    } else {
                        *forward
                    })
                    &&& r@[i].bullet.shot_from == *shooter
                    &&& r@[i].bullet.damage == gun.damage
                    &&& r@[i].bullet.speed == speed
                },
    {
        let event = gun.fire_event();
        let direction = resolve_aim_direction(hit, muzzle, forward);
        fire_pellets(&mut self.pool, &event, &direction, speed, gun.damage, shooter)
    }

    /// Resolves a shot that an enemy's gun accepted: aims from the shooter at
    /// the selected target, with the shooter's aim inaccuracy added to the
    /// spread, and loads one pooled slot per pellet.
    pub fn resolve_enemy_shot(
        &mut self,
        gun: &Gun,
        aim_inaccuracy: u32,
        shooter: &Vec3,
        target: &Vec3,
        speed: u64,
    ) -> (r: Vec<PelletShot>)
        requires
            old(self).pool.is_ready(),
            in_world(*shooter),
            in_world(*target),
        ensures
            final(self).pool.is_ready(),
            final(self).pool.slots() == old(self).pool.slots(),
            ({
                let event = FireEvent {
                    mode: gun.mode,
                    pellets: if gun.mode == GunMode::Blast { gun.bullet_amount } else { 1 },
                    spread_angle: if gun.mode == GunMode::Blast {
                        (gun.spread_angle + aim_inaccuracy) as u64
                    } else {
                        aim_inaccuracy as u64
                    },
                };
                &&& final(self).pool.cursor() == cursor_after(old(self).pool.cursor(), event.pellets as int)
                &&& r@.len() == event.pellets
                &&& forall|i: int|
                    0 <= i < r@.len() ==> {
                        &&& (#[trigger] r@[i]).slot == old(self).pool.slots()[cursor_after(
                            old(self).pool.cursor(),
                            i,
                        )]
                        &&& spread_contained(r@[i].bullet.spread, event.spread_angle)
                        &&& r@[i].bullet.direction == diff(*target, *shooter)
                        &&& r@[i].bullet.shot_from == *shooter
                        &&& r@[i].bullet.damage == gun.damage
                        &&& r@[i].bullet.speed == speed
                    }
            }),
    {
        let event = enemy_fire_event(gun, aim_inaccuracy);
        let direction = target.minus(shooter);
        fire_pellets(&mut self.pool, &event, &direction, speed, gun.damage, shooter)
    }

    /// Resolves a bullet's hit on an entity with health: a hit player records
    /// the direction of the shot for its hit marker, then the damage goes to a
    /// charged barrier or to health.
    pub fn handle_damage(
        &self,
        health: &mut Health,
        barrier: Option<Barrier>,
        bullet: &Bullet,
        view: Option<PlayerView>,
    )
        requires
            old(health).current_health - bullet.damage >= i64::MIN,
            in_world(bullet.shot_from),
            view is Some ==> in_world(view->Some_0.position) && is_offset(view->Some_0.forward),
        ensures
            ({
                let marked = if view is Some {
                    let v = view->Some_0;
                    let m = marker_for(v.forward, diff(bullet.shot_from, v.position));
                    if m != HitMarker::Front {
                        Health { marker: m, blood_timer: 0, start_blood_timer: true, ..*old(health) }
                    } else {
                        Health { marker: m, ..*old(health) }
                    }
                } else {
                    *old(health)
                };
                *final(health) == damaged(marked, barrier, *bullet)
            }),
    {
        if let Some(v) = view {
            health.record_hit_direction(&v.forward, &v.position, &bullet.shot_from);
        }
        health.apply_bullet_damage(barrier, bullet);
    }

    /// One frame of the enemies' guns. With no player alive nothing happens:
    /// no gun advances its cooldown or spends ammo. Otherwise each gun runs
    /// its frame, `holder_alive[i]` saying whether gun `i`'s holder has health
    /// left; the result says, per gun, whether a shot left.
    pub fn enemy_turn(
        &self,
        guns: &mut Vec<Gun>,
        holder_alive: &Vec<bool>,
        alive_players: usize,
        dt: u64,
    ) -> (r: Vec<bool>)
        requires
            holder_alive@.len() == old(guns)@.len(),
            forall|i: int| 0 <= i < old(guns)@.len() ==> (#[trigger] old(guns)@[i]).wf(),
        ensures
            final(guns)@.len() == old(guns)@.len(),
            r@.len() == old(guns)@.len(),
            alive_players == 0 ==> final(guns)@ == old(guns)@ && forall|i: int|
                0 <= i < r@.len() ==> !(#[trigger] r@[i]),
            alive_players > 0 ==> forall|i: int|
                0 <= i < r@.len() ==> (final(guns)@[i], #[trigger] r@[i]) == enemy_frame(
                    old(guns)@[i],
                    holder_alive@[i],
                    dt,
                ),
            forall|i: int| 0 <= i < final(guns)@.len() ==> (#[trigger] final(guns)@[i]).wf(),
    {
        let mut fired: Vec<bool> = Vec::new();
        let mut k: usize = 0;
        while k < guns.len()
            invariant
                0 <= k <= guns@.len(),
                guns@.len() == old(guns)@.len(),
                holder_alive@.len() == old(guns)@.len(),
                fired@.len() == k,
                forall|i: int| 0 <= i < old(guns)@.len() ==> (#[trigger] old(guns)@[i]).wf(),
                forall|i: int| k <= i < guns@.len() ==> #[trigger] guns@[i] == old(guns)@[i],
                forall|i: int| 0 <= i < guns@.len() ==> (#[trigger] guns@[i]).wf(),
                alive_players == 0 ==> guns@ == old(guns)@ && forall|i: int|
                    0 <= i < k ==> !(#[trigger] fired@[i]),
                alive_players > 0 ==> forall|i: int|
                    0 <= i < k ==> (guns@[i], #[trigger] fired@[i]) == enemy_frame(
                        old(guns)@[i],
                        holder_alive@[i],
                        dt,
                    ),
            decreases guns@.len() - k,
        {
            if alive_players == 0 {
                fired.push(false);
            } else {
                let mut g = guns[k];
                let shot = g.enemy_step(holder_alive[k], dt);
                guns.set(k, g);
                fired.push(shot);
            }
            k = k + 1;
        }
        fired
    }
}

} // verus!
