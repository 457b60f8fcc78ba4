//! Damage resolution: shield absorption, health loss and directional hit feedback.
use vstd::prelude::*;
use crate::geometry::{cross_y, diff, dot, dot_product, in_world, is_offset, norm_sq, Vec3};
use crate::hitscan::Bullet;

verus! {

/// How long a directional hit marker stays up, in milliseconds.
pub const BLOOD_DURATION: u64 = 2000;

/// How long a dead player lingers before removal, in milliseconds.
pub const DEATH_TRANSITION: u64 = 2000;

/// Hit points of an entity and the feedback state of its last hit.
#[derive(Clone, Copy, Debug, PartialEq, Eq, Structural)]
pub struct Health {
    pub current_health: i64,
    pub total_health: i64,
    /// Set for the frame in which damage was taken.
    pub recently_damaged: bool,
    pub last_damaged_from: Option<Vec3>,
    /// Side of the last directional hit, for the hit marker.
    pub marker: HitMarker,
    pub blood_timer: u64,
    pub start_blood_timer: bool,
}

/// A shield that absorbs all damage while its capacity is positive.
#[derive(Clone, Copy, Debug, PartialEq, Eq, Structural)]
pub struct Barrier {
    pub current_barrier: u64,
}

/// Which directional hit marker a hit raises.
#[derive(Clone, Copy, Debug, PartialEq, Eq, Structural)]
pub enum HitMarker {
    /// The shot came from within 45 degrees of where the player looks.
    Front,
    /// Beyond 45 degrees, with a non-negative vertical cross component.
    Left,
    /// Beyond 45 degrees, with a negative vertical cross component.
    Right,
}

/// The angle between `a` and `b` exceeds 45 degrees; false when either is zero.
pub open spec fn beyond_45(a: Vec3, b: Vec3) -> bool {
    &&& norm_sq(a) > 0
    &&& norm_sq(b) > 0
    &&& (dot(a, b) < 0 || 2 * (dot(a, b) * dot(a, b)) < norm_sq(a) * norm_sq(b))
}

/// Marker for a shot from `to_shooter` (player to shooter) seen by a player
/// looking along `forward`.
pub open spec fn marker_for(forward: Vec3, to_shooter: Vec3) -> HitMarker {
    if !beyond_45(forward, to_shooter) {
        HitMarker::Front
    } else if cross_y(forward, to_shooter) < 0 {
        HitMarker::Right
    } else {
        HitMarker::Left
    }
}

/// The directional marker on `side` is up: the hit came from that side and
/// its timer is running and below its duration.
pub open spec fn marker_shown(h: Health, side: HitMarker) -> bool {
    side != HitMarker::Front && h.blood_timer < BLOOD_DURATION && h.start_blood_timer && h.marker
        == side
}

/// Health after damage: unchanged behind a charged barrier, else reduced by the
/// bullet's damage and marked as recently damaged from the shot's origin.
pub open spec fn damaged(h: Health, barrier: Option<Barrier>, bullet: Bullet) -> Health {
    if barrier is Some && barrier->Some_0.current_barrier > 0 {
        h
    } else {
        Health {
            current_health: (h.current_health - bullet.damage) as i64,
            recently_damaged: true,
            last_damaged_from: Some(bullet.shot_from),
            ..h
        }
    }
}

/// Classifies the direction of a hit for the hit marker.
pub fn hit_marker(forward: &Vec3, to_shooter: &Vec3) -> (r: HitMarker)
    requires
        is_offset(*forward),
        is_offset(*to_shooter),
    ensures
        r == marker_for(*forward, *to_shooter),
{
    let d = dot_product(forward, to_shooter);
    let na = dot_product(forward, forward);
    let nb = dot_product(to_shooter, to_shooter);
    proof {
        let m: int = 2 * crate::geometry::MAX_COORD as int;
        let k: int = 0x3000_0000_0000_0000;
        crate::geometry::lemma_norm_sq_nonneg(*forward);
        crate::geometry::lemma_norm_sq_nonneg(*to_shooter);
        assert(m * m == 0x1000_0000_0000_0000);
        assert(3 * m * m == k);
        assert(2 * (k * k) < 0x7fff_ffff_ffff_ffff_ffff_ffff_ffff_ffff);
        assert(d * d <= k * k) by (nonlinear_arith)
            requires
                -k <= d <= k,
        ;
        assert(na * nb <= k * k) by (nonlinear_arith)
            requires
                0 <= na <= k,
                0 <= nb <= k,
        ;
        assert(d * d >= 0) by (nonlinear_arith);
        assert(na * nb >= 0) by (nonlinear_arith)
            requires
                0 <= na,
                0 <= nb,
        ;
        crate::geometry::lemma_product_bound(forward.z as int, to_shooter.x as int, m);
        crate::geometry::lemma_product_bound(forward.x as int, to_shooter.z as int, m);
    }
    let beyond = na > 0 && nb > 0 && (d < 0 || 2 * (d * d) < na * nb);
    if !beyond {
        HitMarker::Front
    } else {
        let cy = (forward.z as i128) * (to_shooter.x as i128) - (forward.x as i128) * (
        to_shooter.z as i128);
        if cy < 0 {
            HitMarker::Right
        } else {
            HitMarker::Left
        }
    }
}

impl Health {
    pub fn new(total_health: i64) -> (r: Health)
        ensures
            r.current_health == total_health,
            r.total_health == total_health,
            !r.recently_damaged,
            r.last_damaged_from is None,
            r.marker == HitMarker::Front,
            r.blood_timer == 0,
            !r.start_blood_timer,
    {
        Health {
            current_health: total_health,
            total_health,
            recently_damaged: false,
            last_damaged_from: None,
            marker: HitMarker::Front,
            blood_timer: 0,
            start_blood_timer: false,
        }
    }

    /// Applies a bullet's damage unless a charged barrier absorbs it.
    pub fn apply_bullet_damage(&mut self, barrier: Option<Barrier>, bullet: &Bullet)
        requires
            old(self).current_health - bullet.damage >= i64::MIN,
        ensures
            *final(self) == damaged(*old(self), barrier, *bullet),
    {
        let absorbed = match barrier {
            Some(b) => b.current_barrier > 0,
            None => false,
        };
        if !absorbed {
            self.current_health = (self.current_health as i128 - bullet.damage as i128) as i64;
            self.recently_damaged = true;
            self.last_damaged_from = Some(bullet.shot_from);
        }
    }

    /// Records the direction of a hit on a player looking along `forward` from
    /// `position`; a hit from beyond 45 degrees restarts the marker timer.
    pub fn record_hit_direction(&mut self, forward: &Vec3, position: &Vec3, shot_from: &Vec3)
        requires
            is_offset(*forward),
            in_world(*position),
            in_world(*shot_from),
        ensures
            final(self).marker == marker_for(*forward, diff(*shot_from, *position)),
            final(self).marker != HitMarker::Front ==> final(self).blood_timer == 0
                && final(self).start_blood_timer,
            final(self).marker == HitMarker::Front ==> final(self).blood_timer
                == old(self).blood_timer && final(self).start_blood_timer
                == old(self).start_blood_timer,
            final(self).current_health == old(self).current_health,
            final(self).total_health == old(self).total_health,
            final(self).recently_damaged == old(self).recently_damaged,
            final(self).last_damaged_from == old(self).last_damaged_from,
    {
        let to_shooter = shot_from.minus(position);
        self.marker = hit_marker(forward, &to_shooter);
        if self.marker != HitMarker::Front {
            self.blood_timer = 0;
            self.start_blood_timer = true;
        }
    }

    /// Takes `amount` of area damage, which no barrier stops.
    pub fn take_damage(&mut self, amount: u64)
        requires
            old(self).current_health - amount >= i64::MIN,
        ensures
            *final(self) == (Health {
                current_health: (old(self).current_health - amount) as i64,
                ..*old(self)
            }),
    {
        self.current_health = (self.current_health as i128 - amount as i128) as i64;
    }

    /// Ends the frame's damage flag.
    pub fn clear_recently_damaged(&mut self)
        ensures
            *final(self) == (Health { recently_damaged: false, ..*old(self) }),
    {
        self.recently_damaged = false;
    }

    /// Advances the hit-marker timer; the marker goes down once the timer
    /// passes its duration.
    pub fn tick_blood_timer(&mut self, dt: u64)
        ensures
            ({
                let t = if old(self).start_blood_timer {
                    crate::gun::sat_add(old(self).blood_timer, dt)
                } else {
                    old(self).blood_timer
                };
                *final(self) == (Health {
                    blood_timer: t,
                    start_blood_timer: old(self).start_blood_timer && t <= BLOOD_DURATION,
                    ..*old(self)
                })
            }),
    {
        if self.start_blood_timer {
            self.blood_timer = self.blood_timer.saturating_add(dt);
        }
        if self.blood_timer > BLOOD_DURATION {
            self.start_blood_timer = false;
        }
    }

    /// The hit marker on the given side is shown.
    pub fn shows_marker(&self, side: HitMarker) -> (r: bool)
        ensures
            r == marker_shown(*self, side),
    {
        side != HitMarker::Front && self.blood_timer < BLOOD_DURATION && self.start_blood_timer
            && self.marker == side
    }

    pub fn is_alive(&self) -> (r: bool)
        ensures
            r == (self.current_health > 0),
    {
        self.current_health > 0
    }
}

/// Shield absorption: behind a barrier with capacity left, health is unchanged;
/// otherwise it drops by exactly the bullet's damage.
pub proof fn lemma_shield_absorption(h: Health, barrier: Option<Barrier>, bullet: Bullet)
    requires
        h.current_health - bullet.damage >= i64::MIN,
    ensures
        barrier is Some && barrier->Some_0.current_barrier > 0 ==> damaged(h, barrier, bullet) == h,
        !(barrier is Some && barrier->Some_0.current_barrier > 0) ==> damaged(
            h,
            barrier,
            bullet,
        ).current_health == h.current_health - bullet.damage,
{
}

} // verus!
