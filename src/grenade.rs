//! Ordnance lifecycle: charge-up and throw, fuse and arming window, detonation
//! with linear damage falloff, and the teleport alternative.
use vstd::prelude::*;
use crate::geometry::{diff, in_world, norm_sq, squared_distance, Vec3};
use crate::gun::sat_add;

verus! {

/// Height above the grenade at which teleported players land, in millimetres.
pub const TELEPORT_LIFT: i64 = 500;

/// Charge and cooldown state of a thrower. Times in milliseconds.
#[derive(Clone, Copy, Debug, PartialEq, Eq, Structural)]
pub struct Throwable {
    pub active: bool,
    pub cooldown_timer: u64,
    pub grenade_cooldown: u64,
    pub current_charge: u64,
    pub charge_time: u64,
    /// Launch speed, in millimetres per second.
    pub velocity: u64,
    /// Angular damping, in thousandths.
    pub angular_dampening: u64,
    /// Template of the ordnance to spawn.
    pub item: u64,
}

/// The throw inputs of one frame.
#[derive(Clone, Copy, Debug, PartialEq, Eq, Structural, Default)]
pub struct ThrowInput {
    pub right_shoulder: bool,
    pub right_click: bool,
}

/// Whether the throw is being charged this frame: a throw input is held and
/// the cooldown has elapsed.
pub open spec fn charging(t: Throwable, input: ThrowInput, cooldown: u64) -> bool {
    (input.right_shoulder || input.right_click) && cooldown >= t.grenade_cooldown
}

/// One charge frame of a thrower: the thrower afterwards and whether it throws.
pub open spec fn charge_frame(t: Throwable, input: ThrowInput, dt: u64) -> (Throwable, bool) {
    if !t.active {
        (t, false)
    } else {
        let cooldown = sat_add(t.cooldown_timer, dt);
        if charging(t, input, cooldown) {
            let charge = sat_add(t.current_charge, dt);
            if charge >= t.charge_time {
                (Throwable { current_charge: 0, cooldown_timer: 0, ..t }, true)
            } else {
                (Throwable { current_charge: charge, cooldown_timer: cooldown, ..t }, false)
            }
        } else if t.current_charge >= t.charge_time {
            (Throwable { current_charge: 0, cooldown_timer: cooldown, ..t }, false)
        } else {
            (Throwable { cooldown_timer: cooldown, ..t }, false)
        }
    }
}

impl Throwable {
    /// Runs one charge frame; returns whether the ordnance is thrown now.
    pub fn charge_step(&mut self, input: &ThrowInput, dt: u64) -> (r: bool)
        ensures
            (*final(self), r) == charge_frame(*old(self), *input, dt),
    {
        if !self.active {
            return false;
        }
        self.cooldown_timer = self.cooldown_timer.saturating_add(dt);
        if (input.right_shoulder || input.right_click) && self.cooldown_timer
            >= self.grenade_cooldown {
            self.current_charge = self.current_charge.saturating_add(dt);
            if self.current_charge >= self.charge_time {
                self.current_charge = 0;
                self.cooldown_timer = 0;
                return true;
            }
        } else if self.current_charge >= self.charge_time {
            self.current_charge = 0;
        }
        false
    }
}

/// A grenade in flight. Times in milliseconds, lengths in millimetres.
#[derive(Clone, Copy, Debug, PartialEq, Eq, Structural)]
pub struct Grenade {
    pub current_time: u64,
    pub max_time_before_detonation: u64,
    pub minimum_time_for_teleport: u64,
    pub explosion_radius: u64,
    pub damage: u64,
    pub has_teleport: bool,
    pub is_teleport_ready: bool,
    /// Template of the noise effect spawned on detonation.
    pub noise: u64,
    /// Template of the explosion effect spawned on detonation.
    pub explosion_prefab: u64,
}

/// How a grenade's frame ended.
#[derive(Clone, Copy, Debug, PartialEq, Eq, Structural)]
pub enum GrenadeState {
    Flying,
    Detonated,
    Teleported,
}

/// One flight frame: the fuse advances while below the deadline, and a grenade
/// already at its deadline detonates; a teleport request after the arming time
/// overrides both.
pub open spec fn flight_frame(g: Grenade, dt: u64, throw_pressed: bool) -> (Grenade, GrenadeState) {
    let (g1, s1) = if g.current_time < g.max_time_before_detonation {
        (Grenade { current_time: sat_add(g.current_time, dt), ..g }, GrenadeState::Flying)
    } else {
        (g, GrenadeState::Detonated)
    };
    if g1.has_teleport && g1.current_time > g1.minimum_time_for_teleport && throw_pressed {
        (Grenade { is_teleport_ready: true, ..g1 }, GrenadeState::Teleported)
    } else {
        (g1, s1)
    }
}

impl Grenade {
    /// Runs one flight frame; `throw_pressed` is the throw input of this frame.
    pub fn flight_step(&mut self, dt: u64, throw_pressed: bool) -> (r: GrenadeState)
        ensures
            (*final(self), r) == flight_frame(*old(self), dt, throw_pressed),
    {
        let mut state = GrenadeState::Flying;
        if self.current_time < self.max_time_before_detonation {
            self.current_time = self.current_time.saturating_add(dt);
        } else {
            state = GrenadeState::Detonated;
        }
        if self.has_teleport && self.current_time > self.minimum_time_for_teleport
            && throw_pressed {
            self.is_teleport_ready = true;
            state = GrenadeState::Teleported;
        }
        state
    }

    /// Fuse light of a flying grenade, as (intensity, radius) in thousandths:
    /// both grow with the time in flight.
    pub fn fuse_light(&self) -> (r: (u64, u64))
        ensures
            r.0 == sat_add(self.current_time, sat_add(self.current_time, sat_add(
                self.current_time,
                self.current_time,
            ))),
            r.1 == self.current_time,
    {
        let t = self.current_time;
        (t.saturating_add(t.saturating_add(t.saturating_add(t))), t)
    }
}

/// Where players land when a grenade at `position` teleports them.
pub fn teleport_destination(position: &Vec3) -> (r: Vec3)
    requires
        in_world(*position),
    ensures
        r == (Vec3 { y: (position.y + TELEPORT_LIFT) as i64, ..*position }),
{
    position.raised(TELEPORT_LIFT)
}

/// `s` is the integer square root of `n`, rounded down.
pub open spec fn is_floor_sqrt(n: int, s: int) -> bool {
    0 <= s && s * s <= n < (s + 1) * (s + 1)
}

/// Integer square root, rounded down.
pub fn floor_sqrt(n: u64) -> (r: u64)
    ensures
        is_floor_sqrt(n as int, r as int),
{
    let mut lo: u64 = 0;
    let mut hi: u64 = 0x1_0000_0000;
    // lo * lo <= n < hi * hi
    assert(hi * hi > u64::MAX) by (nonlinear_arith)
        requires
            hi == 0x1_0000_0000u64,
    ;
    while hi - lo > 1
        invariant
            lo < hi <= 0x1_0000_0000,
            lo * lo <= n,
            n < hi * hi,
        decreases hi - lo,
    {
        let mid = lo + (hi - lo) / 2;
        assert(mid * mid <= 0x1_0000_0000 * 0x1_0000_0000) by (nonlinear_arith)
            requires
                mid < 0x1_0000_0000,
        ;
        if (mid as u128) * (mid as u128) <= n as u128 {
            lo = mid;
        } else {
            hi = mid;
        }
    }
    lo
}

/// Damage at distance `d` from a grenade of radius `radius` and base damage
/// `damage`: `damage * (1 - d / radius)` rounded down, and nothing at or beyond
/// the radius.
pub open spec fn falloff(damage: int, d: int, radius: int) -> int {
    if d >= radius {
        0
    } else {
        damage * (radius - d) / radius
    }
}

/// Linear damage falloff with distance.
pub fn falloff_damage(damage: u64, distance: u64, radius: u64) -> (r: u64)
    ensures
        r as int == falloff(damage as int, distance as int, radius as int),
{
    if distance >= radius {
        return 0;
    }
    assert((damage as int) * ((radius - distance) as int) <= u64::MAX * u64::MAX) by (nonlinear_arith)
        requires
            damage <= u64::MAX,
            0 <= radius - distance <= u64::MAX,
    ;
    let num = (damage as u128) * ((radius - distance) as u128);
    assert(num <= damage * radius) by (nonlinear_arith)
        requires
            num == damage * (radius - distance),
            distance < radius,
            damage >= 0,
    ;
    assert(damage * radius <= u64::MAX * u64::MAX) by (nonlinear_arith)
        requires
            damage <= u64::MAX,
            radius <= u64::MAX,
    ;
    assert(num / (radius as u128) <= damage) by (nonlinear_arith)
        requires
            num <= damage * radius,
            radius > 0,
    ;
    (num / (radius as u128)) as u64
}

/// What a detonation does to one target.
#[derive(Clone, Copy, Debug, PartialEq, Eq, Structural)]
pub struct ExplosionHit {
    /// Distance from the grenade, rounded down to the millimetre.
    pub distance: u64,
    pub damage: u64,
}

impl Grenade {
    /// Damage that this grenade's detonation at `center` deals to a target at `target`.
    pub fn explosion_hit(&self, center: &Vec3, target: &Vec3) -> (r: ExplosionHit)
        requires
            in_world(*center),
            in_world(*target),
        ensures
            is_floor_sqrt(norm_sq(diff(*target, *center)), r.distance as int),
            r.damage as int == falloff(
                self.damage as int,
                r.distance as int,
                self.explosion_radius as int,
            ),
    {
        let sq = squared_distance(target, center);
        let distance = floor_sqrt(sq);
        let damage = falloff_damage(self.damage, distance, self.explosion_radius);
        ExplosionHit { distance, damage }
    }
}

/// Runs grenades: holds the clock of the latest explosion effect.
#[derive(Clone, Copy, Debug, PartialEq, Eq, Structural)]
pub struct GrenadeSystem {
    /// Time since the latest detonation, in milliseconds.
    pub timer: u64,
}

impl GrenadeSystem {
    pub fn new() -> (r: GrenadeSystem)
        ensures
            r.timer == 0,
    {
        GrenadeSystem { timer: 0 }
    }

    /// Detonates `grenade` at `center`: the damage dealt to each target inside
    /// the blast sphere, in order, and the explosion clock restarted.
    pub fn handle_detonation(&mut self, grenade: &Grenade, center: &Vec3, targets: &Vec<Vec3>) -> (r:
        Vec<ExplosionHit>)
        requires
            in_world(*center),
            forall|i: int| 0 <= i < targets@.len() ==> in_world(#[trigger] targets@[i]),
        ensures
            final(self).timer == 0,
            r@.len() == targets@.len(),
            forall|i: int|
                0 <= i < r@.len() ==> {
                    &&& is_floor_sqrt(norm_sq(diff(targets@[i], *center)), (#[trigger] r@[i]).distance as int)
                    &&& r@[i].damage as int == falloff(
                        grenade.damage as int,
                        r@[i].distance as int,
                        grenade.explosion_radius as int,
                    )
                },
    {
        let mut hits: Vec<ExplosionHit> = Vec::new();
        let mut k: usize = 0;
        while k < targets.len()
            invariant
                0 <= k <= targets@.len(),
                in_world(*center),
                forall|i: int| 0 <= i < targets@.len() ==> in_world(#[trigger] targets@[i]),
                hits@.len() == k,
                forall|i: int|
                    0 <= i < hits@.len() ==> {
                        &&& is_floor_sqrt(norm_sq(diff(targets@[i], *center)), (#[trigger] hits@[i]).distance as int)
                        &&& hits@[i].damage as int == falloff(
                            grenade.damage as int,
                            hits@[i].distance as int,
                            grenade.explosion_radius as int,
                        )
                    },
            decreases targets@.len() - k,
        {
            let hit = grenade.explosion_hit(center, &targets[k]);
            hits.push(hit);
            k = k + 1;
        }
        self.timer = 0;
        hits
    }

    /// Advances the explosion clock.
    pub fn tick(&mut self, dt: u64)
        ensures
            final(self).timer == sat_add(old(self).timer, dt),
    {
        self.timer = self.timer.saturating_add(dt);
    }
}

/// Falloff correctness: the damage is `D * max(0, 1 - d/r)` rounded down: the
/// full base damage at the centre, nothing at or beyond the radius, and in
/// between never more than the base damage.
pub proof fn lemma_falloff(damage: nat, d: nat, radius: nat)
    ensures
        d >= radius ==> falloff(damage as int, d as int, radius as int) == 0,
        d == 0 && radius > 0 ==> falloff(damage as int, d as int, radius as int) == damage,
        d < radius ==> {
            let f = falloff(damage as int, d as int, radius as int);
            &&& f * radius <= damage * (radius - d)
            &&& damage * (radius - d) < (f + 1) * radius
            &&& 0 <= f <= damage
        },
{
    if d < radius {
        let f = falloff(damage as int, d as int, radius as int);
        let n = damage * (radius - d);
        vstd::arithmetic::div_mod::lemma_fundamental_div_mod(n as int, radius as int);
        vstd::arithmetic::div_mod::lemma_mod_pos_bound(n as int, radius as int);
        assert(f * radius <= n && n < (f + 1) * radius) by (nonlinear_arith)
            requires
                n == radius * f + n % (radius as int),
                0 <= n % (radius as int) < radius,
        ;
        assert(0 <= f) by (nonlinear_arith)
            requires
                f == n / (radius as int),
                n >= 0,
                radius > 0,
        ;
        assert(n <= damage * radius) by (nonlinear_arith)
            requires
                n == damage * (radius - d),
        ;
        assert(f <= damage) by (nonlinear_arith)
            requires
                f == n / (radius as int),
                n <= damage * radius,
                radius > 0,
        ;
        if d == 0 {
            vstd::arithmetic::div_mod::lemma_div_multiples_vanish(damage as int, radius as int);
        }
    }
}

} // verus!
