//! Display rules of the combat HUD: ammo panels, the grenade bar and the health
//! readout. Opacities and fractions are in thousandths.
use vstd::prelude::*;
use crate::damage::{marker_shown, Health, HitMarker};
use crate::grenade::{Grenade, Throwable};
use crate::gun::GunMode;

verus! {

/// The set of HUD components that the game registers.
#[derive(Clone, Copy, Debug, PartialEq, Eq, Structural)]
pub struct UiComponents;

#[derive(Clone, Copy, Debug, PartialEq, Eq, Structural)]
pub struct StartInstructions {}

#[derive(Clone, Copy, Debug, PartialEq, Eq, Structural)]
pub struct LoadingIndicator {}

#[derive(Clone, Copy, Debug, PartialEq, Eq, Structural)]
pub struct InventoryDisplay {}

/// Drives the ammo panels and the grenade bar.
#[derive(Clone, Copy, Debug, PartialEq, Eq, Structural)]
pub struct UIGunSystem {
    pub first_run: bool,
}

/// State of the grenade bar.
#[derive(Clone, Copy, Debug, PartialEq, Eq, Structural)]
pub struct GrenadeBar {
    /// Fill of the cooldown bar, in thousandths.
    pub fill: u64,
    /// The teleport variant of the bar is the one shown.
    pub teleport_shown: bool,
}

/// Fill of the cooldown bar: elapsed cooldown over the full cooldown, capped at one.
pub open spec fn bar_fill(t: Throwable) -> int {
    if t.grenade_cooldown == 0 || t.cooldown_timer >= t.grenade_cooldown {
        1000
    } else {
        t.cooldown_timer * 1000 / t.grenade_cooldown as int
    }
}

impl UIGunSystem {
    pub fn new() -> (r: UIGunSystem)
        ensures
            r.first_run,
    {
        UIGunSystem { first_run: true }
    }

    /// Opacity of a mode's panel sprite: the highlight sprite shows only for
    /// the active mode, the plain one only for the others.
    pub fn ammo_opacity(&self, active: GunMode, panel: GunMode, is_active_weapon: bool) -> (r: u64)
        ensures
            r == (if is_active_weapon {
                if active == panel { 500u64 } else { 0u64 }
            } else {
                if active == panel { 0u64 } else { 300u64 }
            }),
    {
        if is_active_weapon {
            if active == panel { 500 } else { 0 }
        } else {
            if active == panel { 0 } else { 300 }
        }
    }

    /// Grenade bar of the player's thrower; `None` while throwing is disabled.
    /// The teleport bar is shown while the cooldown timer is below the
    /// grenade's fuse and past its arming time.
    pub fn grenade_bar(&self, thrower: &Throwable, grenade: &Grenade) -> (r: Option<GrenadeBar>)
        ensures
            !thrower.active ==> r is None,
            thrower.active ==> r == Some(
                GrenadeBar {
                    fill: bar_fill(*thrower) as u64,
                    teleport_shown: thrower.cooldown_timer < grenade.max_time_before_detonation
                        && grenade.has_teleport && thrower.cooldown_timer
                        > grenade.minimum_time_for_teleport,
                },
            ),
    {
        if !thrower.active {
            return None;
        }
        let fill = if thrower.grenade_cooldown == 0 || thrower.cooldown_timer
            >= thrower.grenade_cooldown {
            1000
        } else {
            assert(thrower.cooldown_timer * 1000 / (thrower.grenade_cooldown as int) < 1000) by (nonlinear_arith)
                requires
                    thrower.cooldown_timer < thrower.grenade_cooldown,
            ;
            ((thrower.cooldown_timer as u128 * 1000) / thrower.grenade_cooldown as u128) as u64
        };
        let flying = thrower.cooldown_timer < grenade.max_time_before_detonation;
        let teleportable = grenade.has_teleport && thrower.cooldown_timer
            > grenade.minimum_time_for_teleport;
        Some(GrenadeBar { fill, teleport_shown: flying && teleportable })
    }
}

/// Drives the health readout and the hit markers.
#[derive(Clone, Copy, Debug, PartialEq, Eq, Structural)]
pub struct UIHealthSystem {}

/// Health below this fraction, in thousandths, raises the low-health marker.
pub const LOW_HEALTH_MARK: i64 = 200;

/// `current / total` in thousandths, rounded toward zero.
pub open spec fn health_thousandths(current: int, total: int) -> int {
    if current >= 0 {
        current * 1000 / total
    } else {
        -((-current) * 1000 / total)
    }
}

impl UIHealthSystem {
    pub fn new() -> (r: UIHealthSystem) {
        UIHealthSystem {  }
    }

    /// Current health as thousandths of the total, rounded toward zero; negative
    /// while health is below zero.
    pub fn health_fraction(&self, health: &Health) -> (r: i128)
        requires
            health.total_health > 0,
        ensures
            r == health_thousandths(health.current_health as int, health.total_health as int),
    {
        let total = health.total_health as u128;
        if health.current_health >= 0 {
            let c = health.current_health as u128;
            assert(c * 1000 / (total as int) <= c * 1000) by (nonlinear_arith)
                requires
                    total >= 1,
            ;
            ((c * 1000) / total) as i128
        } else {
            let c = (0 - (health.current_health as i128)) as u128;
            assert(c * 1000 / (total as int) <= c * 1000) by (nonlinear_arith)
                requires
                    total >= 1,
            ;
            0 - (((c * 1000) / total) as i128)
        }
    }

    /// The low-health marker is shown: health is below a fifth of the total,
    /// which includes health below zero.
    pub fn shows_low_marker(&self, health: &Health) -> (r: bool)
        requires
            health.total_health > 0,
        ensures
            r == (health_thousandths(health.current_health as int, health.total_health as int)
                < LOW_HEALTH_MARK),
    {
        self.health_fraction(health) < LOW_HEALTH_MARK as i128
    }

    /// Advances the player's hit-marker timer and says which directional marker shows.
    pub fn display_markers(&self, health: &mut Health, dt: u64) -> (r: HitMarker)
        ensures
            final(health).current_health == old(health).current_health,
            final(health).marker == old(health).marker,
            r == (if marker_shown(*final(health), HitMarker::Left) {
                HitMarker::Left
            } else if marker_shown(*final(health), HitMarker::Right) {
                HitMarker::Right
            } else {
                HitMarker::Front
            }),
    {
        health.tick_blood_timer(dt);
        if health.shows_marker(HitMarker::Left) {
            HitMarker::Left
        } else if health.shows_marker(HitMarker::Right) {
            HitMarker::Right
        } else {
            HitMarker::Front
        }
    }
}

} // verus!
