//! Combat core of a frame-stepped action game: weapon fire control, the
//! projectile slot pool, pellet spread sampling, target selection, damage
//! resolution and the grenade lifecycle, all on integer units
//! (milliseconds, millimetres, millidegrees).

pub mod components;
pub mod damage;
pub mod geometry;
pub mod grenade;
pub mod gun;
pub mod health;
pub mod hitscan;
pub mod pool;
pub mod shooting;
pub mod targeting;
pub mod ui;
