//! Per-frame health bookkeeping: damage flags, barrier charge and the removal
//! of dead entities.
use vstd::prelude::*;
use crate::components::Player;
use crate::damage::{Barrier, Health, DEATH_TRANSITION};
use crate::gun::sat_add;

verus! {

/// Runs the per-frame health rules.
#[derive(Clone, Copy, Debug, PartialEq, Eq, Structural)]
pub struct HealthSystem {}

/// What happens to an entity at the end of the health frame.
#[derive(Clone, Copy, Debug, PartialEq, Eq, Structural)]
pub enum DeathAction {
    /// Still alive, or a player still in its death transition.
    Keep,
    /// Dead, and its lifecycle takes care of despawning it.
    MarkDead,
    /// Dead, to be removed now.
    Remove,
}

/// One frame of a dead player's transition: the player afterwards and whether
/// the transition has run its course.
pub open spec fn death_transition_frame(p: Player, dt: u64) -> (Player, bool) {
    let t = if p.death_transition { p.death_transition_timer } else { 0 };
    let t2 = sat_add(t, dt);
    (Player { death_transition: true, death_transition_timer: t2 }, t2 >= DEATH_TRANSITION)
}

impl HealthSystem {
    pub fn new() -> (r: HealthSystem) {
        HealthSystem {  }
    }

    /// Clears every entity's damage flag from the previous frame.
    pub fn clear_recently_damaged(&self, healths: &mut Vec<Health>)
        ensures
            final(healths)@.len() == old(healths)@.len(),
            forall|i: int|
                0 <= i < old(healths)@.len() ==> #[trigger] final(healths)@[i] == (Health {
                    recently_damaged: false,
                    ..old(healths)@[i]
                }),
    {
        let mut k: usize = 0;
        while k < healths.len()
            invariant
                0 <= k <= healths@.len(),
                healths@.len() == old(healths)@.len(),
                forall|i: int|
                    0 <= i < k ==> #[trigger] healths@[i] == (Health {
                        recently_damaged: false,
                        ..old(healths)@[i]
                    }),
                forall|i: int| k <= i < healths@.len() ==> #[trigger] healths@[i] == old(healths)@[i],
            decreases healths@.len() - k,
        {
            let mut h = healths[k];
            h.clear_recently_damaged();
            healths.set(k, h);
            k = k + 1;
        }
    }

    /// Charges every barrier with the number of live spawners.
    pub fn check_for_barrier(&self, barriers: &mut Vec<Barrier>, spawners: u64)
        ensures
            final(barriers)@.len() == old(barriers)@.len(),
            forall|i: int|
                0 <= i < final(barriers)@.len() ==> #[trigger] final(barriers)@[i].current_barrier
                    == spawners,
    {
        let mut k: usize = 0;
        while k < barriers.len()
            invariant
                0 <= k <= barriers@.len(),
                barriers@.len() == old(barriers)@.len(),
                forall|i: int| 0 <= i < k ==> #[trigger] barriers@[i].current_barrier == spawners,
            decreases barriers@.len() - k,
        {
            barriers.set(k, Barrier { current_barrier: spawners });
            k = k + 1;
        }
    }

    /// Decides the fate of an entity with the given health. An entity with a
    /// lifecycle is handed to it; a player goes through a death transition of
    /// its own before removal; anything else is removed at once.
    pub fn remove_dead_entity(
        &self,
        health: &Health,
        has_lifecycle: bool,
        player: &mut Option<Player>,
        dt: u64,
    ) -> (r: DeathAction)
        ensures
            health.current_health > 0 ==> r == DeathAction::Keep && *final(player) == *old(player),
            health.current_health <= 0 && has_lifecycle ==> r == DeathAction::MarkDead
                && *final(player) == *old(player),
            health.current_health <= 0 && !has_lifecycle && (*old(player)) is None ==> r
                == DeathAction::Remove && *final(player) == *old(player),
            health.current_health <= 0 && !has_lifecycle && (*old(player)) is Some ==> {
                let (p, done) = death_transition_frame((*old(player))->Some_0, dt);
                &&& *final(player) == Some(p)
                &&& r == if done { DeathAction::Remove } else { DeathAction::Keep }
            },
    {
        if health.current_health > 0 {
            return DeathAction::Keep;
        }
        if has_lifecycle {
            return DeathAction::MarkDead;
        }
        match player {
            Some(p) => {
                if !p.death_transition {
                    p.death_transition_timer = 0;
                    p.death_transition = true;
                }
                p.death_transition_timer = p.death_transition_timer.saturating_add(dt);
                if p.death_transition_timer >= DEATH_TRANSITION {
                    DeathAction::Remove
                } else {
                    DeathAction::Keep
                }
            },
            None => DeathAction::Remove,
        }
    }
}

} // verus!
