//! Enemy target selection: sight-line sampling and nearest visible choice.
use vstd::prelude::*;
use crate::geometry::{diff, in_world, norm_sq, squared_distance, Vec3};

verus! {

/// Number of height samples taken along a candidate's body.
pub const SIGHT_SAMPLES: u64 = 4;

/// Height of a shooter's chest above its position, in millimetres.
pub const CHEST_HEIGHT: i64 = 750;

/// Spacing of the samples along a candidate's body, in millimetres.
pub const SAMPLE_SPACING: i64 = 250;

/// One sight ray: from the shooter's chest to a point on the candidate.
#[derive(Clone, Copy, Debug, PartialEq, Eq, Structural)]
pub struct SightRay {
    pub start: Vec3,
    pub finish: Vec3,
}

/// The `k`-th sight ray (from zero) from a shooter at `shooter` to a candidate at `target`.
pub open spec fn sight_ray(shooter: Vec3, target: Vec3, k: int) -> SightRay {
    SightRay {
        start: Vec3 { y: (shooter.y + CHEST_HEIGHT) as i64, ..shooter },
        finish: Vec3 { y: (target.y + SAMPLE_SPACING * (k + 1)) as i64, ..target },
    }
}

/// The sight rays to test against one candidate, from its lowest sample point up
/// to its head.
pub fn sight_rays(shooter: &Vec3, target: &Vec3) -> (r: Vec<SightRay>)
    requires
        in_world(*shooter),
        in_world(*target),
    ensures
        r@.len() == SIGHT_SAMPLES,
        forall|k: int| 0 <= k < r@.len() ==> #[trigger] r@[k] == sight_ray(*shooter, *target, k),
{
    let mut rays: Vec<SightRay> = Vec::new();
    let start = shooter.raised(CHEST_HEIGHT);
    let mut k: u64 = 0;
    while k < SIGHT_SAMPLES
        invariant
            0 <= k <= SIGHT_SAMPLES,
            in_world(*target),
            start == sight_ray(*shooter, *target, 0).start,
            rays@.len() == k,
            forall|j: int| 0 <= j < rays@.len() ==> #[trigger] rays@[j] == sight_ray(*shooter, *target, j),
        decreases SIGHT_SAMPLES - k,
    {
        let finish = target.raised(SAMPLE_SPACING * (k as i64 + 1));
        rays.push(SightRay { start, finish });
        k = k + 1;
    }
    rays
}

/// A candidate is visible when any of its sight rays first hits that candidate
/// itself; `hits` holds, per ray, the entity that it hit first, if any.
pub fn has_line_of_sight(hits: &Vec<Option<u64>>, target: u64) -> (r: bool)
    ensures
        r == exists|k: int| 0 <= k < hits@.len() && #[trigger] hits@[k] == Some(target),
{
    let mut k: usize = 0;
    while k < hits.len()
        invariant
            0 <= k <= hits@.len(),
            forall|j: int| 0 <= j < k ==> #[trigger] hits@[j] != Some(target),
        decreases hits@.len() - k,
    {
        if hits[k] == Some(target) {
            return true;
        }
        k = k + 1;
    }
    false
}

/// A possible target: where it stands and whether the shooter can see it.
#[derive(Clone, Copy, Debug, PartialEq, Eq, Structural)]
pub struct Candidate {
    pub position: Vec3,
    pub visible: bool,
}

/// Squared distance from the shooter to candidate `i`.
pub open spec fn dist_sq(shooter: Vec3, cs: Seq<Candidate>, i: int) -> int {
    norm_sq(diff(cs[i].position, shooter))
}

/// `i` is the nearest visible candidate, the first one seen winning ties.
pub open spec fn is_nearest_visible(shooter: Vec3, cs: Seq<Candidate>, i: int) -> bool {
    &&& 0 <= i < cs.len()
    &&& cs[i].visible
    &&& forall|j: int|
        0 <= j < cs.len() && #[trigger] cs[j].visible ==> dist_sq(shooter, cs, i) <= dist_sq(
            shooter,
            cs,
            j,
        )
    &&& forall|j: int|
        0 <= j < i && #[trigger] cs[j].visible ==> dist_sq(shooter, cs, i) < dist_sq(
            shooter,
            cs,
            j,
        )
}

/// Picks the nearest visible candidate by straight-line distance; of equally
/// near ones, the first. `None` when no candidate is visible.
pub fn select_nearest_visible(shooter: &Vec3, candidates: &Vec<Candidate>) -> (r: Option<usize>)
    requires
        in_world(*shooter),
        forall|i: int| 0 <= i < candidates@.len() ==> in_world(#[trigger] candidates@[i].position),
    ensures
        r is None <==> forall|j: int| 0 <= j < candidates@.len() ==> !(#[trigger] candidates@[j].visible),
        r is Some ==> is_nearest_visible(*shooter, candidates@, r->Some_0 as int),
{
    let mut best: Option<usize> = None;
    let mut best_d: u64 = 0;
    let mut k: usize = 0;
    while k < candidates.len()
        invariant
            0 <= k <= candidates@.len(),
            in_world(*shooter),
            forall|i: int| 0 <= i < candidates@.len() ==> in_world(#[trigger] candidates@[i].position),
            best is None <==> forall|j: int| 0 <= j < k ==> !(#[trigger] candidates@[j].visible),
            best is Some ==> {
                let b = best->Some_0 as int;
                &&& 0 <= b < k
                &&& candidates@[b].visible
                &&& best_d as int == dist_sq(*shooter, candidates@, b)
                &&& forall|j: int|
                    0 <= j < k && #[trigger] candidates@[j].visible ==> dist_sq(
                        *shooter,
                        candidates@,
                        b,
                    ) <= dist_sq(*shooter, candidates@, j)
                &&& forall|j: int|
                    0 <= j < b && #[trigger] candidates@[j].visible ==> dist_sq(
                        *shooter,
                        candidates@,
                        b,
                    ) < dist_sq(*shooter, candidates@, j)
            },
        decreases candidates@.len() - k,
    {
        let c = candidates[k];
        if c.visible {
            let d = squared_distance(&c.position, shooter);
            if best.is_none() || d < best_d {
                best = Some(k);
                best_d = d;
            }
        }
        k = k + 1;
    }
    best
}

} // verus!
