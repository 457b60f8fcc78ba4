//! Game-wide components: markers, crops and their growth stages, and the
//! player's inventory.
use vstd::prelude::*;

verus! {

/// The set of components that the game registers.
#[derive(Clone, Copy, Debug, PartialEq, Eq, Structural)]
pub struct GameComponents;

/// Marks an entity that can be picked up.
#[derive(Clone, Copy, Debug, PartialEq, Eq, Structural)]
pub struct Pickup {}

/// A player entity and its death transition. Times in milliseconds.
#[derive(Clone, Copy, Debug, PartialEq, Eq, Structural)]
pub struct Player {
    pub death_transition: bool,
    pub death_transition_timer: u64,
}

/// Kinds of crop.
#[derive(Clone, Copy, Debug, PartialEq, Eq, Structural, Hash)]
pub enum CropType {
    Pumpkin,
}

impl CropType {
    /// Template name of the grown crop.
    pub fn get_prefab(&self) -> (r: &'static str)
        ensures
            r@ == "Prefab::Pumpkin"@,
    {
        match self {
            CropType::Pumpkin => "Prefab::Pumpkin",
        }
    }
}

/// Growth stages of a crop, in order.
#[derive(Clone, Copy, Debug, PartialEq, Eq, Structural)]
pub enum Stage {
    Seeds,
    Seedling,
    Flowering,
    Mature,
}

/// The stage after `s`; a mature crop stays mature.
pub open spec fn next_stage(s: Stage) -> Stage {
    match s {
        Stage::Seeds => Stage::Seedling,
        Stage::Seedling => Stage::Flowering,
        Stage::Flowering => Stage::Mature,
        Stage::Mature => Stage::Mature,
    }
}

/// Template name of a stage.
pub open spec fn stage_prefab(s: Stage) -> Seq<char> {
    match s {
        Stage::Seeds => "Seeds"@,
        Stage::Seedling => "Seedling"@,
        Stage::Flowering => "Flowering"@,
        Stage::Mature => "Mature"@,
    }
}

impl Stage {
    pub fn get_next_stage(&self) -> (r: Stage)
        ensures
            r == next_stage(*self),
    {
        match self {
            Stage::Seeds => Stage::Seedling,
            Stage::Seedling => Stage::Flowering,
            Stage::Flowering => Stage::Mature,
            Stage::Mature => Stage::Mature,
        }
    }

    pub fn get_prefab(&self) -> (r: &'static str)
        ensures
            r@ == stage_prefab(*self),
    {
        match self {
            Stage::Seeds => "Seeds",
            Stage::Seedling => "Seedling",
            Stage::Flowering => "Flowering",
            Stage::Mature => "Mature",
        }
    }
}

/// Marks a crop that can be harvested.
#[derive(Clone, Copy, Debug, PartialEq, Eq, Structural)]
pub struct Harvestable {}

/// Marks an entity that wears out.
#[derive(Clone, Copy, Debug, PartialEq, Eq, Structural)]
pub struct Durability {}

#[derive(Clone, Copy, Debug, PartialEq, Eq, Structural)]
pub enum SeedTypes {
    Pumpkin,
}

#[derive(Clone, Copy, Debug, PartialEq, Eq, Structural)]
pub enum ActionTypes {
    WaterTile,
    ThrowSeed,
    Harvest,
}

/// Marks an entity on which an action can be performed.
#[derive(Clone, Copy, Debug, PartialEq, Eq, Structural)]
pub struct Action {}

#[derive(Clone, Copy, Debug, PartialEq, Eq, Structural)]
pub struct Log {}

#[derive(Clone, Copy, Debug, PartialEq, Eq, Structural)]
pub struct PickupSpace {}

#[derive(Clone, Copy, Debug, PartialEq, Eq, Structural)]
pub struct Friend {}

#[derive(Clone, Copy, Debug, PartialEq, Eq, Structural)]
pub struct Tile {}

#[derive(Clone, Copy, Debug, PartialEq, Eq, Structural)]
pub enum WaterType {
    Salty,
    Fresh,
}

#[derive(Clone, Copy, Debug, PartialEq, Eq, Structural)]
pub struct WateredTile {}

#[derive(Clone, Copy, Debug, PartialEq, Eq, Structural)]
pub struct CropTile {}

/// Seeds carried, per crop kind.
#[derive(Clone, Copy, Debug, PartialEq, Eq, Structural)]
pub struct Seeds {
    pub pumpkins: usize,
}

/// Marks the camera that renders the scene.
#[derive(Clone, Copy, Debug, PartialEq, Eq, Structural)]
pub struct ActiveCamera {}

/// An inventory item: a grown crop or its seed.
#[derive(Clone, Copy, Debug, PartialEq, Eq, Structural, Hash)]
pub enum Item {
    Crop(CropType),
    Seed(CropType),
}

/// How much of an item is held.
#[derive(Clone, Copy, Debug, PartialEq, Eq, Structural, Hash)]
pub enum Quantity {
    Empty,
    Finite(usize),
    Infinite,
}

/// `q` after `n` more: an empty quantity becomes `n`, an infinite one stays.
pub open spec fn increased(q: Quantity, n: usize) -> Quantity {
    match q {
        Quantity::Finite(v) => Quantity::Finite((v + n) as usize),
        Quantity::Infinite => Quantity::Infinite,
        Quantity::Empty => Quantity::Finite(n),
    }
}

/// `q` after `n` fewer: a finite amount above `n` drops by `n`, one equal to
/// `n` becomes empty, a smaller one is left as it is.
pub open spec fn decremented(q: Quantity, n: usize) -> Quantity {
    match q {
        Quantity::Finite(v) => if v > n {
            Quantity::Finite((v - n) as usize)
        } else if v == n {
            Quantity::Empty
        } else {
            q
        },
        _ => q,
    }
}

/// At least one unit is available.
pub open spec fn usable(q: Quantity) -> bool {
    match q {
        Quantity::Infinite => true,
        Quantity::Empty => false,
        Quantity::Finite(v) => v > 0,
    }
}

/// Adding `n` to `q` stays within machine integers.
pub open spec fn can_increase(q: Quantity, n: usize) -> bool {
    match q {
        Quantity::Finite(v) => v + n <= usize::MAX,
        _ => true,
    }
}

impl Default for Quantity {
    fn default() -> (r: Quantity)
        ensures
            r == Quantity::Empty,
    {
        Quantity::Empty
    }
}

impl Quantity {
    pub fn increase_by(&mut self, increment: usize)
        requires
            can_increase(*old(self), increment),
        ensures
            *final(self) == increased(*old(self), increment),
    {
        match self {
            Quantity::Finite(value) => {
                *value = *value + increment;
            },
            Quantity::Infinite => {},
            Quantity::Empty => {
                *self = Quantity::Finite(increment);
            },
        }
    }

    pub fn decrement_by(&mut self, decrement: usize)
        ensures
            *final(self) == decremented(*old(self), decrement),
    {
        match self {
            Quantity::Finite(value) => {
                if *value > decrement {
                    *value = *value - decrement;
                } else if *value == decrement {
                    *self = Quantity::Empty;
                }
            },
            Quantity::Infinite => {},
            Quantity::Empty => {},
        }
    }

    pub fn can_use(&self) -> (r: bool)
        ensures
            r == usable(*self),
    {
        match self {
            Quantity::Infinite => true,
            Quantity::Empty => false,
            Quantity::Finite(v) => *v > 0,
        }
    }
}

/// Items held, one entry per item.
#[derive(Debug)]
pub struct Inventory {
    pub items: Vec<(Item, Quantity)>,
}

/// No item has two entries.
pub open spec fn keys_unique(s: Seq<(Item, Quantity)>) -> bool {
    forall|i: int, j: int| 0 <= i < j < s.len() ==> #[trigger] s[i].0 != #[trigger] s[j].0
}

impl Inventory {
    pub open spec fn wf(&self) -> bool {
        keys_unique(self.items@)
    }

    /// Adds `quantity` to the item's entry; an item without an entry is not added.
    pub fn award(&mut self, item: Item, quantity: usize)
        requires
            old(self).wf(),
            forall|i: int|
                0 <= i < old(self).items@.len() && old(self).items@[i].0 == item ==> can_increase(
                    #[trigger] old(self).items@[i].1,
                    quantity,
                ),
        ensures
            final(self).wf(),
            forall|i: int|
                0 <= i < old(self).items@.len() && old(self).items@[i].0 == item
                    ==> final(self).items@ == old(self).items@.update(
                    i,
                    (item, increased(#[trigger] old(self).items@[i].1, quantity)),
                ),
            (forall|i: int| 0 <= i < old(self).items@.len() ==> #[trigger] old(self).items@[i].0 != item)
                ==> final(self).items@ == old(self).items@,
    {
        let mut k: usize = 0;
        while k < self.items.len()
            invariant
                0 <= k <= self.items@.len(),
                self.items@ == old(self).items@,
                old(self).wf(),
                forall|i: int|
                    0 <= i < old(self).items@.len() && old(self).items@[i].0 == item ==> can_increase(
                        #[trigger] old(self).items@[i].1,
                        quantity,
                    ),
                forall|j: int| 0 <= j < k ==> #[trigger] self.items@[j].0 != item,
            decreases self.items@.len() - k,
        {
            if self.items[k].0 == item {
                let mut q = self.items[k].1;
                q.increase_by(quantity);
                self.items.set(k, (item, q));
                assert forall|i: int|
                    0 <= i < old(self).items@.len() && old(self).items@[i].0 == item implies i
                    == k by {}
                assert(keys_unique(self.items@)) by {
                    assert forall|i: int, j: int| 0 <= i < j < self.items@.len() implies
                        #[trigger] self.items@[i].0 != #[trigger] self.items@[j].0 by {
                        assert(old(self).items@[i].0 != old(self).items@[j].0);
                    }
                }
                return;
            }
            k = k + 1;
        }
    }

    /// The item has an entry with at least one unit available.
    pub fn can_use(&self, item: &Item) -> (r: bool)
        requires
            self.wf(),
        ensures
            r == exists|i: int|
                0 <= i < self.items@.len() && #[trigger] self.items@[i].0 == *item && usable(
                    self.items@[i].1,
                ),
    {
        let mut k: usize = 0;
        while k < self.items.len()
            invariant
                0 <= k <= self.items@.len(),
                self.wf(),
                forall|j: int| 0 <= j < k ==> #[trigger] self.items@[j].0 != *item,
            decreases self.items@.len() - k,
        {
            if self.items[k].0 == *item {
                let r = self.items[k].1.can_use();
                assert forall|i: int| 0 <= i < self.items@.len() && self.items@[i].0 == *item implies i == k by {}
                return r;
            }
            k = k + 1;
        }
        false
    }
}

} // verus!
