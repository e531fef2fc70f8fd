//! The four-quantity economic balance of a faction.

use vstd::prelude::*;

verus! {

/// The mathematical value of a [`Resources`]: four unbounded integers.
pub struct Ledger {
    pub gold: int,
    pub food: int,
    pub materials: int,
    pub manpower: int,
}

impl Ledger {
    /// The ledger that holds nothing.
    pub open spec fn zero() -> Ledger {
        Ledger { gold: 0, food: 0, materials: 0, manpower: 0 }
    }

    /// Field by field sum.
    pub open spec fn plus(self, other: Ledger) -> Ledger {
        Ledger {
            gold: self.gold + other.gold,
            food: self.food + other.food,
            materials: self.materials + other.materials,
            manpower: self.manpower + other.manpower,
        }
    }

    /// Field by field difference.
    pub open spec fn minus(self, other: Ledger) -> Ledger {
        Ledger {
            gold: self.gold - other.gold,
            food: self.food - other.food,
            materials: self.materials - other.materials,
            manpower: self.manpower - other.manpower,
        }
    }

    /// Every field multiplied by `factor`.
    pub open spec fn times(self, factor: int) -> Ledger {
        Ledger {
            gold: self.gold * factor,
            food: self.food * factor,
            materials: self.materials * factor,
            manpower: self.manpower * factor,
        }
    }

    /// Each field of `self` is at least the same field of `cost`.
    pub open spec fn covers(self, cost: Ledger) -> bool {
        &&& self.gold >= cost.gold
        &&& self.food >= cost.food
        &&& self.materials >= cost.materials
        &&& self.manpower >= cost.manpower
    }

    /// No field is negative.
    pub open spec fn non_negative(self) -> bool {
        self.covers(Ledger::zero())
    }

    /// Every field can be stored in an `i32`.
    pub open spec fn fits(self) -> bool {
        &&& i32::MIN <= self.gold <= i32::MAX
        &&& i32::MIN <= self.food <= i32::MAX
        &&& i32::MIN <= self.materials <= i32::MAX
        &&& i32::MIN <= self.manpower <= i32::MAX
    }
}

/// Stock or price in gold, food, materials and manpower.
#[derive(Debug, Clone, Copy, PartialEq, Eq, Structural)]
pub struct Resources {
    pub gold: i32,
    pub food: i32,
    pub materials: i32,
    pub manpower: i32,
}

impl View for Resources {
    type V = Ledger;

    open spec fn view(&self) -> Ledger {
        Ledger {
            gold: self.gold as int,
            food: self.food as int,
            materials: self.materials as int,
            manpower: self.manpower as int,
        }
    }
}

impl Resources {
    /// The stock a faction starts with.
    pub open spec fn starting_stock() -> Ledger {
        Ledger { gold: 1000, food: 500, materials: 300, manpower: 100 }
    }

    /// A stock of 1000 gold, 500 food, 300 materials and 100 manpower.
    pub fn new() -> (r: Resources)
        ensures
            r@ == Resources::starting_stock(),
    {
        Resources { gold: 1000, food: 500, materials: 300, manpower: 100 }
    }

    /// Whether every field of `self` is at least the same field of `cost`.
    pub fn can_afford(&self, cost: &Resources) -> (ok: bool)
        ensures
            ok == self@.covers(cost@),
    {
        self.gold >= cost.gold && self.food >= cost.food && self.materials >= cost.materials
            && self.manpower >= cost.manpower
    }

    /// Pays `cost` out of `self` if `self` can afford it, and says whether it did.
    /// A refused payment changes nothing.
    pub fn subtract(&mut self, cost: &Resources) -> (paid: bool)
        requires
            old(self)@.covers(cost@) ==> old(self)@.minus(cost@).fits(),
        ensures
            paid == old(self)@.covers(cost@),
            paid ==> final(self)@ == old(self)@.minus(cost@),
            !paid ==> *final(self) == *old(self),
    {
        if self.can_afford(cost) {
            self.gold -= cost.gold;
            self.food -= cost.food;
            self.materials -= cost.materials;
            self.manpower -= cost.manpower;
            true
        } else {
            false
        }
    }

    /// Adds `income` to `self`, field by field.
    pub fn add(&mut self, income: &Resources)
        requires
            old(self)@.plus(income@).fits(),
        ensures
            final(self)@ == old(self)@.plus(income@),
    {
        self.gold += income.gold;
        self.food += income.food;
        self.materials += income.materials;
        self.manpower += income.manpower;
    }
}

impl Default for Resources {
    fn default() -> (r: Resources)
        ensures
            r@ == Resources::starting_stock(),
    {
        Resources::new()
    }
}

} // verus!
