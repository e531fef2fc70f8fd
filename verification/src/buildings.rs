//! Terrain and building catalogue: what terrain costs to cross and how it
//! shelters, what a building costs and what it yields.

use vstd::prelude::*;
use crate::resources::{Ledger, Resources};

verus! {

/// The lie of the land in a province.
#[derive(Debug, Clone, Copy, PartialEq, Eq, Hash, Structural)]
pub enum TerrainType {
    Plains,
    Forest,
    Mountains,
    Desert,
    Swamp,
    Coast,
}

impl TerrainType {
    /// How much slower movement is than on open ground, in thousandths:
    /// plains and coast 1.0, forest 1.5, desert 1.8, mountains 2.0, swamp 2.5.
    pub open spec fn movement_cost_of(self) -> int {
        match self {
            TerrainType::Plains => 1000,
            TerrainType::Forest => 1500,
            TerrainType::Mountains => 2000,
            TerrainType::Desert => 1800,
            TerrainType::Swamp => 2500,
            TerrainType::Coast => 1000,
        }
    }

    /// The share by which the terrain strengthens a defender, in
    /// thousandths: plains and coast nothing, desert 0.1, forest 0.2, swamp
    /// 0.3, mountains 0.5.
    pub open spec fn defense_bonus_of(self) -> int {
        match self {
            TerrainType::Plains => 0,
            TerrainType::Forest => 200,
            TerrainType::Mountains => 500,
            TerrainType::Desert => 100,
            TerrainType::Swamp => 300,
            TerrainType::Coast => 0,
        }
    }

    /// The movement cost of this terrain.
    pub fn movement_cost(&self) -> (cost: u32)
        ensures
            cost == self.movement_cost_of(),
    {
        match self {
            TerrainType::Plains => 1000,
            TerrainType::Forest => 1500,
            TerrainType::Mountains => 2000,
            TerrainType::Desert => 1800,
            TerrainType::Swamp => 2500,
            TerrainType::Coast => 1000,
        }
    }

    /// The defense bonus of this terrain.
    pub fn defense_bonus(&self) -> (bonus: u32)
        ensures
            bonus == self.defense_bonus_of(),
    {
        match self {
            TerrainType::Plains => 0,
            TerrainType::Forest => 200,
            TerrainType::Mountains => 500,
            TerrainType::Desert => 100,
            TerrainType::Swamp => 300,
            TerrainType::Coast => 0,
        }
    }
}

/// What can be built in a province.
#[derive(Debug, Clone, Copy, PartialEq, Eq, Hash, Structural)]
pub enum BuildingType {
    City,
    Farm,
    Mine,
    Barracks,
    Workshop,
    Fort,
    Port,
    Temple,
}

impl BuildingType {
    /// The price of the first level. Besides its own gold and materials,
    /// every building is charged 500 food and 100 manpower.
    pub open spec fn base_cost(self) -> Ledger {
        match self {
            BuildingType::City => Ledger { gold: 500, food: 500, materials: 300, manpower: 100 },
            BuildingType::Farm => Ledger { gold: 200, food: 500, materials: 100, manpower: 100 },
            BuildingType::Mine => Ledger { gold: 300, food: 500, materials: 200, manpower: 100 },
            BuildingType::Barracks => Ledger {
                gold: 400,
                food: 500,
                materials: 250,
                manpower: 100,
            },
            BuildingType::Workshop => Ledger {
                gold: 350,
                food: 500,
                materials: 400,
                manpower: 100,
            },
            BuildingType::Fort => Ledger { gold: 600, food: 500, materials: 500, manpower: 100 },
            BuildingType::Port => Ledger { gold: 800, food: 500, materials: 400, manpower: 100 },
            BuildingType::Temple => Ledger { gold: 450, food: 500, materials: 200, manpower: 100 },
        }
    }

    /// What one level yields each turn. A fort yields nothing.
    pub open spec fn base_income(self) -> Ledger {
        match self {
            BuildingType::City => Ledger { gold: 50, food: 0, materials: 0, manpower: 0 },
            BuildingType::Farm => Ledger { gold: 0, food: 100, materials: 0, manpower: 0 },
            BuildingType::Mine => Ledger { gold: 0, food: 0, materials: 80, manpower: 0 },
            BuildingType::Barracks => Ledger { gold: 0, food: 0, materials: 0, manpower: 20 },
            BuildingType::Workshop => Ledger { gold: 30, food: 0, materials: 20, manpower: 0 },
            BuildingType::Fort => Ledger::zero(),
            BuildingType::Port => Ledger { gold: 80, food: 0, materials: 0, manpower: 0 },
            BuildingType::Temple => Ledger { gold: 20, food: 0, materials: 0, manpower: 0 },
        }
    }

    /// The price of building at `level`: the base price times the level.
    pub open spec fn cost_at(self, level: int) -> Ledger {
        self.base_cost().times(level)
    }

    /// The yield at `level`: the base yield times the level.
    pub open spec fn income_at(self, level: int) -> Ledger {
        self.base_income().times(level)
    }

    /// A yield is never negative.
    pub proof fn lemma_income_non_negative(self, level: int)
        requires
            0 <= level,
        ensures
            self.income_at(level).non_negative(),
    {
        let base = self.base_income();
        assert(base.gold * level >= 0 && base.food * level >= 0 && base.materials * level >= 0
            && base.manpower * level >= 0) by (nonlinear_arith)
            requires
                0 <= level,
                base.gold >= 0,
                base.food >= 0,
                base.materials >= 0,
                base.manpower >= 0,
        ;
    }

    /// The price of building at `level`.
    pub fn construction_cost(&self, level: u32) -> (cost: Resources)
        requires
            self.cost_at(level as int).fits(),
        ensures
            cost@ == self.cost_at(level as int),
    {
        let base = match self {
            BuildingType::City => Resources { gold: 500, food: 500, materials: 300, manpower: 100 },
            BuildingType::Farm => Resources { gold: 200, food: 500, materials: 100, manpower: 100 },
            BuildingType::Mine => Resources { gold: 300, food: 500, materials: 200, manpower: 100 },
            BuildingType::Barracks => Resources {
                gold: 400,
                food: 500,
                materials: 250,
                manpower: 100,
            },
            BuildingType::Workshop => Resources {
                gold: 350,
                food: 500,
                materials: 400,
                manpower: 100,
            },
            BuildingType::Fort => Resources { gold: 600, food: 500, materials: 500, manpower: 100 },
            BuildingType::Port => Resources { gold: 800, food: 500, materials: 400, manpower: 100 },
            BuildingType::Temple => Resources {
                gold: 450,
                food: 500,
                materials: 200,
                manpower: 100,
            },
        };
        scale(&base, level)
    }

    /// The yield of a building at `level`.
    pub fn resource_income(&self, level: u32) -> (income: Resources)
        requires
            self.income_at(level as int).fits(),
        ensures
            income@ == self.income_at(level as int),
    {
        let base = match self {
            BuildingType::City => Resources { gold: 50, food: 0, materials: 0, manpower: 0 },
            BuildingType::Farm => Resources { gold: 0, food: 100, materials: 0, manpower: 0 },
            BuildingType::Mine => Resources { gold: 0, food: 0, materials: 80, manpower: 0 },
            BuildingType::Barracks => Resources { gold: 0, food: 0, materials: 0, manpower: 20 },
            BuildingType::Workshop => Resources { gold: 30, food: 0, materials: 20, manpower: 0 },
            BuildingType::Fort => Resources { gold: 0, food: 0, materials: 0, manpower: 0 },
            BuildingType::Port => Resources { gold: 80, food: 0, materials: 0, manpower: 0 },
            BuildingType::Temple => Resources { gold: 20, food: 0, materials: 0, manpower: 0 },
        };
        scale(&base, level)
    }
}

/// One field of a ledger times a level.
fn scale_field(base: i32, level: u32) -> (scaled: i32)
    requires
        i32::MIN <= base * level <= i32::MAX,
    ensures
        scaled == base * level,
{
    assert(-0x8000_0000 * 0xFFFF_FFFF <= base * level <= 0x7FFF_FFFF * 0xFFFF_FFFF)
        by (nonlinear_arith)
        requires
            -0x8000_0000 <= base <= 0x7FFF_FFFF,
            0 <= level <= 0xFFFF_FFFF,
    ;
    let product: i64 = base as i64 * level as i64;
    product as i32
}

/// `base` with every field multiplied by `level`.
fn scale(base: &Resources, level: u32) -> (scaled: Resources)
    requires
        base@.times(level as int).fits(),
    ensures
        scaled@ == base@.times(level as int),
{
    Resources {
        gold: scale_field(base.gold, level),
        food: scale_field(base.food, level),
        materials: scale_field(base.materials, level),
        manpower: scale_field(base.manpower, level),
    }
}

/// A building in a province. `level` starts at 1; `construction_progress`
/// runs from 0 to 1000 thousandths, and the building is finished at 1000.
#[derive(Debug, Clone, Copy, PartialEq, Eq, Structural)]
pub struct Building {
    pub building_type: BuildingType,
    pub level: u32,
    pub construction_progress: u32,
}

impl Building {
    /// The level is at least 1 and the progress at most 1.0.
    pub open spec fn wf(&self) -> bool {
        &&& self.level >= 1
        &&& self.construction_progress <= 1000
    }

    /// What this building yields each turn.
    pub open spec fn income(&self) -> Ledger {
        self.building_type.income_at(self.level as int)
    }
}

} // verus!
