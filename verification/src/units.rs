//! Unit kinds with their base statistics, and formations with their
//! multipliers.

use vstd::prelude::*;
use crate::ids::{FactionId, UnitId};
use crate::resources::{Ledger, Resources};

verus! {

/// The tactical posture of a unit.
#[derive(Debug, Clone, Copy, PartialEq, Eq, Hash, Structural)]
pub enum Formation {
    Line,
    Column,
    Square,
    Wedge,
    Skirmish,
}

/// The four multipliers of a formation, in thousandths.
#[derive(Debug, Clone, Copy, PartialEq, Eq, Structural)]
pub struct FormationModifiers {
    pub attack_modifier: u32,
    pub defense_modifier: u32,
    pub speed_modifier: u32,
    pub morale_modifier: u32,
}

impl Formation {
    /// The table of multipliers, in thousandths:
    ///
    /// | formation | attack | defense | speed | morale |
    /// |-----------|--------|---------|-------|--------|
    /// | Line      | 1.0    | 1.0     | 1.0   | 1.0    |
    /// | Column    | 0.8    | 0.7     | 1.3   | 1.1    |
    /// | Square    | 0.6    | 1.5     | 0.5   | 1.2    |
    /// | Wedge     | 1.3    | 0.8     | 1.1   | 0.9    |
    /// | Skirmish  | 0.9    | 1.2     | 1.2   | 0.8    |
    pub open spec fn modifiers(self) -> FormationModifiers {
        match self {
            Formation::Line => FormationModifiers {
                attack_modifier: 1000,
                defense_modifier: 1000,
                speed_modifier: 1000,
                morale_modifier: 1000,
            },
            Formation::Column => FormationModifiers {
                attack_modifier: 800,
                defense_modifier: 700,
                speed_modifier: 1300,
                morale_modifier: 1100,
            },
            Formation::Square => FormationModifiers {
                attack_modifier: 600,
                defense_modifier: 1500,
                speed_modifier: 500,
                morale_modifier: 1200,
            },
            Formation::Wedge => FormationModifiers {
                attack_modifier: 1300,
                defense_modifier: 800,
                speed_modifier: 1100,
                morale_modifier: 900,
            },
            Formation::Skirmish => FormationModifiers {
                attack_modifier: 900,
                defense_modifier: 1200,
                speed_modifier: 1200,
                morale_modifier: 800,
            },
        }
    }

    /// The multipliers of this formation.
    pub fn get_modifiers(&self) -> (m: FormationModifiers)
        ensures
            m == self.modifiers(),
    {
        let (attack, defense, speed, morale): (u32, u32, u32, u32) = match self {
            Formation::Line => (1000, 1000, 1000, 1000),
            Formation::Column => (800, 700, 1300, 1100),
            Formation::Square => (600, 1500, 500, 1200),
            Formation::Wedge => (1300, 800, 1100, 900),
            Formation::Skirmish => (900, 1200, 1200, 800),
        };
        FormationModifiers {
            attack_modifier: attack,
            defense_modifier: defense,
            speed_modifier: speed,
            morale_modifier: morale,
        }
    }
}

/// The kind of soldiers in a unit. `Special` carries the name of a unique
/// unit.
#[derive(Debug, Clone, PartialEq, Eq)]
pub enum UnitType {
    Infantry,
    Cavalry,
    Archers,
    Artillery,
    Special(String),
}

/// Base statistics of a unit kind. `speed` and `range` are in thousandths.
#[derive(Debug, Clone, Copy, PartialEq, Eq, Structural)]
pub struct UnitStats {
    pub attack: u32,
    pub defense: u32,
    pub health: u32,
    pub speed: u32,
    pub range: u32,
    pub cost: Resources,
}

impl UnitType {
    /// Base attack strength.
    pub open spec fn base_attack(self) -> int {
        match self {
            UnitType::Infantry => 15,
            UnitType::Cavalry => 20,
            UnitType::Archers => 18,
            UnitType::Artillery => 35,
            UnitType::Special(_) => 25,
        }
    }

    /// Base defense strength.
    pub open spec fn base_defense(self) -> int {
        match self {
            UnitType::Infantry => 12,
            UnitType::Cavalry => 8,
            UnitType::Archers => 6,
            UnitType::Artillery => 5,
            UnitType::Special(_) => 15,
        }
    }

    /// Health of one soldier.
    pub open spec fn base_health(self) -> int {
        match self {
            UnitType::Infantry => 100,
            UnitType::Cavalry => 120,
            UnitType::Archers => 80,
            UnitType::Artillery => 60,
            UnitType::Special(_) => 150,
        }
    }

    /// Movement speed, in whole units.
    pub open spec fn base_speed(self) -> int {
        match self {
            UnitType::Infantry => 50,
            UnitType::Cavalry => 100,
            UnitType::Archers => 40,
            UnitType::Artillery => 20,
            UnitType::Special(_) => 60,
        }
    }

    /// Reach of an attack, in whole units.
    pub open spec fn base_range(self) -> int {
        match self {
            UnitType::Infantry => 1,
            UnitType::Cavalry => 1,
            UnitType::Archers => 150,
            UnitType::Artillery => 300,
            UnitType::Special(_) => 50,
        }
    }

    /// What it costs to recruit one unit of this kind. Every kind is charged
    /// 500 food, and every kind but artillery 300 materials.
    pub open spec fn recruit_cost(self) -> Ledger {
        match self {
            UnitType::Infantry => Ledger { gold: 100, food: 500, materials: 300, manpower: 10 },
            UnitType::Cavalry => Ledger { gold: 200, food: 500, materials: 300, manpower: 15 },
            UnitType::Archers => Ledger { gold: 120, food: 500, materials: 300, manpower: 12 },
            UnitType::Artillery => Ledger { gold: 500, food: 500, materials: 100, manpower: 8 },
            UnitType::Special(_) => Ledger { gold: 800, food: 500, materials: 300, manpower: 25 },
        }
    }

    /// The base statistics of this kind of unit.
    pub fn stats(&self) -> (s: UnitStats)
        ensures
            s.attack == self.base_attack(),
            s.defense == self.base_defense(),
            s.health == self.base_health(),
            s.speed == crate::fixed::whole(self.base_speed()),
            s.range == crate::fixed::whole(self.base_range()),
            s.cost@ == self.recruit_cost(),
    {
        match self {
            UnitType::Infantry => UnitStats {
                attack: 15,
                defense: 12,
                health: 100,
                speed: 50_000,
                range: 1_000,
                cost: Resources { gold: 100, food: 500, materials: 300, manpower: 10 },
            },
            UnitType::Cavalry => UnitStats {
                attack: 20,
                defense: 8,
                health: 120,
                speed: 100_000,
                range: 1_000,
                cost: Resources { gold: 200, food: 500, materials: 300, manpower: 15 },
            },
            UnitType::Archers => UnitStats {
                attack: 18,
                defense: 6,
                health: 80,
                speed: 40_000,
                range: 150_000,
                cost: Resources { gold: 120, food: 500, materials: 300, manpower: 12 },
            },
            UnitType::Artillery => UnitStats {
                attack: 35,
                defense: 5,
                health: 60,
                speed: 20_000,
                range: 300_000,
                cost: Resources { gold: 500, food: 500, materials: 100, manpower: 8 },
            },
            UnitType::Special(_) => UnitStats {
                attack: 25,
                defense: 15,
                health: 150,
                speed: 60_000,
                range: 50_000,
                cost: Resources { gold: 800, food: 500, materials: 300, manpower: 25 },
            },
        }
    }
}

/// A body of soldiers on the battlefield. `morale` is in thousandths of a
/// point and runs from 0 to 100 000.
#[derive(Debug, Clone, PartialEq, Eq)]
pub struct Unit {
    pub id: UnitId,
    pub unit_type: UnitType,
    pub count: u32,
    pub max_count: u32,
    pub morale: u32,
    pub experience: u32,
    pub formation: Formation,
    pub faction: FactionId,
}

/// Full morale: 100 points.
pub const MORALE_MAX: u32 = 100_000;

impl Unit {
    /// The roster does not exceed its maximum and morale is at most 100.
    pub open spec fn wf(&self) -> bool {
        &&& self.count <= self.max_count
        &&& self.morale <= MORALE_MAX
    }
}

} // verus!
