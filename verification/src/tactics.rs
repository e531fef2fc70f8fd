//! Simple battle heuristics: which formation a unit takes up and which
//! enemy it attacks.

use vstd::prelude::*;
use crate::ids::UnitId;
use crate::units::{Formation, Unit, UnitType};

verus! {

/// The heuristics of a computer-led unit. They depend on their arguments
/// alone.
pub struct BattleAI;

impl BattleAI {
    /// Whether any of `enemies` is cavalry.
    pub open spec fn faces_cavalry(enemies: Seq<&Unit>) -> bool {
        exists|i: int| 0 <= i < enemies.len() && (#[trigger] enemies[i]).unit_type is Cavalry
    }

    /// The formation for a unit of kind `unit_type`: infantry forms a square
    /// against cavalry and a line otherwise, cavalry a wedge, archers a
    /// skirmish line, and all others a line.
    pub open spec fn formation_for(unit_type: UnitType, faces_cavalry: bool) -> Formation {
        match unit_type {
            UnitType::Infantry => if faces_cavalry {
                Formation::Square
            } else {
                Formation::Line
            },
            UnitType::Cavalry => Formation::Wedge,
            UnitType::Archers => Formation::Skirmish,
            UnitType::Artillery => Formation::Line,
            UnitType::Special(_) => Formation::Line,
        }
    }

    /// Whether no unit of `enemies` has fewer soldiers than the one at
    /// `index`.
    pub open spec fn is_weakest(enemies: Seq<&Unit>, index: int) -> bool {
        &&& 0 <= index < enemies.len()
        &&& forall|j: int| 0 <= j < enemies.len() ==> enemies[index].count <= (#[trigger] enemies[j]).count
    }

    /// The formation that a unit of kind `unit_type` takes up against
    /// `enemy_units`.
    pub fn choose_formation(unit_type: &UnitType, enemy_units: &[&Unit]) -> (formation: Formation)
        ensures
            formation == Self::formation_for(*unit_type, Self::faces_cavalry(enemy_units@)),
    {
        match unit_type {
            UnitType::Infantry => {
                let mut i: usize = 0;
                while i < enemy_units.len()
                    invariant
                        *unit_type is Infantry,
                        i <= enemy_units@.len(),
                        forall|k: int| 0 <= k < i ==> !((#[trigger] enemy_units@[k]).unit_type is Cavalry),
                    decreases enemy_units@.len() - i,
                {
                    if let UnitType::Cavalry = enemy_units[i].unit_type {
                        assert(enemy_units@[i as int].unit_type is Cavalry);
                        return Formation::Square;
                    }
                    i += 1;
                }
                Formation::Line
            },
            UnitType::Cavalry => Formation::Wedge,
            UnitType::Archers => Formation::Skirmish,
            UnitType::Artillery => Formation::Line,
            UnitType::Special(_) => Formation::Line,
        }
    }

    /// The enemy to attack: one with the fewest soldiers, or nobody when
    /// there is no enemy. The attacker itself does not weigh in.
    pub fn choose_target(attacking_unit: &Unit, enemy_units: &[&Unit]) -> (target: Option<UnitId>)
        ensures
            target is None <==> enemy_units@.len() == 0,
            target matches Some(id) ==> exists|i: int|
                Self::is_weakest(enemy_units@, i) && id == (#[trigger] enemy_units@[i]).id,
    {
        if enemy_units.len() == 0 {
            return None;
        }
        let mut best: usize = 0;
        let mut i: usize = 1;
        while i < enemy_units.len()
            invariant
                1 <= i <= enemy_units@.len(),
                best < i,
                forall|j: int| 0 <= j < i ==> enemy_units@[best as int].count <= (#[trigger] enemy_units@[j]).count,
            decreases enemy_units@.len() - i,
        {
            if enemy_units[i].count < enemy_units[best].count {
                best = i;
            }
            i += 1;
        }
        assert(Self::is_weakest(enemy_units@, best as int));
        Some(enemy_units[best].id)
    }
}

} // verus!
