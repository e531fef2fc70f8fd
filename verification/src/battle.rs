//! A battle between two factions and the phases it passes through.

use vstd::prelude::*;
use crate::geometry::Position;
use crate::ids::{FactionId, UnitId};

verus! {

/// Where a battle stands. A battle is set up in `Deployment`, fought in
/// `Combat` and over in `Resolved`; it passes through them in this order
/// and never goes back.
#[derive(Debug, Clone, Copy, PartialEq, Eq, Hash, Structural)]
pub enum BattlePhase {
    Deployment,
    Combat,
    Resolved,
}

impl BattlePhase {
    /// The place of the phase in the order of phases. No step of a battle
    /// lowers it, and none raises it by more than one.
    pub open spec fn rank(self) -> int {
        match self {
            BattlePhase::Deployment => 0,
            BattlePhase::Combat => 1,
            BattlePhase::Resolved => 2,
        }
    }
}

/// What a stretch of ground does to those who stand on it, each amount in
/// thousandths.
#[derive(Debug, Clone, Copy, PartialEq, Eq, Structural)]
pub enum TerrainEffectType {
    HighGround { defense_bonus: i32 },
    Forest { concealment: i32 },
    River { movement_penalty: i32 },
    Fortification { defense_bonus: i32, attack_bonus: i32 },
}

/// A round stretch of ground with an effect. `radius` is in thousandths.
#[derive(Debug, Clone, Copy, PartialEq, Eq, Structural)]
pub struct TerrainEffect {
    pub position: Position,
    pub radius: u32,
    pub effect_type: TerrainEffectType,
}

/// The field of a battle. `width` and `height` are in thousandths.
#[derive(Debug, Clone, PartialEq, Eq)]
pub struct Battlefield {
    pub width: u32,
    pub height: u32,
    pub terrain_effects: Vec<TerrainEffect>,
}

/// A battle. It names its units and does not hold them.
#[derive(Debug, Clone, PartialEq, Eq)]
pub struct Battle {
    pub id: String,
    pub attacker: FactionId,
    pub defender: FactionId,
    pub attacker_units: Vec<UnitId>,
    pub defender_units: Vec<UnitId>,
    pub battlefield: Battlefield,
    pub phase: BattlePhase,
    pub turn: u32,
}

impl Battle {
    /// `self` with the phase `phase` and the turn counter at `turn`.
    pub open spec fn at(self, phase: BattlePhase, turn: u32) -> Battle {
        Battle { phase, turn, ..self }
    }

    /// Whether `later` can come of `self` by one step: the phase is the
    /// same or the next one, never an earlier one and never two further on;
    /// the turn counter does not go back; a resolved battle stays as it is.
    pub open spec fn steps_to(self, later: Battle) -> bool {
        &&& self.phase.rank() <= later.phase.rank() <= self.phase.rank() + 1
        &&& self.turn <= later.turn
        &&& self.phase is Resolved ==> later == self
    }

    /// A battle between `attacker` and `defender` that is being set up: it
    /// is in `Deployment` and no round has been fought.
    pub fn new(
        id: String,
        attacker: FactionId,
        defender: FactionId,
        attacker_units: Vec<UnitId>,
        defender_units: Vec<UnitId>,
        battlefield: Battlefield,
    ) -> (battle: Battle)
        ensures
            battle == (Battle {
                id,
                attacker,
                defender,
                attacker_units,
                defender_units,
                battlefield,
                phase: BattlePhase::Deployment,
                turn: 0,
            }),
    {
        Battle {
            id,
            attacker,
            defender,
            attacker_units,
            defender_units,
            battlefield,
            phase: BattlePhase::Deployment,
            turn: 0,
        }
    }

    /// Both sides have placed their forces: a battle in `Deployment` goes
    /// over to `Combat`. In any other phase nothing changes. Says whether
    /// the battle went over.
    pub fn begin_combat(&mut self) -> (begun: bool)
        ensures
            begun == (old(self).phase is Deployment),
            *final(self) == if begun {
                old(self).at(BattlePhase::Combat, old(self).turn)
            } else {
                *old(self)
            },
            old(self).steps_to(*final(self)),
    {
        match self.phase {
            BattlePhase::Deployment => {
                self.phase = BattlePhase::Combat;
                true
            },
            _ => false,
        }
    }

    /// A round of combat has been fought: in `Combat` the turn counter goes
    /// up by one. In any other phase no round is counted and nothing
    /// changes. Says whether the round was counted.
    pub fn complete_round(&mut self) -> (counted: bool)
        requires
            old(self).phase is Combat ==> old(self).turn < u32::MAX,
        ensures
            counted == (old(self).phase is Combat),
            *final(self) == if counted {
                old(self).at(BattlePhase::Combat, (old(self).turn + 1) as u32)
            } else {
                *old(self)
            },
            old(self).steps_to(*final(self)),
    {
        match self.phase {
            BattlePhase::Combat => {
                self.turn = self.turn + 1;
                true
            },
            _ => false,
        }
    }

    /// The fight is over: a battle in `Combat` goes over to `Resolved`. In
    /// any other phase nothing changes. Says whether the battle went over.
    pub fn resolve(&mut self) -> (ended: bool)
        ensures
            ended == (old(self).phase is Combat),
            *final(self) == if ended {
                old(self).at(BattlePhase::Resolved, old(self).turn)
            } else {
                *old(self)
            },
            old(self).steps_to(*final(self)),
    {
        match self.phase {
            BattlePhase::Combat => {
                self.phase = BattlePhase::Resolved;
                true
            },
            _ => false,
        }
    }
}

} // verus!
