//! Combat resolution: damage between two units, casualties and morale,
//! and the rout test.

use vstd::prelude::*;
use crate::units::{Unit, MORALE_MAX};

verus! {

/// Fighting strengths of one unit, in thousandths. They are kept apart
/// from the unit's roster and morale, and joined to it by the caller.
#[derive(Debug, Clone, Copy, PartialEq, Eq, Structural)]
pub struct CombatStats {
    pub attack: u32,
    pub defense: u32,
    pub accuracy: u32,
    pub evasion: u32,
}

/// Raw damage never falls below 1.0, here in millionths.
pub const DAMAGE_FLOOR: u64 = 1_000_000;

/// What scaled damage is divided by to give whole points: a million for
/// the millionths of raw damage, a thousand for the thousandths of morale,
/// and a hundred for morale being a percentage.
pub const DAMAGE_DIVISOR: u128 = 100_000_000_000;

/// Morale below 20 points breaks a unit.
pub const ROUT_MORALE: u32 = 20_000;

/// Losing the whole maximum roster in one round costs 20 points of morale.
pub const MORALE_LOSS_FULL_ROSTER: u64 = 20_000;

/// The rules of combat.
pub struct CombatSystem;

impl CombatSystem {
    /// Attack strength times the attack multiplier of the attacker's
    /// formation, in millionths.
    pub open spec fn modified_attack(attacker: Unit, stats: CombatStats) -> int {
        stats.attack as int * attacker.formation.modifiers().attack_modifier as int
    }

    /// Defense strength times the defense multiplier of the defender's
    /// formation, in millionths.
    pub open spec fn modified_defense(defender: Unit, stats: CombatStats) -> int {
        stats.defense as int * defender.formation.modifiers().defense_modifier as int
    }

    /// Modified attack less modified defense, but at least 1.0; in
    /// millionths.
    pub open spec fn raw_damage(
        attacker: Unit,
        attacker_stats: CombatStats,
        defender: Unit,
        defender_stats: CombatStats,
    ) -> int {
        let difference = Self::modified_attack(attacker, attacker_stats) - Self::modified_defense(
            defender,
            defender_stats,
        );
        if difference > DAMAGE_FLOOR as int {
            difference
        } else {
            DAMAGE_FLOOR as int
        }
    }

    /// Raw damage scaled by the attacker's morale over 100, before rounding:
    /// the numerator of a fraction whose denominator is `DAMAGE_DIVISOR`.
    pub open spec fn scaled_damage(
        attacker: Unit,
        attacker_stats: CombatStats,
        defender: Unit,
        defender_stats: CombatStats,
    ) -> int {
        Self::raw_damage(attacker, attacker_stats, defender, defender_stats)
            * attacker.morale as int
    }

    /// The damage one attack deals: raw damage times morale over 100,
    /// rounded toward zero, and no more than `u32::MAX`.
    pub open spec fn damage(
        attacker: Unit,
        attacker_stats: CombatStats,
        defender: Unit,
        defender_stats: CombatStats,
    ) -> int {
        let whole = Self::scaled_damage(attacker, attacker_stats, defender, defender_stats)
            / DAMAGE_DIVISOR as int;
        if whole > u32::MAX {
            u32::MAX as int
        } else {
            whole
        }
    }

    /// Morale left after `casualties` soldiers fell: 20 points are lost per
    /// maximum roster lost, the loss rounded down to a thousandth, and
    /// morale does not go below zero. A unit that never had any soldiers has
    /// no morale left.
    pub open spec fn morale_after(morale: int, casualties: int, max_count: int) -> int {
        if max_count == 0 {
            0
        } else {
            let loss = casualties * MORALE_LOSS_FULL_ROSTER as int / max_count;
            if loss >= morale {
                0
            } else {
                morale - loss
            }
        }
    }

    /// Soldiers left after `casualties` fell.
    pub open spec fn count_after(count: int, casualties: int) -> int {
        if casualties >= count {
            0
        } else {
            count - casualties
        }
    }

    /// A unit routs when its morale is below 20 points or fewer than a
    /// tenth of its maximum roster is left.
    pub open spec fn routs(unit: Unit) -> bool {
        unit.morale < ROUT_MORALE || 10 * unit.count < unit.max_count
    }

    /// A unit is out of action when it has no soldiers left or has routed.
    pub open spec fn out_of_action(unit: Unit) -> bool {
        unit.count == 0 || Self::routs(unit)
    }

    /// A side is broken when every one of its units is out of action; a
    /// side without units is broken.
    pub open spec fn broken(units: Seq<&Unit>) -> bool {
        forall|i: int| 0 <= i < units.len() ==> Self::out_of_action(*#[trigger] units[i])
    }

    /// An attack deals at least 1 damage exactly when raw damage times
    /// morale over 100 reaches 1.0. An attacker at full morale always
    /// does; one at half morale whose raw damage is the floor of 1.0 deals
    /// nothing.
    pub proof fn lemma_damage_at_least_one(
        attacker: Unit,
        attacker_stats: CombatStats,
        defender: Unit,
        defender_stats: CombatStats,
    )
        ensures
            Self::damage(attacker, attacker_stats, defender, defender_stats) >= 1
                <==> Self::scaled_damage(attacker, attacker_stats, defender, defender_stats)
                >= DAMAGE_DIVISOR,
            attacker.morale >= MORALE_MAX ==> Self::damage(
                attacker,
                attacker_stats,
                defender,
                defender_stats,
            ) >= 1,
    {
        let raw = Self::raw_damage(attacker, attacker_stats, defender, defender_stats);
        if attacker.morale >= MORALE_MAX {
            assert(raw * attacker.morale >= DAMAGE_FLOOR * MORALE_MAX) by (nonlinear_arith)
                requires
                    raw >= DAMAGE_FLOOR,
                    attacker.morale >= MORALE_MAX,
            ;
        }
    }

    /// An attacker without morale deals no damage, whatever its strength.
    pub proof fn lemma_no_morale_no_damage(
        attacker: Unit,
        attacker_stats: CombatStats,
        defender: Unit,
        defender_stats: CombatStats,
    )
        requires
            attacker.morale == 0,
        ensures
            Self::damage(attacker, attacker_stats, defender, defender_stats) == 0,
    {
    }

    /// Damage that `attacker` deals to `defender`.
    pub fn calculate_damage(
        attacker: &Unit,
        attacker_stats: &CombatStats,
        defender: &Unit,
        defender_stats: &CombatStats,
    ) -> (dealt: u32)
        ensures
            dealt == Self::damage(*attacker, *attacker_stats, *defender, *defender_stats),
    {
        let attack_mods = attacker.formation.get_modifiers();
        let defense_mods = defender.formation.get_modifiers();
        assert(attacker_stats.attack * attack_mods.attack_modifier <= 0xFFFF_FFFF * 0xFFFF_FFFF)
            by (nonlinear_arith)
            requires
                attacker_stats.attack <= 0xFFFF_FFFF,
                attack_mods.attack_modifier <= 0xFFFF_FFFF,
        ;
        assert(defender_stats.defense * defense_mods.defense_modifier <= 0xFFFF_FFFF * 0xFFFF_FFFF)
            by (nonlinear_arith)
            requires
                defender_stats.defense <= 0xFFFF_FFFF,
                defense_mods.defense_modifier <= 0xFFFF_FFFF,
        ;
        let modified_attack: u64 = attacker_stats.attack as u64 * attack_mods.attack_modifier as u64;
        let modified_defense: u64 = defender_stats.defense as u64
            * defense_mods.defense_modifier as u64;
        let raw: u64 = if modified_attack > modified_defense && modified_attack - modified_defense
            > DAMAGE_FLOOR {
            modified_attack - modified_defense
        } else {
            DAMAGE_FLOOR
        };
        assert(raw * attacker.morale <= 0xFFFF_FFFF_FFFF_FFFF * 0xFFFF_FFFF) by (nonlinear_arith)
            requires
                raw <= 0xFFFF_FFFF_FFFF_FFFF,
                attacker.morale <= 0xFFFF_FFFF,
        ;
        let scaled: u128 = raw as u128 * attacker.morale as u128;
        let whole: u128 = scaled / DAMAGE_DIVISOR;
        if whole > u32::MAX as u128 {
            u32::MAX
        } else {
            whole as u32
        }
    }

    /// Removes `casualties` soldiers from `unit`, none below zero, and lowers
    /// its morale by the share of the maximum roster that fell.
    pub fn apply_casualties(unit: &mut Unit, casualties: u32)
        ensures
            final(unit).count == Self::count_after(old(unit).count as int, casualties as int),
            final(unit).morale == Self::morale_after(
                old(unit).morale as int,
                casualties as int,
                old(unit).max_count as int,
            ),
            *final(unit) == (Unit {
                count: final(unit).count,
                morale: final(unit).morale,
                ..*old(unit)
            }),
            old(unit).wf() ==> final(unit).wf(),
    {
        unit.count = if casualties >= unit.count {
            0
        } else {
            unit.count - casualties
        };
        if unit.max_count == 0 {
            unit.morale = 0;
        } else {
            assert(casualties * 20_000 <= 0xFFFF_FFFF * 20_000) by (nonlinear_arith)
                requires
                    casualties <= 0xFFFF_FFFF,
            ;
            let loss: u64 = casualties as u64 * MORALE_LOSS_FULL_ROSTER / unit.max_count as u64;
            unit.morale = if loss >= unit.morale as u64 {
                0
            } else {
                unit.morale - loss as u32
            };
        }
    }

    /// Whether every unit of `units` is out of action, so that the battle
    /// is decided against their side.
    pub fn side_broken(units: &[&Unit]) -> (broken: bool)
        ensures
            broken == Self::broken(units@),
    {
        let mut i: usize = 0;
        while i < units.len()
            invariant
                i <= units@.len(),
                forall|k: int| 0 <= k < i ==> Self::out_of_action(*#[trigger] units@[k]),
            decreases units@.len() - i,
        {
            if units[i].count != 0 && !Self::check_rout(units[i]) {
                assert(!Self::out_of_action(*units@[i as int]));
                return false;
            }
            i += 1;
        }
        true
    }

    /// Whether `unit` has broken: see [`CombatSystem::routs`].
    pub fn check_rout(unit: &Unit) -> (broken: bool)
        ensures
            broken == Self::routs(*unit),
    {
        unit.morale < ROUT_MORALE || 10 * (unit.count as u64) < unit.max_count as u64
    }
}

} // verus!
