use dot_wars::battle::{Battle, BattlePhase, Battlefield, TerrainEffect, TerrainEffectType};
use dot_wars::game::{Faction, GameState};
use dot_wars::geometry::Position;
use dot_wars::ids::{FactionId, UnitId};

fn battle() -> Battle {
    let field = Battlefield {
        width: 800_000,
        height: 600_000,
        terrain_effects: vec![TerrainEffect {
            position: Position::new(100_000, 100_000),
            radius: 50_000,
            effect_type: TerrainEffectType::HighGround { defense_bonus: 200 },
        }],
    };
    Battle::new(
        String::from("first"),
        FactionId(1),
        FactionId(2),
        vec![UnitId(10), UnitId(11)],
        vec![UnitId(20)],
        field,
    )
}

#[test]
fn new_battle_is_being_deployed() {
    let b = battle();
    assert_eq!(b.phase, BattlePhase::Deployment);
    assert_eq!(b.turn, 0);
    assert_eq!(b.id, "first");
    assert_eq!((b.attacker, b.defender), (FactionId(1), FactionId(2)));
    assert_eq!(b.attacker_units, vec![UnitId(10), UnitId(11)]);
    assert_eq!(b.defender_units, vec![UnitId(20)]);
    assert_eq!(b.battlefield.terrain_effects.len(), 1);
}

#[test]
fn phases_follow_one_another() {
    let mut b = battle();
    assert!(b.begin_combat());
    assert_eq!(b.phase, BattlePhase::Combat);
    assert!(b.complete_round());
    assert!(b.complete_round());
    assert_eq!(b.turn, 2);
    assert!(b.resolve());
    assert_eq!(b.phase, BattlePhase::Resolved);
    assert_eq!(b.turn, 2);
}

#[test]
fn no_phase_is_skipped() {
    let mut b = battle();
    let before = b.clone();
    assert!(!b.resolve());
    assert!(!b.complete_round());
    assert_eq!(b, before);
}

#[test]
fn combat_does_not_begin_twice() {
    let mut b = battle();
    assert!(b.begin_combat());
    assert!(b.complete_round());
    let before = b.clone();
    assert!(!b.begin_combat());
    assert_eq!(b, before);
}

#[test]
fn a_resolved_battle_stays_as_it_is() {
    let mut b = battle();
    assert!(b.begin_combat());
    assert!(b.complete_round());
    assert!(b.resolve());
    let before = b.clone();
    assert!(!b.begin_combat());
    assert!(!b.complete_round());
    assert!(!b.resolve());
    assert_eq!(b, before);
}

#[test]
fn the_game_starts_in_the_main_menu() {
    assert_eq!(GameState::default(), GameState::MainMenu);
}

#[test]
fn a_faction_has_a_name_and_a_colour() {
    let red = Faction { id: FactionId(1), name: String::from("Red"), color: 0xFF00_00FF };
    assert_eq!(red.clone(), red);
    assert_eq!(red.color >> 24, 0xFF);
}

#[test]
fn no_step_goes_back_or_skips_a_phase() {
    fn rank(phase: BattlePhase) -> u32 {
        match phase {
            BattlePhase::Deployment => 0,
            BattlePhase::Combat => 1,
            BattlePhase::Resolved => 2,
        }
    }
    let steps: [fn(&mut Battle) -> bool; 3] =
        [Battle::begin_combat, Battle::complete_round, Battle::resolve];
    for first in steps {
        for second in steps {
            for third in steps {
                let mut b = battle();
                for step in [first, second, third] {
                    let before = b.clone();
                    step(&mut b);
                    assert!(rank(before.phase) <= rank(b.phase));
                    assert!(rank(b.phase) <= rank(before.phase) + 1);
                    assert!(before.turn <= b.turn);
                    if before.phase == BattlePhase::Resolved {
                        assert_eq!(b, before);
                    }
                }
            }
        }
    }
}
