use dot_wars::buildings::{BuildingType, TerrainType};
use dot_wars::resources::Resources;

fn ledger(gold: i32, food: i32, materials: i32, manpower: i32) -> Resources {
    Resources { gold, food, materials, manpower }
}

#[test]
fn terrain_movement_cost_table() {
    assert_eq!(TerrainType::Plains.movement_cost(), 1000);
    assert_eq!(TerrainType::Forest.movement_cost(), 1500);
    assert_eq!(TerrainType::Mountains.movement_cost(), 2000);
    assert_eq!(TerrainType::Desert.movement_cost(), 1800);
    assert_eq!(TerrainType::Swamp.movement_cost(), 2500);
    assert_eq!(TerrainType::Coast.movement_cost(), 1000);
}

#[test]
fn terrain_defense_bonus_table() {
    assert_eq!(TerrainType::Plains.defense_bonus(), 0);
    assert_eq!(TerrainType::Forest.defense_bonus(), 200);
    assert_eq!(TerrainType::Mountains.defense_bonus(), 500);
    assert_eq!(TerrainType::Desert.defense_bonus(), 100);
    assert_eq!(TerrainType::Swamp.defense_bonus(), 300);
    assert_eq!(TerrainType::Coast.defense_bonus(), 0);
}

#[test]
fn construction_cost_at_level_one() {
    assert_eq!(BuildingType::City.construction_cost(1), ledger(500, 500, 300, 100));
    assert_eq!(BuildingType::Farm.construction_cost(1), ledger(200, 500, 100, 100));
    assert_eq!(BuildingType::Mine.construction_cost(1), ledger(300, 500, 200, 100));
    assert_eq!(BuildingType::Barracks.construction_cost(1), ledger(400, 500, 250, 100));
    assert_eq!(BuildingType::Workshop.construction_cost(1), ledger(350, 500, 400, 100));
    assert_eq!(BuildingType::Fort.construction_cost(1), ledger(600, 500, 500, 100));
    assert_eq!(BuildingType::Port.construction_cost(1), ledger(800, 500, 400, 100));
    assert_eq!(BuildingType::Temple.construction_cost(1), ledger(450, 500, 200, 100));
}

#[test]
fn construction_cost_grows_with_the_level() {
    assert_eq!(BuildingType::Port.construction_cost(0), ledger(0, 0, 0, 0));
    assert_eq!(BuildingType::Port.construction_cost(3), ledger(2400, 1500, 1200, 300));
    assert_eq!(
        BuildingType::Port.construction_cost(2_684_354),
        ledger(2_147_483_200, 1_342_177_000, 1_073_741_600, 268_435_400)
    );
}

#[test]
fn income_at_level_one() {
    assert_eq!(BuildingType::City.resource_income(1), ledger(50, 0, 0, 0));
    assert_eq!(BuildingType::Farm.resource_income(1), ledger(0, 100, 0, 0));
    assert_eq!(BuildingType::Mine.resource_income(1), ledger(0, 0, 80, 0));
    assert_eq!(BuildingType::Barracks.resource_income(1), ledger(0, 0, 0, 20));
    assert_eq!(BuildingType::Workshop.resource_income(1), ledger(30, 0, 20, 0));
    assert_eq!(BuildingType::Fort.resource_income(1), ledger(0, 0, 0, 0));
    assert_eq!(BuildingType::Port.resource_income(1), ledger(80, 0, 0, 0));
    assert_eq!(BuildingType::Temple.resource_income(1), ledger(20, 0, 0, 0));
}

#[test]
fn income_grows_with_the_level() {
    assert_eq!(BuildingType::Farm.resource_income(2), ledger(0, 200, 0, 0));
    assert_eq!(BuildingType::Workshop.resource_income(7), ledger(210, 0, 140, 0));
    assert_eq!(BuildingType::Fort.resource_income(u32::MAX), ledger(0, 0, 0, 0));
    assert_eq!(BuildingType::Farm.resource_income(21_474_836), ledger(0, 2_147_483_600, 0, 0));
}
