use dot_wars::buildings::{Building, BuildingType, TerrainType};
use dot_wars::geometry::Position;
use dot_wars::ids::{FactionId, ProvinceId};
use dot_wars::resources::Resources;
use dot_wars::world::{Province, WorldMap};

fn building(building_type: BuildingType, level: u32) -> Building {
    Building { building_type, level, construction_progress: 1000 }
}

fn province(id: u128, owner: Option<u128>, buildings: Vec<Building>) -> Province {
    Province {
        id: ProvinceId(id),
        name: format!("P{}", id),
        owner: owner.map(FactionId),
        position: Position::new(0, 0),
        population: 1000,
        resources: Resources::new(),
        buildings,
        adjacent_provinces: Vec::new(),
        terrain_type: TerrainType::Plains,
    }
}

fn ids(provinces: &[&Province]) -> Vec<u128> {
    provinces.iter().map(|p| p.id.0).collect()
}

#[test]
fn new_map_is_empty() {
    let map = WorldMap::new();
    assert!(map.provinces.is_empty());
    assert!(map.faction_territories.is_empty());
    assert!(map.get_province(ProvinceId(1)).is_none());
    assert!(map.get_faction_provinces(FactionId(1)).is_empty());
    let map = WorldMap::default();
    assert!(map.provinces.is_empty());
    assert!(map.faction_territories.is_empty());
}

#[test]
fn added_province_is_found_by_id() {
    let mut map = WorldMap::new();
    map.add_province(province(7, None, vec![]));
    let found = map.get_province(ProvinceId(7));
    assert_eq!(found, Some(&province(7, None, vec![])));
    assert!(map.get_province(ProvinceId(8)).is_none());
    assert!(map.faction_territories.is_empty());
}

#[test]
fn adding_under_a_held_id_replaces_the_province() {
    let mut map = WorldMap::new();
    map.add_province(province(7, None, vec![]));
    map.add_province(province(7, None, vec![building(BuildingType::Mine, 1)]));
    assert_eq!(map.provinces.len(), 1);
    assert_eq!(map.get_province(ProvinceId(7)).map(|p| p.buildings.len()), Some(1));
}

#[test]
fn owned_province_round_trip() {
    let mut map = WorldMap::new();
    let mine = province(7, Some(1), vec![building(BuildingType::Farm, 1)]);
    map.add_province(mine.clone());
    let held = map.get_faction_provinces(FactionId(1));
    assert_eq!(held, vec![&mine]);
    assert!(map.get_faction_provinces(FactionId(2)).is_empty());

    assert!(map.transfer_province(ProvinceId(7), Some(FactionId(2))));
    assert!(map.get_faction_provinces(FactionId(1)).is_empty());
    let held = map.get_faction_provinces(FactionId(2));
    assert_eq!(ids(&held), vec![7]);
    assert_eq!(held[0].owner, Some(FactionId(2)));
    assert_eq!(held[0].buildings, mine.buildings);
    assert_eq!(held[0].name, mine.name);
}

#[test]
fn provinces_come_in_the_order_they_were_added() {
    let mut map = WorldMap::new();
    map.add_province(province(3, Some(1), vec![]));
    map.add_province(province(1, Some(1), vec![]));
    map.add_province(province(9, Some(2), vec![]));
    map.add_province(province(2, Some(1), vec![]));
    assert_eq!(ids(&map.get_faction_provinces(FactionId(1))), vec![3, 1, 2]);
    assert_eq!(ids(&map.get_faction_provinces(FactionId(2))), vec![9]);
}

#[test]
fn stale_territory_entries_are_passed_over() {
    let mut map = WorldMap::new();
    map.add_province(province(3, Some(1), vec![]));
    map.add_province(province(4, Some(1), vec![]));
    map.provinces.remove(&3);
    assert_eq!(ids(&map.get_faction_provinces(FactionId(1))), vec![4]);
    map.faction_territories.insert(5, vec![ProvinceId(77), ProvinceId(78)]);
    assert!(map.get_faction_provinces(FactionId(5)).is_empty());
    assert_eq!(
        map.calculate_faction_income(FactionId(5)),
        Resources { gold: 0, food: 0, materials: 0, manpower: 0 }
    );
}

#[test]
fn province_changed_in_place() {
    let mut map = WorldMap::new();
    map.add_province(province(3, Some(1), vec![]));
    match map.get_province_mut(ProvinceId(3)) {
        Some(found) => {
            found.population = 4242;
            found.buildings.push(building(BuildingType::Temple, 2));
        }
        None => panic!("the province was added"),
    }
    let found = map.get_province(ProvinceId(3)).unwrap();
    assert_eq!(found.population, 4242);
    assert_eq!(found.buildings, vec![building(BuildingType::Temple, 2)]);
    assert!(map.get_province_mut(ProvinceId(4)).is_none());
    assert_eq!(map.provinces.len(), 1);
    assert_eq!(ids(&map.get_faction_provinces(FactionId(1))), vec![3]);
}

#[test]
fn transfer_of_unknown_province_changes_nothing() {
    let mut map = WorldMap::new();
    map.add_province(province(3, Some(1), vec![]));
    assert!(!map.transfer_province(ProvinceId(4), Some(FactionId(2))));
    assert_eq!(ids(&map.get_faction_provinces(FactionId(1))), vec![3]);
    assert!(map.get_faction_provinces(FactionId(2)).is_empty());
    assert_eq!(map.provinces.len(), 1);
}

#[test]
fn transfer_keeps_the_other_provinces_of_both_factions() {
    let mut map = WorldMap::new();
    map.add_province(province(1, Some(1), vec![]));
    map.add_province(province(2, Some(1), vec![]));
    map.add_province(province(3, Some(1), vec![]));
    map.add_province(province(4, Some(2), vec![]));
    assert!(map.transfer_province(ProvinceId(2), Some(FactionId(2))));
    assert_eq!(ids(&map.get_faction_provinces(FactionId(1))), vec![1, 3]);
    assert_eq!(ids(&map.get_faction_provinces(FactionId(2))), vec![4, 2]);
    assert_eq!(map.get_province(ProvinceId(2)).unwrap().owner, Some(FactionId(2)));
}

#[test]
fn transfer_to_nobody_and_from_nobody() {
    let mut map = WorldMap::new();
    map.add_province(province(1, Some(1), vec![]));
    map.add_province(province(2, None, vec![]));
    assert!(map.transfer_province(ProvinceId(1), None));
    assert!(map.get_faction_provinces(FactionId(1)).is_empty());
    assert_eq!(map.get_province(ProvinceId(1)).unwrap().owner, None);
    assert!(map.transfer_province(ProvinceId(2), Some(FactionId(1))));
    assert_eq!(ids(&map.get_faction_provinces(FactionId(1))), vec![2]);
}

#[test]
fn one_level_two_farm_yields_two_hundred_food() {
    let mut map = WorldMap::new();
    map.add_province(province(1, Some(1), vec![building(BuildingType::Farm, 2)]));
    assert_eq!(
        map.calculate_faction_income(FactionId(1)),
        Resources { gold: 0, food: 200, materials: 0, manpower: 0 }
    );
}

#[test]
fn income_sums_every_building_of_every_owned_province() {
    let mut map = WorldMap::new();
    map.add_province(province(
        1,
        Some(1),
        vec![building(BuildingType::City, 3), building(BuildingType::Workshop, 2)],
    ));
    map.add_province(province(
        2,
        Some(1),
        vec![
            building(BuildingType::Mine, 1),
            building(BuildingType::Barracks, 4),
            building(BuildingType::Fort, 9),
        ],
    ));
    map.add_province(province(3, Some(2), vec![building(BuildingType::Port, 5)]));
    map.add_province(province(4, None, vec![building(BuildingType::Temple, 5)]));
    assert_eq!(
        map.calculate_faction_income(FactionId(1)),
        Resources { gold: 210, food: 0, materials: 120, manpower: 80 }
    );
    assert_eq!(
        map.calculate_faction_income(FactionId(2)),
        Resources { gold: 400, food: 0, materials: 0, manpower: 0 }
    );
    assert_eq!(
        map.calculate_faction_income(FactionId(3)),
        Resources { gold: 0, food: 0, materials: 0, manpower: 0 }
    );
}

#[test]
fn income_does_not_depend_on_the_order_of_provinces() {
    let farms = province(1, Some(1), vec![building(BuildingType::Farm, 2)]);
    let mines = province(2, Some(1), vec![building(BuildingType::Mine, 3)]);
    let mut one = WorldMap::new();
    one.add_province(farms.clone());
    one.add_province(mines.clone());
    let mut other = WorldMap::new();
    other.add_province(mines);
    other.add_province(farms);
    assert_eq!(
        one.calculate_faction_income(FactionId(1)),
        other.calculate_faction_income(FactionId(1))
    );
}

#[test]
fn income_is_applied_to_a_stock() {
    let mut map = WorldMap::new();
    map.add_province(province(1, Some(1), vec![building(BuildingType::Farm, 2)]));
    let mut stock = Resources::new();
    stock.add(&map.calculate_faction_income(FactionId(1)));
    assert_eq!(stock, Resources { gold: 1000, food: 700, materials: 300, manpower: 100 });
}
