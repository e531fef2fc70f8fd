use dot_wars::buildings::{Building, BuildingType, TerrainType};
use dot_wars::generator::{WorldGenerator, MAX_PROVINCES};
use dot_wars::ids::{FactionId, ProvinceId, TechnologyId, UnitId};
use dot_wars::resources::Resources;
use dot_wars::world::Province;

fn has_uuid_layout(bits: u128) -> bool {
    let id = uuid::Uuid::from_u128(bits);
    id.get_version_num() == 4 && id.get_variant() == uuid::Variant::RFC4122
}

#[test]
fn fresh_identifiers_are_random_uuids() {
    assert!(has_uuid_layout(FactionId::default().0));
    assert!(has_uuid_layout(ProvinceId::default().0));
    assert!(has_uuid_layout(UnitId::default().0));
    assert!(has_uuid_layout(TechnologyId::default().0));
    assert_ne!(ProvinceId::default(), ProvinceId::default());
}

#[test]
fn terrain_follows_the_seed() {
    assert_eq!(WorldGenerator::random_terrain_type(0), TerrainType::Plains);
    assert_eq!(WorldGenerator::random_terrain_type(1), TerrainType::Forest);
    assert_eq!(WorldGenerator::random_terrain_type(2), TerrainType::Mountains);
    assert_eq!(WorldGenerator::random_terrain_type(3), TerrainType::Desert);
    assert_eq!(WorldGenerator::random_terrain_type(4), TerrainType::Swamp);
    assert_eq!(WorldGenerator::random_terrain_type(5), TerrainType::Coast);
    assert_eq!(WorldGenerator::random_terrain_type(6), TerrainType::Plains);
    assert_eq!(WorldGenerator::random_terrain_type(u32::MAX), TerrainType::Desert);
}

#[test]
fn province_at_a_place_of_the_grid() {
    let p = WorldGenerator::province_at(7, 3, ProvinceId(99));
    assert_eq!(p.id, ProvinceId(99));
    assert_eq!(p.name, "Province 8");
    assert_eq!(p.owner, None);
    assert_eq!((p.position.x, p.position.y), (100_000, 200_000));
    assert_eq!(p.population, 4500);
    assert_eq!(p.resources, Resources::new());
    assert_eq!(
        p.buildings,
        vec![Building { building_type: BuildingType::City, level: 1, construction_progress: 1000 }]
    );
    assert!(p.adjacent_provinces.is_empty());
    assert_eq!(p.terrain_type, TerrainType::Forest);
}

#[test]
fn province_names_are_decimal_numbers() {
    assert_eq!(WorldGenerator::province_at(0, 1, ProvinceId(1)).name, "Province 1");
    assert_eq!(WorldGenerator::province_at(9, 1, ProvinceId(1)).name, "Province 10");
    assert_eq!(WorldGenerator::province_at(1_234_566, 1, ProvinceId(1)).name, "Province 1234567");
}

#[test]
fn last_place_of_the_largest_world() {
    let p = WorldGenerator::province_at(MAX_PROVINCES - 1, u32::MAX, ProvinceId(1));
    assert_eq!(p.population, 4_294_967_000);
    assert_eq!((p.position.x, p.position.y), (858_993_200_000, 0));
    assert_eq!(p.name, "Province 8589933");
}

#[test]
fn generated_world_lays_provinces_out_row_by_row() {
    let map = WorldGenerator::generate_world(4, 3, 10);
    assert_eq!(map.provinces.len(), 10);
    assert!(map.faction_territories.is_empty());
    for index in 0..10u32 {
        let name = format!("Province {}", index + 1);
        let found: Vec<_> = map.provinces.values().filter(|p| p.name == name).collect();
        assert_eq!(found.len(), 1);
        let p = found[0];
        assert_eq!(map.get_province(p.id), Some(p));
        assert!(has_uuid_layout(p.id.0));
        assert_eq!(p.owner, None);
        assert_eq!(p.position.x, (index % 4) as i64 * 100_000);
        assert_eq!(p.position.y, (index / 4) as i64 * 100_000);
        assert_eq!(p.population, 1000 + index * 500);
        assert_eq!(p.resources, Resources::new());
        assert_eq!(p.buildings.len(), 1);
        assert_eq!(p.buildings[0].building_type, BuildingType::City);
        assert_eq!(p.terrain_type, WorldGenerator::random_terrain_type(index));
    }
}

#[test]
fn generated_world_without_provinces() {
    let map = WorldGenerator::generate_world(0, 0, 0);
    assert!(map.provinces.is_empty());
    assert!(map.faction_territories.is_empty());
}

fn expected(index: u32, width: u32, id: u128) -> Province {
    WorldGenerator::province_at(index, width, ProvinceId(id))
}

#[test]
fn world_under_given_identifiers_has_one_province_for_each_place() {
    let ids = [ProvinceId(40), ProvinceId(10), ProvinceId(30), ProvinceId(20), ProvinceId(50)];
    let map = WorldGenerator::generate_world_with_ids(2, &ids);
    assert_eq!(map.provinces.len(), 5);
    assert!(map.faction_territories.is_empty());
    for (index, id) in ids.iter().enumerate() {
        let found = map.get_province(*id).unwrap();
        assert_eq!(found, &expected(index as u32, 2, id.0));
        assert_eq!(found.name, format!("Province {}", index + 1));
        assert_eq!(found.position.x, (index as i64 % 2) * 100_000);
        assert_eq!(found.position.y, (index as i64 / 2) * 100_000);
        assert_eq!(found.population, 1000 + 500 * index as u32);
    }
    let terrains: Vec<TerrainType> =
        ids.iter().map(|id| map.get_province(*id).unwrap().terrain_type).collect();
    assert_eq!(
        terrains,
        vec![
            TerrainType::Plains,
            TerrainType::Forest,
            TerrainType::Mountains,
            TerrainType::Desert,
            TerrainType::Swamp,
        ]
    );
}

#[test]
fn world_depends_on_identifiers_only_through_the_keys() {
    let one = WorldGenerator::generate_world_with_ids(3, &[ProvinceId(1), ProvinceId(2)]);
    let other = WorldGenerator::generate_world_with_ids(3, &[ProvinceId(8), ProvinceId(9)]);
    for (here, there) in [(1, 8), (2, 9)] {
        let mut a = one.get_province(ProvinceId(here)).unwrap().clone();
        let b = other.get_province(ProvinceId(there)).unwrap();
        a.id = b.id;
        assert_eq!(&a, b);
    }
}

#[test]
fn a_repeated_identifier_keeps_the_later_province() {
    let ids = [ProvinceId(1), ProvinceId(2), ProvinceId(1)];
    let map = WorldGenerator::generate_world_with_ids(4, &ids);
    assert_eq!(map.provinces.len(), 2);
    assert_eq!(map.get_province(ProvinceId(1)), Some(&expected(2, 4, 1)));
    assert_eq!(map.get_province(ProvinceId(2)), Some(&expected(1, 4, 2)));
}

#[test]
fn world_under_no_identifiers_is_empty() {
    let map = WorldGenerator::generate_world_with_ids(0, &[]);
    assert!(map.provinces.is_empty());
    assert!(map.faction_territories.is_empty());
}

#[test]
fn generated_buildings_are_finished_cities_of_level_one() {
    let map = WorldGenerator::generate_world(5, 5, 6);
    for province in map.provinces.values() {
        assert_eq!(province.buildings.len(), 1);
        for building in &province.buildings {
            assert!(building.level >= 1);
            assert_eq!(building.construction_progress, 1000);
        }
        assert!(province.adjacent_provinces.is_empty());
    }
}
