//! Lays out a fresh world: provinces on a grid, each with a city, none
//! owned yet.

use vstd::prelude::*;
use crate::buildings::{Building, BuildingType, TerrainType};
use crate::geometry::Position;
use crate::ids::{FactionId, ProvinceId};
use crate::resources::Resources;
use crate::world::{Province, WorldMap, WorldView};

verus! {

/// The most provinces a world can be generated with: beyond it the
/// population of the last province would not fit its field.
pub const MAX_PROVINCES: u32 = 8_589_933;

/// The distance between neighbouring grid points: 100.0, in thousandths.
pub const GRID_STEP: i64 = 100_000;

/// The character for the digit `d`.
pub open spec fn digit(d: nat) -> char {
    if d == 0 {
        '0'
    } else if d == 1 {
        '1'
    } else if d == 2 {
        '2'
    } else if d == 3 {
        '3'
    } else if d == 4 {
        '4'
    } else if d == 5 {
        '5'
    } else if d == 6 {
        '6'
    } else if d == 7 {
        '7'
    } else if d == 8 {
        '8'
    } else {
        '9'
    }
}

/// `n` written in decimal, without leading zeros.
pub open spec fn decimal(n: nat) -> Seq<char>
    decreases n,
{
    if n < 10 {
        seq![digit(n)]
    } else {
        decimal(n / 10).push(digit(n % 10))
    }
}

/// The name of the province with the number `number`: the word
/// `Province`, a space, and the number in decimal.
pub open spec fn province_label(number: nat) -> Seq<char> {
    "Province "@ + decimal(number)
}

/// Writes `number` in decimal with `format!`.
///
/// Trusted: `{}` prints a `u32` in decimal, without sign, padding or
/// leading zeros.
#[verifier::external_body]
fn decimal_text(number: u32) -> (text: String)
    ensures
        text@ == decimal(number as nat),
{
    format!("{}", number)
}

/// The name of the province with the number `number`.
fn province_name(number: u32) -> (name: String)
    ensures
        name@ == province_label(number as nat),
{
    String::from_str("Province ").concat(decimal_text(number).as_str())
}

/// Generates worlds.
pub struct WorldGenerator;

impl WorldGenerator {
    /// The terrain that the seed `seed` stands for: the six kinds in turn.
    pub open spec fn terrain_for(seed: int) -> TerrainType {
        let kind = seed % 6;
        if kind == 0 {
            TerrainType::Plains
        } else if kind == 1 {
            TerrainType::Forest
        } else if kind == 2 {
            TerrainType::Mountains
        } else if kind == 3 {
            TerrainType::Desert
        } else if kind == 4 {
            TerrainType::Swamp
        } else {
            TerrainType::Coast
        }
    }

    /// Whether `province` is what the generator lays out at place `index`
    /// of a grid `width` wide: named by its number, counted from 1; owned by
    /// nobody; `index % width` steps to the right and `index / width` steps
    /// down; peopled by 1000 and 500 more for each place before it; with
    /// the starting stock, one finished city of level 1, no neighbours, and
    /// the terrain of its index.
    pub open spec fn is_generated(province: Province, index: int, width: int) -> bool {
        &&& province.name@ == province_label((index + 1) as nat)
        &&& province.owner is None
        &&& province.position.x == (index % width) * 100_000
        &&& province.position.y == (index / width) * 100_000
        &&& province.population == 1000 + index * 500
        &&& province.resources@ == Resources::starting_stock()
        &&& province.buildings@ == seq![
            Building { building_type: BuildingType::City, level: 1, construction_progress: 1000 },
        ]
        &&& province.adjacent_provinces@ == Seq::<ProvinceId>::empty()
        &&& province.terrain_type == Self::terrain_for(index)
    }

    /// Whether `provinces` are what the generator lays out on a grid
    /// `width` wide, place by place from the first.
    pub open spec fn is_layout(provinces: Seq<Province>, width: int) -> bool {
        forall|i: int|
            0 <= i < provinces.len() ==> Self::is_generated(#[trigger] provinces[i], i, width)
    }

    /// Whether `provinces` are the layout of a grid `width` wide under the
    /// identifiers `ids`, one for each place.
    pub open spec fn is_layout_under(
        provinces: Seq<Province>,
        ids: Seq<ProvinceId>,
        width: int,
    ) -> bool {
        &&& provinces.len() == ids.len()
        &&& Self::is_layout(provinces, width)
        &&& forall|i: int| 0 <= i < provinces.len() ==> (#[trigger] provinces[i]).id == ids[i]
    }

    /// A layout is owned by nobody.
    pub proof fn lemma_layout_unowned(provinces: Seq<Province>, width: int)
        requires
            Self::is_layout(provinces, width),
        ensures
            WorldView::unowned(provinces),
    {
        assert forall|i: int| 0 <= i < provinces.len() implies (
        #[trigger] provinces[i]).owner is None by {
            assert(Self::is_generated(provinces[i], i, width));
        }
    }

    /// Where no identifier comes twice, the world laid out under `ids`
    /// holds exactly one province for each place: as many provinces as
    /// identifiers, and under each identifier the province that the
    /// generator lays out at its place. Nobody owns any of them.
    pub proof fn lemma_distinct_ids_fill_the_map(
        provinces: Seq<Province>,
        ids: Seq<ProvinceId>,
        width: int,
    )
        requires
            Self::is_layout_under(provinces, ids, width),
            ids.no_duplicates(),
        ensures
            WorldView::empty().laid_out(provinces).wf(),
            WorldView::empty().laid_out(provinces).territories == Map::<
                FactionId,
                Seq<ProvinceId>,
            >::empty(),
            WorldView::empty().laid_out(provinces).provinces.dom().finite(),
            WorldView::empty().laid_out(provinces).provinces.dom().len() == ids.len(),
            forall|i: int|
                0 <= i < ids.len() ==> {
                    let stored = WorldView::empty().laid_out(provinces).provinces;
                    &&& stored.contains_key(#[trigger] ids[i])
                    &&& stored[ids[i]].id == ids[i]
                    &&& Self::is_generated(stored[ids[i]], i, width)
                },
    {
        assert(WorldView::distinct_ids(provinces)) by {
            assert forall|i: int, j: int| 0 <= i < j < provinces.len() implies (
            #[trigger] provinces[i]).id != (#[trigger] provinces[j]).id by {
                assert(ids[i] != ids[j]);
            }
        }
        WorldView::lemma_laid_out_distinct(provinces);
        Self::lemma_layout_unowned(provinces, width);
        WorldView::lemma_laid_out_unowned(provinces);
        let stored = WorldView::empty().laid_out(provinces).provinces;
        assert forall|i: int| 0 <= i < ids.len() implies {
            &&& stored.contains_key(#[trigger] ids[i])
            &&& stored[ids[i]].id == ids[i]
            &&& Self::is_generated(stored[ids[i]], i, width)
        } by {
            assert(provinces[i].id == ids[i]);
            assert(Self::is_generated(provinces[i], i, width));
        }
    }

    /// The terrain for `seed`.
    pub fn random_terrain_type(seed: u32) -> (terrain: TerrainType)
        ensures
            terrain == Self::terrain_for(seed as int),
    {
        let kind: u32 = seed % 6;
        if kind == 0 {
            TerrainType::Plains
        } else if kind == 1 {
            TerrainType::Forest
        } else if kind == 2 {
            TerrainType::Mountains
        } else if kind == 3 {
            TerrainType::Desert
        } else if kind == 4 {
            TerrainType::Swamp
        } else {
            TerrainType::Coast
        }
    }

    /// The province at place `index` of a grid `width` wide, under the
    /// identifier `id`.
    pub fn province_at(index: u32, width: u32, id: ProvinceId) -> (province: Province)
        requires
            width > 0,
            index < MAX_PROVINCES,
        ensures
            province.id == id,
            Self::is_generated(province, index as int, width as int),
            forall|i: int|
                0 <= i < province.buildings@.len() ==> (#[trigger] province.buildings@[i]).wf(),
    {
        let column: u32 = index % width;
        let row: u32 = index / width;
        let mut buildings: Vec<Building> = Vec::new();
        buildings.push(
            Building { building_type: BuildingType::City, level: 1, construction_progress: 1000 },
        );
        Province {
            id,
            name: province_name(index + 1),
            owner: None,
            position: Position::new(column as i64 * GRID_STEP, row as i64 * GRID_STEP),
            population: 1000 + index * 500,
            resources: Resources::new(),
            buildings,
            adjacent_provinces: Vec::new(),
            terrain_type: Self::random_terrain_type(index),
        }
    }

    /// A world of one province for each of `ids`, laid out row by row on a
    /// grid `width` wide: the province at a place is stored under the
    /// identifier at that place of `ids`. Where an identifier comes twice,
    /// the later province replaces the earlier one.
    pub fn generate_world_with_ids(width: u32, ids: &[ProvinceId]) -> (map: WorldMap)
        requires
            ids@.len() > 0 ==> width > 0,
            ids@.len() <= MAX_PROVINCES,
        ensures
            exists|provinces: Seq<Province>|
                Self::is_layout_under(provinces, ids@, width as int) && map@
                    == #[trigger] WorldView::empty().laid_out(provinces),
    {
        let mut world_map = WorldMap::new();
        let ghost mut laid: Seq<Province> = Seq::empty();
        let mut i: usize = 0;
        while i < ids.len()
            invariant
                i <= ids@.len() <= MAX_PROVINCES,
                ids@.len() > 0 ==> width > 0,
                Self::is_layout_under(laid, ids@.take(i as int), width as int),
                world_map@ == WorldView::empty().laid_out(laid),
            decreases ids@.len() - i,
        {
            let province = Self::province_at(i as u32, width, ids[i]);
            proof {
                let longer = laid.push(province);
                assert(longer.drop_last() =~= laid);
                assert(Self::is_layout_under(longer, ids@.take(i as int + 1), width as int)) by {
                    assert forall|k: int| 0 <= k < longer.len() implies Self::is_generated(
                        #[trigger] longer[k],
                        k,
                        width as int,
                    ) && longer[k].id == ids@.take(i as int + 1)[k] by {
                        if k < i {
                            assert(longer[k] == laid[k]);
                            assert(laid[k].id == ids@.take(i as int)[k]);
                        }
                    }
                }
                laid = longer;
            }
            world_map.add_province(province);
            i += 1;
        }
        proof {
            assert(ids@.take(i as int) =~= ids@);
        }
        world_map
    }

    /// A world of `num_provinces` provinces laid out row by row on a grid
    /// `width` wide, each under a fresh random identifier: the layout that
    /// [`WorldGenerator::generate_world_with_ids`] makes of the identifiers
    /// drawn. `height` is not used: the grid has as many rows as the
    /// provinces fill. Should two identifiers coincide, the later province
    /// replaces the earlier one, and the map holds fewer provinces than
    /// were asked for.
    pub fn generate_world(width: u32, height: u32, num_provinces: u32) -> (map: WorldMap)
        requires
            num_provinces > 0 ==> width > 0,
            num_provinces <= MAX_PROVINCES,
        ensures
            exists|provinces: Seq<Province>|
                provinces.len() == num_provinces && Self::is_layout(provinces, width as int)
                    && map@ == #[trigger] WorldView::empty().laid_out(provinces),
            map@.wf(),
            map@.territories == Map::<FactionId, Seq<ProvinceId>>::empty(),
            map@.provinces.dom().finite(),
            map@.provinces.dom().len() <= num_provinces,
            forall|id: ProvinceId| #[trigger]
                map@.provinces.contains_key(id) ==> exists|index: int|
                    0 <= index < num_provinces && #[trigger] Self::is_generated(
                        map@.provinces[id],
                        index,
                        width as int,
                    ),
            num_provinces > 0 ==> exists|id: ProvinceId| #[trigger]
                map@.provinces.contains_key(id) && Self::is_generated(
                    map@.provinces[id],
                    num_provinces - 1,
                    width as int,
                ),
    {
        let mut ids: Vec<ProvinceId> = Vec::new();
        let mut i: u32 = 0;
        while i < num_provinces
            invariant
                i <= num_provinces,
                ids@.len() == i,
            decreases num_provinces - i,
        {
            ids.push(ProvinceId::default());
            i += 1;
        }
        let world_map = Self::generate_world_with_ids(width, ids.as_slice());
        proof {
            let provinces = choose|provinces: Seq<Province>|
                Self::is_layout_under(provinces, ids@, width as int) && world_map@
                    == #[trigger] WorldView::empty().laid_out(provinces);
            Self::lemma_layout_unowned(provinces, width as int);
            WorldView::lemma_laid_out(provinces);
            WorldView::lemma_laid_out_unowned(provinces);
            assert forall|id: ProvinceId| #[trigger]
                world_map@.provinces.contains_key(id) implies exists|index: int|
                0 <= index < num_provinces && #[trigger] Self::is_generated(
                    world_map@.provinces[id],
                    index,
                    width as int,
                ) by {
                let index = choose|index: int|
                    0 <= index < provinces.len() && (#[trigger] provinces[index]).id == id
                        && world_map@.provinces[id] == provinces[index];
                assert(Self::is_generated(provinces[index], index, width as int));
            }
            if num_provinces > 0 {
                assert(Self::is_generated(
                    provinces[num_provinces - 1],
                    num_provinces - 1,
                    width as int,
                ));
                assert(world_map@.provinces.contains_key(provinces.last().id));
            }
        }
        world_map
    }
}

} // verus!
