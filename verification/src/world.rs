//! Provinces and the world map: who owns what, and what it yields.

use vstd::prelude::*;
use std::collections::hash_map::Entry;
use std::collections::HashMap;
use crate::buildings::{Building, TerrainType};
use crate::geometry::Position;
use crate::ids::{FactionId, ProvinceId};
use crate::resources::{Ledger, Resources};

verus! {

broadcast use vstd::std_specs::hash::group_hash_axioms;

/// The unit of territory. `position` is in thousandths.
#[derive(Debug, Clone, PartialEq, Eq)]
pub struct Province {
    pub id: ProvinceId,
    pub name: String,
    pub owner: Option<FactionId>,
    pub position: Position,
    pub population: u32,
    pub resources: Resources,
    pub buildings: Vec<Building>,
    pub adjacent_provinces: Vec<ProvinceId>,
    pub terrain_type: TerrainType,
}

/// The yield of `buildings` taken together.
pub open spec fn buildings_income(buildings: Seq<Building>) -> Ledger
    decreases buildings.len(),
{
    if buildings.len() == 0 {
        Ledger::zero()
    } else {
        buildings_income(buildings.drop_last()).plus(buildings.last().income())
    }
}

/// The yield of all buildings of `provinces` taken together.
pub open spec fn provinces_income(provinces: Seq<Province>) -> Ledger
    decreases provinces.len(),
{
    if provinces.len() == 0 {
        Ledger::zero()
    } else {
        provinces_income(provinces.drop_last()).plus(buildings_income(provinces.last().buildings@))
    }
}

/// The mathematical value of a [`WorldMap`].
pub struct WorldView {
    /// The provinces by identifier.
    pub provinces: Map<ProvinceId, Province>,
    /// For each faction that has an entry, the provinces listed as its
    /// territory, in the order in which they were added.
    pub territories: Map<FactionId, Seq<ProvinceId>>,
}

impl WorldView {
    /// The provinces listed for `faction`; none where it has no entry.
    pub open spec fn territory(self, faction: FactionId) -> Seq<ProvinceId> {
        if self.territories.contains_key(faction) {
            self.territories[faction]
        } else {
            Seq::empty()
        }
    }

    /// The province that an identifier names, if the map has it.
    pub open spec fn lookup(self) -> spec_fn(ProvinceId) -> Option<Province> {
        |id: ProvinceId| self.provinces.get(id)
    }

    /// The provinces that `ids` name, in that order, leaving out each
    /// identifier that names no province of the map.
    pub open spec fn resolve(self, ids: Seq<ProvinceId>) -> Seq<Province> {
        ids.filter_map(self.lookup())
    }

    /// The provinces of `faction`: its territory, resolved.
    pub open spec fn faction_provinces(self, faction: FactionId) -> Seq<Province> {
        self.resolve(self.territory(faction))
    }

    /// What the buildings of `faction`'s provinces yield each turn.
    pub open spec fn faction_income(self, faction: FactionId) -> Ledger {
        provinces_income(self.faction_provinces(faction))
    }

    /// The map with `province` added: it is stored under its identifier,
    /// replacing what was there, and its identifier is appended to the
    /// territory of its owner, if it has one.
    pub open spec fn add_province(self, province: Province) -> WorldView {
        WorldView {
            provinces: self.provinces.insert(province.id, province),
            territories: match province.owner {
                Some(owner) => self.territories.insert(
                    owner,
                    self.territory(owner).push(province.id),
                ),
                None => self.territories,
            },
        }
    }

    /// The map without provinces and without territory lists.
    pub open spec fn empty() -> WorldView {
        WorldView { provinces: Map::empty(), territories: Map::empty() }
    }

    /// The map after `provinces` have been added one after the other, the
    /// first of them first.
    pub open spec fn laid_out(self, provinces: Seq<Province>) -> WorldView
        decreases provinces.len(),
    {
        if provinces.len() == 0 {
            self
        } else {
            self.laid_out(provinces.drop_last()).add_province(provinces.last())
        }
    }

    /// Whether no two of `provinces` have the same identifier.
    pub open spec fn distinct_ids(provinces: Seq<Province>) -> bool {
        forall|i: int, j: int|
            0 <= i < j < provinces.len() ==> (#[trigger] provinces[i]).id != (
            #[trigger] provinces[j]).id
    }

    /// Whether none of `provinces` has an owner.
    pub open spec fn unowned(provinces: Seq<Province>) -> bool {
        forall|i: int| 0 <= i < provinces.len() ==> (#[trigger] provinces[i]).owner is None
    }

    /// Whether an identifier is another than `id`.
    pub open spec fn other_than(id: ProvinceId) -> spec_fn(ProvinceId) -> bool {
        |listed: ProvinceId| listed != id
    }

    /// `ids` without any occurrence of `id`.
    pub open spec fn without(ids: Seq<ProvinceId>, id: ProvinceId) -> Seq<ProvinceId> {
        ids.filter(Self::other_than(id))
    }

    /// The territory lists once the province `id`, held by `previous`, has
    /// been struck from its holder's list.
    pub open spec fn released(self, id: ProvinceId, previous: Option<FactionId>) -> Map<
        FactionId,
        Seq<ProvinceId>,
    > {
        match previous {
            Some(holder) if self.territories.contains_key(holder) => self.territories.insert(
                holder,
                Self::without(self.territories[holder], id),
            ),
            _ => self.territories,
        }
    }

    /// The map after the province `id` has passed to `new_owner`: the
    /// province records its new owner, its identifier is struck from the
    /// list of the faction that held it and appended to the list of the
    /// faction that now holds it.
    pub open spec fn transfer(self, id: ProvinceId, new_owner: Option<FactionId>) -> WorldView
        recommends
            self.provinces.contains_key(id),
    {
        let province = self.provinces[id];
        let released = self.released(id, province.owner);
        WorldView {
            provinces: self.provinces.insert(id, Province { owner: new_owner, ..province }),
            territories: match new_owner {
                Some(owner) => released.insert(
                    owner,
                    (if released.contains_key(owner) {
                        released[owner]
                    } else {
                        Seq::empty()
                    }).push(id),
                ),
                None => released,
            },
        }
    }

    /// The map's invariant: every province is stored under its own
    /// identifier, and every identifier listed under a faction names a
    /// province of the map that this faction owns.
    pub open spec fn wf(self) -> bool {
        &&& forall|id: ProvinceId| #[trigger]
            self.provinces.contains_key(id) ==> self.provinces[id].id == id
        &&& forall|faction: FactionId, i: int|
            self.territories.contains_key(faction) && 0 <= i < self.territories[faction].len() ==> {
                let id = #[trigger] self.territories[faction][i];
                self.provinces.contains_key(id) && self.provinces[id].owner == Some(faction)
            }
    }
}

impl WorldView {
    /// Striking `id` leaves only identifiers that were listed, none of them
    /// `id`.
    pub proof fn lemma_without(ids: Seq<ProvinceId>, id: ProvinceId)
        ensures
            forall|i: int|
                0 <= i < Self::without(ids, id).len() ==> {
                    let kept = #[trigger] Self::without(ids, id)[i];
                    kept != id && ids.contains(kept)
                },
    {
        let keep = Self::other_than(id);
        assert forall|i: int| 0 <= i < ids.filter(keep).len() implies {
            let kept = #[trigger] ids.filter(keep)[i];
            kept != id && ids.contains(kept)
        } by {
            ids.lemma_filter_pred(keep, i);
            assert(ids.filter(keep).contains(ids.filter(keep)[i]));
            ids.lemma_filter_contains_rev(keep, ids.filter(keep)[i]);
        }
    }

    /// Handing a province of a well-formed map to another owner leaves the
    /// map well-formed.
    pub proof fn lemma_transfer_keeps_wf(self, id: ProvinceId, new_owner: Option<FactionId>)
        requires
            self.wf(),
            self.provinces.contains_key(id),
        ensures
            self.transfer(id, new_owner).wf(),
    {
        let after = self.transfer(id, new_owner);
        let previous = self.provinces[id].owner;
        let released = self.released(id, previous);
        if previous is Some && self.territories.contains_key(previous->0) {
            Self::lemma_without(self.territories[previous->0], id);
        }
        assert forall|faction: FactionId, i: int|
            released.contains_key(faction) && 0 <= i < released[faction].len() implies {
            let listed = #[trigger] released[faction][i];
            listed != id && self.provinces.contains_key(listed) && self.provinces[listed].owner
                == Some(faction)
        } by {
            let listed = released[faction][i];
            if previous == Some(faction) {
                let held = self.territories[faction];
                assert(held.contains(listed));
                let j = choose|j: int| 0 <= j < held.len() && held[j] == listed;
                assert(self.territories[faction][j] == listed);
            } else {
                assert(self.territories[faction][i] == listed);
            }
        }
        assert forall|faction: FactionId, i: int|
            after.territories.contains_key(faction) && 0 <= i < after.territories[faction].len() implies {
            let listed = #[trigger] after.territories[faction][i];
            after.provinces.contains_key(listed) && after.provinces[listed].owner == Some(faction)
        } by {
            let listed = after.territories[faction][i];
            if new_owner == Some(faction) {
                if i < after.territories[faction].len() - 1 {
                    assert(released[faction][i] == listed);
                }
            } else {
                assert(released[faction][i] == listed);
            }
        }
    }
}

impl WorldView {
    /// Two maps that agree on every identifier of `ids` resolve `ids` to
    /// the same provinces.
    pub proof fn lemma_resolve_agrees(self, other: WorldView, ids: Seq<ProvinceId>)
        requires
            forall|i: int|
                0 <= i < ids.len() ==> self.provinces.get(#[trigger] ids[i])
                    == other.provinces.get(ids[i]),
        ensures
            self.resolve(ids) == other.resolve(ids),
        decreases ids.len(),
    {
        if ids.len() > 0 {
            let rest = ids.drop_last();
            assert forall|i: int| 0 <= i < rest.len() implies self.provinces.get(
                #[trigger] rest[i],
            ) == other.provinces.get(rest[i]) by {
                assert(rest[i] == ids[i]);
            }
            self.lemma_resolve_agrees(other, rest);
            assert(self.provinces.get(ids.last()) == other.provinces.get(ids[ids.len() - 1]));
        }
    }

    /// What a list with one more identifier resolves to: what the list
    /// resolved to, and then the province that the identifier names, if the
    /// map has it.
    pub proof fn lemma_resolve_push(self, ids: Seq<ProvinceId>, id: ProvinceId)
        ensures
            self.resolve(ids.push(id)) == match self.provinces.get(id) {
                Some(province) => self.resolve(ids).push(province),
                None => self.resolve(ids),
            },
    {
        assert(ids.push(id).drop_last() =~= ids);
        assert(ids.push(id).last() == id);
        match self.provinces.get(id) {
            Some(province) => {
                assert(self.resolve(ids) + seq![province] =~= self.resolve(ids).push(province));
            },
            None => {},
        }
    }

    /// A province that was added with an owner is the last of that owner's
    /// provinces, whatever the map held before.
    pub proof fn lemma_added_province_is_last(self, province: Province, owner: FactionId)
        requires
            province.owner == Some(owner),
        ensures
            self.add_province(province).faction_provinces(owner).len() > 0,
            self.add_province(province).faction_provinces(owner).last() == province,
    {
        let after = self.add_province(province);
        after.lemma_resolve_push(self.territory(owner), province.id);
    }

    /// Adding a province that a well-formed map does not hold yet appends
    /// it to the provinces of its owner, and leaves the provinces of every
    /// other faction as they were. So a faction whose first province is
    /// added has exactly that province.
    pub proof fn lemma_added_province_extends(self, province: Province, owner: FactionId)
        requires
            self.wf(),
            !self.provinces.contains_key(province.id),
            province.owner == Some(owner),
        ensures
            self.add_province(province).faction_provinces(owner) == self.faction_provinces(
                owner,
            ).push(province),
            self.territory(owner).len() == 0 ==> self.add_province(province).faction_provinces(
                owner,
            ) == seq![province],
            forall|other: FactionId|
                other != owner ==> #[trigger] self.add_province(province).faction_provinces(other)
                    == self.faction_provinces(other),
    {
        let after = self.add_province(province);
        let listed = self.territory(owner);
        assert forall|i: int| 0 <= i < listed.len() implies after.provinces.get(
            #[trigger] listed[i],
        ) == self.provinces.get(listed[i]) by {
            assert(self.territories[owner][i] == listed[i]);
        }
        after.lemma_resolve_agrees(self, listed);
        after.lemma_resolve_push(listed, province.id);
        if listed.len() == 0 {
            assert(self.resolve(listed) =~= Seq::<Province>::empty());
            assert(Seq::<Province>::empty().push(province) =~= seq![province]);
        }
        assert forall|other: FactionId| other != owner implies #[trigger] after.faction_provinces(
            other,
        ) == self.faction_provinces(other) by {
            let theirs = self.territory(other);
            assert(after.territory(other) == theirs);
            assert forall|i: int| 0 <= i < theirs.len() implies after.provinces.get(
                #[trigger] theirs[i],
            ) == self.provinces.get(theirs[i]) by {
                assert(self.territories[other][i] == theirs[i]);
            }
            after.lemma_resolve_agrees(self, theirs);
        }
    }

    /// Once a province of a well-formed map has passed from one faction to
    /// another, it is no longer among the provinces of the first and is the
    /// last of the provinces of the second, recorded with its new owner.
    pub proof fn lemma_transfer_moves_province(
        self,
        id: ProvinceId,
        from: FactionId,
        to: FactionId,
    )
        requires
            self.wf(),
            self.provinces.contains_key(id),
            self.provinces[id].owner == Some(from),
            from != to,
        ensures
            forall|i: int|
                0 <= i < self.transfer(id, Some(to)).faction_provinces(from).len() ==> (
                #[trigger] self.transfer(id, Some(to)).faction_provinces(from)[i]).id != id,
            self.transfer(id, Some(to)).faction_provinces(to).len() > 0,
            self.transfer(id, Some(to)).faction_provinces(to).last() == (Province {
                owner: Some(to),
                ..self.provinces[id]
            }),
    {
        let after = self.transfer(id, Some(to));
        let released = self.released(id, Some(from));
        let gained = if released.contains_key(to) {
            released[to]
        } else {
            Seq::empty()
        };
        assert(after.territory(to) == gained.push(id));
        after.lemma_resolve_push(gained, id);
        self.lemma_transfer_keeps_wf(id, Some(to));
        let kept = after.territory(from);
        if self.territories.contains_key(from) {
            Self::lemma_without(self.territories[from], id);
            assert(kept == Self::without(self.territories[from], id));
        }
        let theirs = after.faction_provinces(from);
        assert forall|i: int| 0 <= i < theirs.len() implies (#[trigger] theirs[i]).id != id by {
            assert(theirs.contains(theirs[i]));
            kept.lemma_filter_map_contains(after.lookup(), theirs[i]);
            let listed = choose|listed: ProvinceId| #[trigger]
                kept.contains(listed) && after.lookup()(listed) == Some(theirs[i]);
            let j = choose|j: int| 0 <= j < kept.len() && kept[j] == listed;
            assert(Self::without(self.territories[from], id)[j] == listed);
            assert(after.provinces.contains_key(listed));
        }
    }
}

impl WorldView {
    /// What an empty map holds once `provinces` have been laid out on it,
    /// whatever their identifiers: nothing but provinces of the run, each
    /// under its own identifier, no more of them than the run is long, and
    /// the last of the run in any case.
    pub proof fn lemma_laid_out(provinces: Seq<Province>)
        ensures
            Self::empty().laid_out(provinces).provinces.dom().finite(),
            Self::empty().laid_out(provinces).provinces.dom().len() <= provinces.len(),
            forall|id: ProvinceId| #[trigger]
                Self::empty().laid_out(provinces).provinces.contains_key(id) ==> exists|i: int|
                    0 <= i < provinces.len() && (#[trigger] provinces[i]).id == id
                        && Self::empty().laid_out(provinces).provinces[id] == provinces[i],
            provinces.len() > 0 ==> Self::empty().laid_out(provinces).provinces.contains_key(
                provinces.last().id,
            ) && Self::empty().laid_out(provinces).provinces[provinces.last().id]
                == provinces.last(),
        decreases provinces.len(),
    {
        if provinces.len() > 0 {
            let rest = provinces.drop_last();
            let before = Self::empty().laid_out(rest);
            let after = Self::empty().laid_out(provinces);
            Self::lemma_laid_out(rest);
            assert forall|id: ProvinceId| #[trigger]
                after.provinces.contains_key(id) implies exists|i: int|
                0 <= i < provinces.len() && (#[trigger] provinces[i]).id == id
                    && after.provinces[id] == provinces[i] by {
                if id == provinces.last().id {
                    assert(provinces[provinces.len() - 1].id == id);
                } else {
                    assert(before.provinces.contains_key(id));
                    let i = choose|i: int|
                        0 <= i < rest.len() && (#[trigger] rest[i]).id == id && before.provinces[id]
                            == rest[i];
                    assert(provinces[i] == rest[i]);
                }
            }
        }
    }

    /// Laying out provinces that nobody owns leaves a well-formed map
    /// without territory lists, whatever their identifiers.
    pub proof fn lemma_laid_out_unowned(provinces: Seq<Province>)
        requires
            Self::unowned(provinces),
        ensures
            Self::empty().laid_out(provinces).wf(),
            Self::empty().laid_out(provinces).territories == Map::<
                FactionId,
                Seq<ProvinceId>,
            >::empty(),
        decreases provinces.len(),
    {
        if provinces.len() > 0 {
            let rest = provinces.drop_last();
            assert forall|i: int| 0 <= i < rest.len() implies (#[trigger] rest[i]).owner is None by {
                assert(provinces[i] == rest[i]);
            }
            Self::lemma_laid_out_unowned(rest);
            assert(provinces[provinces.len() - 1].owner is None);
        }
    }

    /// Laying out provinces with pairwise distinct identifiers on an empty
    /// map leaves a well-formed map that holds exactly as many provinces as
    /// were laid out, each of them under its own identifier.
    pub proof fn lemma_laid_out_distinct(provinces: Seq<Province>)
        requires
            Self::distinct_ids(provinces),
        ensures
            Self::empty().laid_out(provinces).wf(),
            Self::empty().laid_out(provinces).provinces.dom().finite(),
            Self::empty().laid_out(provinces).provinces.dom().len() == provinces.len(),
            forall|i: int|
                0 <= i < provinces.len() ==> Self::empty().laid_out(provinces).provinces.contains_key(
                    (#[trigger] provinces[i]).id,
                ) && Self::empty().laid_out(provinces).provinces[provinces[i].id] == provinces[i],
        decreases provinces.len(),
    {
        if provinces.len() > 0 {
            let rest = provinces.drop_last();
            let last = provinces.last();
            let before = Self::empty().laid_out(rest);
            let after = Self::empty().laid_out(provinces);
            assert forall|i: int, j: int| 0 <= i < j < rest.len() implies (#[trigger] rest[i]).id != (
            #[trigger] rest[j]).id by {
                assert(provinces[i] == rest[i] && provinces[j] == rest[j]);
            }
            Self::lemma_laid_out_distinct(rest);
            Self::lemma_laid_out(rest);
            if before.provinces.contains_key(last.id) {
                let i = choose|i: int|
                    0 <= i < rest.len() && (#[trigger] rest[i]).id == last.id
                        && before.provinces[last.id] == rest[i];
                assert(provinces[i].id == provinces[provinces.len() - 1].id);
            }
            before.lemma_add_province_keeps_wf(last);
            assert forall|i: int| 0 <= i < provinces.len() implies after.provinces.contains_key(
                (#[trigger] provinces[i]).id,
            ) && after.provinces[provinces[i].id] == provinces[i] by {
                if i < rest.len() {
                    assert(provinces[i] == rest[i]);
                    assert(before.provinces.contains_key(rest[i].id));
                    assert(provinces[i].id != provinces[provinces.len() - 1].id);
                }
            }
        }
    }

    /// Adding a province that a well-formed map does not hold yet leaves
    /// the map well-formed.
    pub proof fn lemma_add_province_keeps_wf(self, province: Province)
        requires
            self.wf(),
            !self.provinces.contains_key(province.id),
        ensures
            self.add_province(province).wf(),
    {
        let after = self.add_province(province);
        assert forall|faction: FactionId, i: int|
            after.territories.contains_key(faction) && 0 <= i < after.territories[faction].len() implies {
            let id = #[trigger] after.territories[faction][i];
            after.provinces.contains_key(id) && after.provinces[id].owner == Some(faction)
        } by {
            let id = after.territories[faction][i];
            if province.owner == Some(faction) && i == after.territories[faction].len() - 1 {
            } else {
                assert(self.territories[faction][i] == id);
            }
        }
    }
}

/// All provinces, and for each faction the list of those it holds.
///
/// The maps are keyed by the number inside the identifier.
#[derive(Debug)]
pub struct WorldMap {
    pub provinces: HashMap<u128, Province>,
    pub faction_territories: HashMap<u128, Vec<ProvinceId>>,
}

impl View for WorldMap {
    type V = WorldView;

    open spec fn view(&self) -> WorldView {
        WorldView {
            provinces: Map::new(
                |id: ProvinceId| self.provinces@.contains_key(id.0),
                |id: ProvinceId| self.provinces@[id.0],
            ),
            territories: Map::new(
                |faction: FactionId| self.faction_territories@.contains_key(faction.0),
                |faction: FactionId| self.faction_territories@[faction.0]@,
            ),
        }
    }
}

impl WorldMap {
    /// A map without provinces.
    pub fn new() -> (map: WorldMap)
        ensures
            map@ == WorldView::empty(),
            map@.wf(),
    {
        let map = WorldMap { provinces: HashMap::new(), faction_territories: HashMap::new() };
        assert(map@.provinces =~= Map::<ProvinceId, Province>::empty());
        assert(map@.territories =~= Map::<FactionId, Seq<ProvinceId>>::empty());
        map
    }

    /// Stores `province` under its identifier, replacing what was there, and
    /// lists it under its owner, if it has one.
    pub fn add_province(&mut self, province: Province)
        ensures
            final(self)@ == old(self)@.add_province(province),
            old(self)@.wf() && !old(self)@.provinces.contains_key(province.id)
                ==> final(self)@.wf(),
    {
        let ghost before = self@;
        if let Some(owner) = province.owner {
            let mut listed = match self.faction_territories.remove(&owner.0) {
                Some(listed) => listed,
                None => Vec::new(),
            };
            listed.push(province.id);
            self.faction_territories.insert(owner.0, listed);
        }
        self.provinces.insert(province.id.0, province);
        proof {
            let after = before.add_province(province);
            assert(self@.provinces =~= after.provinces);
            assert(self@.territories =~= after.territories);
        }
    }

    /// The province named `id`, if the map has it.
    pub fn get_province(&self, id: ProvinceId) -> (found: Option<&Province>)
        ensures
            match found {
                Some(province) => self@.provinces.contains_key(id) && *province
                    == self@.provinces[id],
                None => !self@.provinces.contains_key(id),
            },
    {
        self.provinces.get(&id.0)
    }

    /// The province named `id`, to be changed in place, if the map has it.
    /// Whatever the caller writes through the reference is what the map
    /// holds under `id` afterwards; the territory lists stay as they are.
    pub fn get_province_mut(&mut self, id: ProvinceId) -> (found: Option<&mut Province>)
        ensures
            final(self)@.territories == old(self)@.territories,
            match found {
                Some(province) => {
                    &&& old(self)@.provinces.contains_key(id)
                    &&& *province == old(self)@.provinces[id]
                    &&& final(self)@.provinces == old(self)@.provinces.insert(
                        id,
                        *final(province),
                    )
                },
                None => {
                    &&& !old(self)@.provinces.contains_key(id)
                    &&& final(self)@.provinces == old(self)@.provinces
                },
            },
    {
        match self.provinces.entry(id.0) {
            Entry::Occupied(occupied) => Some(occupied.into_mut()),
            Entry::Vacant(_) => None,
        }
    }

    /// Hands the province `id` to `new_owner` and keeps the territory lists
    /// in step with it. Says whether the map has such a province; if it has
    /// not, nothing changes.
    pub fn transfer_province(&mut self, id: ProvinceId, new_owner: Option<FactionId>) -> (moved:
        bool)
        ensures
            moved == old(self)@.provinces.contains_key(id),
            moved ==> final(self)@ == old(self)@.transfer(id, new_owner),
            !moved ==> final(self)@ == old(self)@,
            old(self)@.wf() ==> final(self)@.wf(),
    {
        let ghost before = self@;
        let mut province = match self.provinces.remove(&id.0) {
            Some(province) => province,
            None => {
                assert(self@.provinces =~= before.provinces);
                assert(self@.territories =~= before.territories);
                return false;
            },
        };
        if let Some(holder) = province.owner {
            if let Some(listed) = self.faction_territories.remove(&holder.0) {
                let kept = strike(&listed, id);
                self.faction_territories.insert(holder.0, kept);
            }
        }
        let ghost released = self@.territories;
        assert(released =~= before.released(id, province.owner));
        if let Some(owner) = new_owner {
            let mut listed = match self.faction_territories.remove(&owner.0) {
                Some(listed) => listed,
                None => Vec::new(),
            };
            listed.push(id);
            self.faction_territories.insert(owner.0, listed);
        }
        province.owner = new_owner;
        self.provinces.insert(id.0, province);
        proof {
            let after = before.transfer(id, new_owner);
            assert(self@.provinces =~= after.provinces);
            assert(self@.territories =~= after.territories);
            if before.wf() {
                before.lemma_transfer_keeps_wf(id, new_owner);
            }
        }
        true
    }

    /// The provinces listed under `faction_id`, in the order of the list. An
    /// identifier that names no province of the map is passed over.
    pub fn get_faction_provinces(&self, faction_id: FactionId) -> (owned: Vec<&Province>)
        ensures
            owned@.map_values(|province: &Province| *province) == self@.faction_provinces(
                faction_id,
            ),
    {
        let mut owned: Vec<&Province> = Vec::new();
        let ghost lookup = self@.lookup();
        match self.faction_territories.get(&faction_id.0) {
            None => {
                assert(owned@.map_values(|province: &Province| *province)
                    =~= self@.faction_provinces(faction_id));
            },
            Some(listed) => {
                let mut i: usize = 0;
                while i < listed.len()
                    invariant
                        i <= listed@.len(),
                        listed@ == self@.territory(faction_id),
                        lookup == self@.lookup(),
                        owned@.map_values(|province: &Province| *province)
                            == listed@.take(i as int).filter_map(lookup),
                    decreases listed@.len() - i,
                {
                    proof {
                        listed@.lemma_filter_map_take_succ(lookup, i as int);
                    }
                    let ghost before = owned@;
                    match self.provinces.get(&listed[i].0) {
                        Some(province) => {
                            owned.push(province);
                            assert(owned@.map_values(|province: &Province| *province)
                                =~= before.map_values(|province: &Province| *province)
                                + seq![*province]);
                        },
                        None => {},
                    }
                    i += 1;
                }
                assert(listed@.take(i as int) =~= listed@);
            },
        }
        owned
    }

    /// What the buildings of the provinces listed under `faction_id` yield
    /// each turn.
    pub fn calculate_faction_income(&self, faction_id: FactionId) -> (income: Resources)
        requires
            self@.faction_income(faction_id).fits(),
        ensures
            income@ == self@.faction_income(faction_id),
    {
        let owned = self.get_faction_provinces(faction_id);
        let ghost provinces = self@.faction_provinces(faction_id);
        let mut total = Resources { gold: 0, food: 0, materials: 0, manpower: 0 };
        let mut p: usize = 0;
        while p < owned.len()
            invariant
                p <= owned@.len(),
                owned@.map_values(|province: &Province| *province) == provinces,
                provinces_income(provinces).fits(),
                total@ == provinces_income(provinces.take(p as int)),
            decreases owned@.len() - p,
        {
            let province = owned[p];
            assert(*province == provinces[p as int]);
            let mut b: usize = 0;
            proof {
                let upto = provinces.take(p as int + 1);
                lemma_provinces_income_prefix(provinces, p as int + 1);
                assert(upto.drop_last() =~= provinces.take(p as int));
                assert(upto.last() == provinces[p as int]);
                lemma_provinces_income_non_negative(upto);
                lemma_provinces_income_non_negative(provinces.take(p as int));
                assert(province.buildings@.take(0) =~= Seq::<Building>::empty());
            }
            while b < province.buildings.len()
                invariant
                    b <= province.buildings@.len(),
                    provinces_income(provinces.take(p as int)).non_negative(),
                    provinces_income(provinces.take(p as int)).plus(
                        buildings_income(province.buildings@),
                    ).fits(),
                    total@ == provinces_income(provinces.take(p as int)).plus(
                        buildings_income(province.buildings@.take(b as int)),
                    ),
                decreases province.buildings@.len() - b,
            {
                let building = &province.buildings[b];
                proof {
                    let all = province.buildings@;
                    lemma_buildings_income_prefix(all, b as int + 1);
                    assert(all.take(b as int + 1).drop_last() =~= all.take(b as int));
                    lemma_buildings_income_non_negative(all.take(b as int));
                    building.building_type.lemma_income_non_negative(building.level as int);
                }
                let income = building.building_type.resource_income(building.level);
                total.add(&income);
                b += 1;
            }
            proof {
                assert(province.buildings@.take(b as int) =~= province.buildings@);
            }
            p += 1;
        }
        proof {
            assert(provinces.take(p as int) =~= provinces);
        }
        total
    }
}

/// A copy of `listed` without any occurrence of `id`.
fn strike(listed: &Vec<ProvinceId>, id: ProvinceId) -> (kept: Vec<ProvinceId>)
    ensures
        kept@ == WorldView::without(listed@, id),
{
    let mut kept: Vec<ProvinceId> = Vec::new();
    let ghost keep = WorldView::other_than(id);
    let mut i: usize = 0;
    proof {
        reveal(Seq::filter);
        assert(listed@.take(0) =~= Seq::<ProvinceId>::empty());
    }
    while i < listed.len()
        invariant
            i <= listed@.len(),
            keep == WorldView::other_than(id),
            kept@ == listed@.take(i as int).filter(keep),
        decreases listed@.len() - i,
    {
        proof {
            reveal(Seq::filter);
            assert(listed@.take(i as int + 1).drop_last() =~= listed@.take(i as int));
        }
        if listed[i].0 != id.0 {
            kept.push(listed[i]);
        }
        i += 1;
    }
    proof {
        assert(listed@.take(i as int) =~= listed@);
    }
    kept
}

impl Default for WorldMap {
    /// A map without provinces.
    fn default() -> (map: WorldMap)
        ensures
            map@ == WorldView::empty(),
            map@.wf(),
    {
        WorldMap::new()
    }
}

/// The yield of buildings is never negative.
pub proof fn lemma_buildings_income_non_negative(buildings: Seq<Building>)
    ensures
        buildings_income(buildings).non_negative(),
    decreases buildings.len(),
{
    if buildings.len() > 0 {
        lemma_buildings_income_non_negative(buildings.drop_last());
        buildings.last().building_type.lemma_income_non_negative(buildings.last().level as int);
    }
}

/// The yield of provinces is never negative.
pub proof fn lemma_provinces_income_non_negative(provinces: Seq<Province>)
    ensures
        provinces_income(provinces).non_negative(),
    decreases provinces.len(),
{
    if provinces.len() > 0 {
        lemma_provinces_income_non_negative(provinces.drop_last());
        lemma_buildings_income_non_negative(provinces.last().buildings@);
    }
}

/// The yield of two runs of provinces one after the other is the sum of
/// their yields, so it does not matter which run comes first.
pub proof fn lemma_provinces_income_concat(first: Seq<Province>, second: Seq<Province>)
    ensures
        provinces_income(first + second) == provinces_income(first).plus(
            provinces_income(second),
        ),
        provinces_income(first + second) == provinces_income(second + first),
{
    lemma_provinces_income_joined(first, second);
    lemma_provinces_income_joined(second, first);
}

/// The yield of two runs of provinces one after the other is the sum of
/// their yields.
proof fn lemma_provinces_income_joined(first: Seq<Province>, second: Seq<Province>)
    ensures
        provinces_income(first + second) == provinces_income(first).plus(
            provinces_income(second),
        ),
    decreases second.len(),
{
    if second.len() == 0 {
        assert(first + second =~= first);
    } else {
        lemma_provinces_income_joined(first, second.drop_last());
        assert((first + second).drop_last() =~= first + second.drop_last());
        assert((first + second).last() == second.last());
    }
}

/// The first `n` of some buildings yield no more than all of them.
pub proof fn lemma_buildings_income_prefix(buildings: Seq<Building>, n: int)
    requires
        0 <= n <= buildings.len(),
    ensures
        buildings_income(buildings).covers(buildings_income(buildings.take(n))),
    decreases buildings.len(),
{
    if n == buildings.len() {
        assert(buildings.take(n) =~= buildings);
    } else {
        lemma_buildings_income_prefix(buildings.drop_last(), n);
        assert(buildings.drop_last().take(n) =~= buildings.take(n));
        buildings.last().building_type.lemma_income_non_negative(buildings.last().level as int);
    }
}

/// The first `n` of some provinces yield no more than all of them.
pub proof fn lemma_provinces_income_prefix(provinces: Seq<Province>, n: int)
    requires
        0 <= n <= provinces.len(),
    ensures
        provinces_income(provinces).covers(provinces_income(provinces.take(n))),
    decreases provinces.len(),
{
    if n == provinces.len() {
        assert(provinces.take(n) =~= provinces);
    } else {
        lemma_provinces_income_prefix(provinces.drop_last(), n);
        assert(provinces.drop_last().take(n) =~= provinces.take(n));
        lemma_buildings_income_non_negative(provinces.last().buildings@);
    }
}

} // verus!
