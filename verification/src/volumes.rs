//! The shared table of volumes.
//!
//! The table is a concurrent map whose entries are locked while they are held:
//! whoever holds an entry is alone with that volume, across any outside work,
//! and whoever else wants it waits. The items here say what the map's
//! operations do to an entry.
use crate::volume_state::VolumeState;
use std::hash::{BuildHasher, RandomState};
use vstd::prelude::*;

verus! {

/// `scc::HashMap`: the table itself.
#[verifier::external_type_specification]
#[verifier::external_body]
#[verifier::reject_recursive_types(K)]
#[verifier::reject_recursive_types(V)]
#[verifier::reject_recursive_types(H)]
pub struct ExHashMap<K, V, H: BuildHasher>(scc::HashMap<K, V, H>);

/// `scc::hash_map::Entry`: a locked place in the table, with a volume or without.
#[verifier::external_type_specification]
#[verifier::external_body]
#[verifier::reject_recursive_types(K)]
#[verifier::reject_recursive_types(V)]
#[verifier::reject_recursive_types(H)]
pub struct ExEntry<'h, K, V, H: BuildHasher>(scc::hash_map::Entry<'h, K, V, H>);

/// `scc::hash_map::OccupiedEntry`: a locked place with a volume.
#[verifier::external_type_specification]
#[verifier::external_body]
#[verifier::reject_recursive_types(K)]
#[verifier::reject_recursive_types(V)]
#[verifier::reject_recursive_types(H)]
pub struct ExOccupiedEntry<'h, K, V, H: BuildHasher>(scc::hash_map::OccupiedEntry<'h, K, V, H>);

/// `scc::hash_map::VacantEntry`: a locked place without a volume.
#[verifier::external_type_specification]
#[verifier::external_body]
#[verifier::reject_recursive_types(K)]
#[verifier::reject_recursive_types(V)]
#[verifier::reject_recursive_types(H)]
pub struct ExVacantEntry<'h, K, V, H: BuildHasher>(scc::hash_map::VacantEntry<'h, K, V, H>);

/// The table of volumes, by name.
pub type VolumeMap = scc::HashMap<String, VolumeState, RandomState>;

/// A locked place in the table of volumes.
pub type VolumeEntry<'h> = scc::hash_map::Entry<'h, String, VolumeState, RandomState>;

/// A locked volume.
pub type HeldVolume<'h> = scc::hash_map::OccupiedEntry<'h, String, VolumeState, RandomState>;

/// A locked name that no volume has.
pub type VacantName<'h> = scc::hash_map::VacantEntry<'h, String, VolumeState, RandomState>;

/// What a table holds when it is made. A table changes behind shared
/// references, so nothing is said of it later; what an entry holds, and what it
/// leaves in the table, is said of the entry, which is locked.
pub uninterp spec fn initial_volumes(map: VolumeMap) -> Map<Seq<char>, VolumeState>;

/// The name that an entry is for.
pub uninterp spec fn entry_name(entry: VolumeEntry<'_>) -> Seq<char>;

/// What an entry holds: the volume under its name, or nothing.
pub uninterp spec fn entry_volumes(entry: VolumeEntry<'_>) -> Map<Seq<char>, VolumeState>;

/// The name of a locked volume.
pub uninterp spec fn held_name(entry: HeldVolume<'_>) -> Seq<char>;

/// What a locked volume's entry holds: the volume under its name.
pub uninterp spec fn held_volumes(entry: HeldVolume<'_>) -> Map<Seq<char>, VolumeState>;

/// What the table holds under an entry's name when the entry, or what becomes
/// of it, is given up.
pub uninterp spec fn entry_left(entry: VolumeEntry<'_>) -> Map<Seq<char>, VolumeState>;

/// What the table holds under a locked volume's name when its entry is given
/// up. The place stays locked until then, so this is up to the holder alone.
pub uninterp spec fn left_volumes(entry: HeldVolume<'_>) -> Map<Seq<char>, VolumeState>;

/// The name that a vacant entry is for.
pub uninterp spec fn vacant_name(entry: VacantName<'_>) -> Seq<char>;

/// What the table holds under a vacant entry's name when the entry, or what
/// becomes of it, is given up.
pub uninterp spec fn vacant_left(entry: VacantName<'_>) -> Map<Seq<char>, VolumeState>;

/// The volumes of a list by their names; of those with the same name, the last.
pub open spec fn by_name(volumes: Seq<(String, VolumeState)>) -> Map<Seq<char>, VolumeState>
    decreases volumes.len(),
{
    if volumes.len() == 0 {
        Map::empty()
    } else {
        by_name(volumes.drop_last()).insert(volumes.last().0@, volumes.last().1)
    }
}

/// Under each name of a list there is the last volume with that name, and there
/// is nothing under any other name.
pub proof fn law_by_name(volumes: Seq<(String, VolumeState)>, name: Seq<char>, i: int)
    requires
        0 <= i <= volumes.len(),
        i < volumes.len() ==> volumes[i].0@ == name,
        forall|j: int| 0 <= j < volumes.len() && (j > i || i == volumes.len()) ==> (
        #[trigger] volumes[j]).0@ != name,
    ensures
        by_name(volumes).contains_key(name) <==> i < volumes.len(),
        i < volumes.len() ==> by_name(volumes)[name] == volumes[i].1,
    decreases volumes.len(),
{
    if volumes.len() > 0 && i != volumes.len() - 1 {
        let before = volumes.drop_last();
        assert(volumes[volumes.len() - 1].0@ != name);
        assert forall|j: int|
            0 <= j < before.len() && (j > i || i == volumes.len()) implies (#[trigger] before[j]).0@
            != name by {
            assert(before[j] == volumes[j]);
        }
        law_by_name(before, name, if i == volumes.len() { before.len() as int } else { i });
    }
}

/// A table with the volumes of a list.
///
/// Calls the `from_iter` of `scc::HashMap`, which enters one item after the
/// other; an item replaces an earlier one with the same key.
#[verifier::external_body]
pub(crate) fn map_from(volumes: Vec<(String, VolumeState)>) -> (map: VolumeMap)
    ensures
        initial_volumes(map) == by_name(volumes@),
{
    scc::HashMap::from_iter(volumes)
}

/// Tells an occupied entry from a vacant one.
///
/// Takes the variants of `scc::hash_map::Entry` apart: an occupied entry holds
/// a volume under its name, a vacant one holds nothing, and either is still the
/// same locked place, for the same name.
#[verifier::external_body]
pub(crate) fn look<'h>(entry: VolumeEntry<'h>) -> (found: Result<HeldVolume<'h>, VacantName<'h>>)
    ensures
        match found {
            Ok(held) => {
                &&& held_name(held) == entry_name(entry)
                &&& held_volumes(held) == entry_volumes(entry)
                &&& entry_volumes(entry).contains_key(entry_name(entry))
                &&& left_volumes(held) == entry_left(entry)
            },
            Err(vacant) => {
                &&& vacant_name(vacant) == entry_name(entry)
                &&& entry_volumes(entry) == Map::<Seq<char>, VolumeState>::empty()
                &&& vacant_left(vacant) == entry_left(entry)
            },
        },
{
    match entry {
        scc::hash_map::Entry::Occupied(held) => Ok(held),
        scc::hash_map::Entry::Vacant(vacant) => Err(vacant),
    }
}

/// Enters a volume under the name of a vacant entry.
///
/// Calls `scc::hash_map::VacantEntry::insert_entry`, which stores the value
/// under the entry's key and keeps the entry locked: it is still the same place.
#[verifier::external_body]
pub(crate) fn insert<'h>(vacant: VacantName<'h>, state: VolumeState) -> (held: HeldVolume<'h>)
    ensures
        held_name(held) == vacant_name(vacant),
        held_volumes(held) == map![vacant_name(vacant) => state],
        left_volumes(held) == vacant_left(vacant),
{
    vacant.insert_entry(state)
}

/// The name of a locked volume.
///
/// Calls `scc::hash_map::OccupiedEntry::key`.
#[verifier::external_body]
pub(crate) fn name_of<'a>(entry: &'a HeldVolume<'_>) -> (name: &'a String)
    ensures
        name@ == held_name(*entry),
{
    entry.key()
}

/// The volume that a locked entry holds.
///
/// Calls `scc::hash_map::OccupiedEntry::get`.
#[verifier::external_body]
pub(crate) fn held<'a>(entry: &'a HeldVolume<'_>) -> (state: &'a VolumeState)
    ensures
        *state == held_volumes(*entry)[held_name(*entry)],
{
    entry.get()
}

/// The volume that a locked entry holds, to be changed in place.
///
/// Calls `scc::hash_map::OccupiedEntry::get_mut`: what is written through the
/// reference is what the entry holds afterwards, under the same name, and the
/// entry is still the same locked place.
#[verifier::external_body]
pub(crate) fn held_mut<'a>(entry: &'a mut HeldVolume<'_>) -> (state: &'a mut VolumeState)
    ensures
        *state == held_volumes(*old(entry))[held_name(*old(entry))],
        held_name(*final(entry)) == held_name(*old(entry)),
        held_volumes(*final(entry)) == held_volumes(*old(entry)).insert(
            held_name(*old(entry)),
            *final(state),
        ),
        left_volumes(*final(entry)) == left_volumes(*old(entry)),
{
    entry.get_mut()
}

/// Takes a volume out of the table.
///
/// Calls `scc::hash_map::OccupiedEntry::remove_entry`, which takes the key and
/// the value out of the table while the place is locked, hands them back and
/// gives the place up.
#[verifier::external_body]
pub(crate) fn take(entry: HeldVolume<'_>) -> (taken: (String, VolumeState))
    ensures
        taken.0@ == held_name(entry),
        taken.1 == held_volumes(entry)[held_name(entry)],
        left_volumes(entry) == held_volumes(entry).remove(taken.0@),
{
    entry.remove_entry()
}

/// Gives a volume's place up, with the volume in it, and says which it was.
///
/// Reads `scc::hash_map::OccupiedEntry::key` and drops the entry. The drop
/// releases the lock and nothing else, so that the table is left with the
/// volume that the entry held.
#[verifier::external_body]
pub(crate) fn give_up(entry: HeldVolume<'_>) -> (name: String)
    ensures
        name@ == held_name(entry),
        left_volumes(entry) == map![name@ => held_volumes(entry)[name@]],
{
    let name = entry.key().clone();
    drop(entry);
    name
}

/// Gives a vacant place up, and says for which name it was.
///
/// Calls `scc::hash_map::VacantEntry::into_key`, which hands the key back and
/// releases the lock; nothing was entered under the name.
#[verifier::external_body]
pub(crate) fn give_up_vacant(vacant: VacantName<'_>) -> (name: String)
    ensures
        name@ == vacant_name(vacant),
        !vacant_left(vacant).contains_key(name@),
{
    vacant.into_key()
}

} // verus!
