//! What holds of requests, and of the table of volumes over several of them.
//!
//! A request locks one place of the table and, when it gives the place up,
//! leaves something under that name; every other name stays as it is.
use crate::effect::{EffectView, IoErrorKind, Reply, ReplyView, Step, StepView};
use crate::error::VolumeError;
use crate::laws::{
    law_force_unmount, law_path_is_where_it_was_mounted, law_provision, provision_run,
};
use crate::mountpoint::{law_path_text, mountpoint_of, path_text};
use crate::opts::{OptsView, ValidOpts};
use crate::plugin::{
    created, creates, entry_volume, finds, held_volume, keeps, mount_request_step, remove_step,
    removes, starts_removal, stays_vacant, Absent, Capabilities, Creation, DockerLvmTmpFs, Removal,
    RemovePhase,
};
use crate::volume_state::{
    force_unmount_step, mount_step, provision_step, unmount_step, DockerVolume, MountPhase,
    MountPhaseView, ProvisionPhase, ProvisionPhaseView, UnmountPhase, VolumeState, VolumeView,
};
use crate::volumes::{
    by_name, entry_left, entry_name, entry_volumes, held_name, held_volumes, initial_volumes,
    left_volumes, vacant_left, vacant_name, HeldVolume, VacantName, VolumeEntry, VolumeMap,
};
use std::sync::Arc;
use vstd::prelude::*;
use vstd::utf8::{encode_utf8, valid_utf8};

verus! {

/// Whether an entry is a locked place of a table: it holds what the table holds
/// under its name.
pub open spec fn locks(entry: VolumeEntry<'_>, table: Map<Seq<char>, VolumeState>) -> bool {
    let name = entry_name(entry);
    &&& entry_volumes(entry).contains_key(name) <==> table.contains_key(name)
    &&& table.contains_key(name) ==> entry_volumes(entry)[name] == table[name]
}

/// A table after the place under `name` was given up, with `left` under it.
pub open spec fn given_up(
    table: Map<Seq<char>, VolumeState>,
    name: Seq<char>,
    left: Map<Seq<char>, VolumeState>,
) -> Map<Seq<char>, VolumeState> {
    if left.contains_key(name) {
        table.insert(name, left[name])
    } else {
        table.remove(name)
    }
}

/// A table after the place that `entry` locked was given up.
pub open spec fn left_by(
    entry: VolumeEntry<'_>,
    table: Map<Seq<char>, VolumeState>,
) -> Map<Seq<char>, VolumeState> {
    given_up(table, entry_name(entry), entry_left(entry))
}

/// A request that keeps its volume leaves it in the table, and touches no other
/// name: whoever locks the name next finds the volume just as the request left
/// it.
pub proof fn law_kept_volume_is_found(
    table: Map<Seq<char>, VolumeState>,
    entry: VolumeEntry<'_>,
    held: HeldVolume<'_>,
    next: VolumeEntry<'_>,
)
    requires
        held_name(held) == entry_name(entry),
        left_volumes(held) == entry_left(entry),
        keeps(held),
        entry_name(next) == entry_name(entry),
        locks(next, left_by(entry, table)),
    ensures
        left_by(entry, table) == table.insert(held_name(held), held_volumes(held)[held_name(held)]),
        entry_volume(next) == Some(held_volume(held)),
{
}

/// A volume that was created and provisioned is there: whoever locks its name
/// next finds it with the options it was created with and the LV that LVM made
/// for it, and it cannot be created again.
pub proof fn law_created_volume_is_found(
    table: Map<Seq<char>, VolumeState>,
    entry: VolumeEntry<'_>,
    opts: OptsView,
    creation: Creation<'_>,
    replies: Seq<ReplyView>,
    held: HeldVolume<'_>,
    next: VolumeEntry<'_>,
    other: OptsView,
)
    requires
        creates(entry, opts, creation),
        creation matches Creation::Recorded(recorded) && {
            let run = provision_run(
                held_volume(recorded),
                ProvisionPhaseView::Begin,
                held_name(recorded),
                replies,
            );
            &&& run.outcome matches Some(Ok(_))
            &&& held_volume(held) == run.volume
            &&& held_name(held) == held_name(recorded)
            &&& left_volumes(held) == left_volumes(recorded)
        },
        keeps(held),
        entry_name(next) == entry_name(entry),
        locks(next, left_by(entry, table)),
    ensures
        entry_volume(next) == Some(
            VolumeView::Provisioned { creation_opts: opts, lv: replies[1]->LvCreated_lv },
        ),
        created(entry_volume(next), other) == Err::<VolumeView, VolumeError>(
            VolumeError::CreateExisting,
        ),
{
    law_kept_volume_is_found(table, entry, held, next);
    law_provision(opts, entry_name(entry), replies, other);
}

/// A creation that is refused changes nothing: the table is as it was.
pub proof fn law_refused_creation_changes_nothing(
    table: Map<Seq<char>, VolumeState>,
    entry: VolumeEntry<'_>,
    opts: OptsView,
    creation: Creation<'_>,
)
    requires
        locks(entry, table),
        creates(entry, opts, creation),
        creation matches Creation::Refused { entry: kept, .. } && keeps(kept),
    ensures
        left_by(entry, table) == table,
{
    assert(left_by(entry, table) =~= table);
}

/// The path that a mount request was answered with is remembered: whoever locks
/// the volume next finds it mounted there.
pub proof fn law_mounted_path_is_remembered(
    table: Map<Seq<char>, VolumeState>,
    entry: VolumeEntry<'_>,
    volume: VolumeView,
    phase: MountPhaseView,
    reply: ReplyView,
    held: HeldVolume<'_>,
    next: VolumeEntry<'_>,
)
    requires
        mount_request_step(volume, phase, reply).1 is Done,
        held_volume(held) == mount_request_step(volume, phase, reply).0,
        held_name(held) == entry_name(entry),
        left_volumes(held) == entry_left(entry),
        keeps(held),
        entry_name(next) == entry_name(entry),
        locks(next, left_by(entry, table)),
    ensures
        ({
            let path = mount_request_step(volume, phase, reply).1->Done_0;
            &&& entry_volume(next) matches Some(found)
            &&& found.mountpoint() matches Some(mountpoint)
            &&& path_text(mountpoint) == Some(path)
        }),
{
    law_kept_volume_is_found(table, entry, held, next);
    law_path_is_where_it_was_mounted(volume, phase, reply);
}

/// A removal that fails keeps its volume: whoever locks the name next finds it
/// with the same options and LV, as far as it was taken down.
pub proof fn law_failed_removal_keeps_volume(
    table: Map<Seq<char>, VolumeState>,
    entry: HeldVolume<'_>,
    phase: RemovePhase,
    reply: ReplyView,
    removal: Removal<'_>,
    next: VolumeEntry<'_>,
)
    requires
        removes(
            held_name(entry),
            held_volume(entry),
            left_volumes(entry),
            phase,
            reply,
            removal,
        ),
        removal matches Removal::Failed { entry: kept, .. } && keeps(kept),
        entry_name(next) == held_name(entry),
        locks(next, given_up(table, held_name(entry), left_volumes(entry))),
    ensures
        ({
            let after = remove_step(held_volume(entry), phase, reply).0;
            &&& entry_volume(next) == Some(after)
            &&& after.opts() == held_volume(entry).opts()
            &&& after.lv() == held_volume(entry).lv()
        }),
{
}

/// A request on a volume that is not there changes nothing: the table is as it
/// was, and the name is still free.
pub proof fn law_absent_volume_stays_absent(
    table: Map<Seq<char>, VolumeState>,
    entry: VolumeEntry<'_>,
    found: Result<HeldVolume<'_>, Absent<'_>>,
)
    requires
        locks(entry, table),
        finds(entry, found),
        found matches Err(absent) && stays_vacant(absent.entry),
    ensures
        left_by(entry, table) == table,
        !table.contains_key(entry_name(entry)),
{
    assert(left_by(entry, table) =~= table);
}

/// A finished removal takes the volume out of the table, and nothing else: the
/// table is as it was without that name. Where the name was free before the
/// volume was created, the table is as it was before.
pub proof fn law_removal_restores_table(
    before: Map<Seq<char>, VolumeState>,
    table: Map<Seq<char>, VolumeState>,
    entry: HeldVolume<'_>,
    phase: RemovePhase,
    reply: ReplyView,
    removal: Removal<'_>,
)
    requires
        removes(
            held_name(entry),
            held_volume(entry),
            left_volumes(entry),
            phase,
            reply,
            removal,
        ),
        removal is Done,
    ensures
        given_up(table, held_name(entry), left_volumes(entry)) == table.remove(held_name(entry)),
        !before.contains_key(held_name(entry)) && table == before.insert(
            held_name(entry),
            table[held_name(entry)],
        ) ==> given_up(table, held_name(entry), left_volumes(entry)) == before,
{
    let name = held_name(entry);
    if !before.contains_key(name) && table == before.insert(name, table[name]) {
        assert(before.insert(name, table[name]).remove(name) =~= before);
    }
}

/// Once a volume is removed, its name is free: whoever locks it next finds no
/// volume under it, and may create one with any options.
pub proof fn law_removed_name_is_free(
    table: Map<Seq<char>, VolumeState>,
    entry: HeldVolume<'_>,
    phase: RemovePhase,
    reply: ReplyView,
    removal: Removal<'_>,
    next: VolumeEntry<'_>,
    opts: OptsView,
)
    requires
        removes(
            held_name(entry),
            held_volume(entry),
            left_volumes(entry),
            phase,
            reply,
            removal,
        ),
        removal is Done,
        entry_name(next) == held_name(entry),
        locks(next, given_up(table, held_name(entry), left_volumes(entry))),
    ensures
        entry_volume(next) is None,
        created(entry_volume(next), opts) == Ok::<VolumeView, VolumeError>(
            VolumeView::UnProvisioned { creation_opts: opts },
        ),
{
}

/// Removing a volume that is not there is done at once, and changes nothing.
pub proof fn law_absent_removal_changes_nothing(
    table: Map<Seq<char>, VolumeState>,
    entry: VolumeEntry<'_>,
    removal: Removal<'_>,
)
    requires
        locks(entry, table),
        !table.contains_key(entry_name(entry)),
        starts_removal(entry, removal),
    ensures
        ({
            &&& removal matches Removal::Absent { vacant }
            &&& vacant_name(vacant) == entry_name(entry)
            &&& stays_vacant(vacant) ==> left_by(entry, table) == table
        }),
{
    assert(!entry_left(entry).contains_key(entry_name(entry)) ==> left_by(entry, table) =~= table);
}

/// Removing a volume again is done at once: where a removal was finished and the
/// name was not created again since, a second removal asks for no effect, and
/// leaves the table as it was.
pub proof fn law_second_removal_is_done(
    table: Map<Seq<char>, VolumeState>,
    entry: HeldVolume<'_>,
    phase: RemovePhase,
    reply: ReplyView,
    removal: Removal<'_>,
    again: VolumeEntry<'_>,
    second: Removal<'_>,
)
    requires
        removes(
            held_name(entry),
            held_volume(entry),
            left_volumes(entry),
            phase,
            reply,
            removal,
        ),
        removal is Done,
        entry_name(again) == held_name(entry),
        locks(again, given_up(table, held_name(entry), left_volumes(entry))),
        starts_removal(again, second),
    ensures
        ({
            let first = given_up(table, held_name(entry), left_volumes(entry));
            &&& second matches Removal::Absent { vacant }
            &&& vacant_name(vacant) == held_name(entry)
            &&& stays_vacant(vacant) ==> left_by(again, first) == first
        }),
{
    law_absent_removal_changes_nothing(
        given_up(table, held_name(entry), left_volumes(entry)),
        again,
        second,
    );
}

/// What is said of an entry's volume is said of what the entry holds under its
/// name.
pub proof fn law_entry_volume(entry: VolumeEntry<'_>, held: HeldVolume<'_>)
    ensures
        held_volume(held) == held_volumes(held)[held_name(held)]@,
        entry_volume(entry) is Some <==> entry_volumes(entry).contains_key(entry_name(entry)),
        entry_volume(entry) matches Some(volume) ==> volume == entry_volumes(
            entry,
        )[entry_name(entry)]@,
{
}

/// A plugin starts with the volumes that it is given, under their names, on the
/// thin pool that it is given.
pub proof fn law_new_plugin(
    thin_pool: String,
    prexisting: Vec<(String, VolumeState)>,
    plugin: DockerLvmTmpFs,
    path: &str,
    volumes: &Arc<VolumeMap>,
)
    requires
        call_ensures(DockerLvmTmpFs::new, (thin_pool, prexisting), plugin),
        call_ensures(DockerLvmTmpFs::thin_pool, (&plugin,), path),
        call_ensures(DockerLvmTmpFs::volumes, (&plugin,), volumes),
    ensures
        path@ == thin_pool@,
        initial_volumes(**volumes) == by_name(prexisting@),
{
}

/// The plugin's volumes are of use on this host only.
pub proof fn law_capabilities(capabilities: Capabilities)
    requires
        call_ensures(DockerLvmTmpFs::capabilities, (), capabilities),
    ensures
        capabilities.scope@ == "local"@,
{
}

/// What a call of `create` comes to. A volume with an LV is refused, with an
/// error that says whether it is mounted, and stays as it is; any other name is
/// recorded with the options that were asked for, and has no LV yet. Either way
/// the place is still that of the request.
pub proof fn law_create_call<'h>(entry: VolumeEntry<'h>, opts: ValidOpts, creation: Creation<'h>)
    requires
        call_ensures(DockerLvmTmpFs::create, (entry, opts), creation),
    ensures
        ({
            let name = entry_name(entry);
            let there = entry_volumes(entry).contains_key(name);
            let volume = entry_volumes(entry)[name]@;
            match creation {
                Creation::Recorded(recorded) => {
                    &&& !there || volume is UnProvisioned
                    &&& held_name(recorded) == name
                    &&& held_volumes(recorded)[name]@ == VolumeView::UnProvisioned {
                        creation_opts: opts@,
                    }
                    &&& left_volumes(recorded) == entry_left(entry)
                },
                Creation::Refused { entry: kept, error } => {
                    &&& there
                    &&& volume is Mounted || volume is Provisioned
                    &&& volume is Mounted ==> error == VolumeError::CreateMounted
                    &&& volume is Provisioned ==> error == VolumeError::CreateExisting
                    &&& held_name(kept) == name
                    &&& held_volumes(kept) == entry_volumes(entry)
                    &&& left_volumes(kept) == entry_left(entry)
                },
            }
        }),
{
}

/// What a call of `find` comes to: the volume under the name, as it is, or the
/// vacant name where there is none.
pub proof fn law_find_call<'h>(
    entry: VolumeEntry<'h>,
    found: Result<HeldVolume<'h>, Absent<'h>>,
)
    requires
        call_ensures(DockerLvmTmpFs::find, (entry,), found),
    ensures
        found is Ok <==> entry_volumes(entry).contains_key(entry_name(entry)),
        match found {
            Ok(volume) => {
                &&& held_name(volume) == entry_name(entry)
                &&& held_volumes(volume) == entry_volumes(entry)
                &&& left_volumes(volume) == entry_left(entry)
            },
            Err(absent) => {
                &&& absent.error == VolumeError::NotFound
                &&& vacant_name(absent.entry) == entry_name(entry)
                &&& vacant_left(absent.entry) == entry_left(entry)
            },
        },
{
}

/// A call of `provision` is one step of provisioning the volume that is held,
/// under the volume's own name, on the same place.
pub proof fn law_provision_request(
    entry: &mut HeldVolume<'_>,
    phase: ProvisionPhase,
    reply: Reply,
    step: Step<ProvisionPhase, (), VolumeError>,
)
    requires
        call_ensures(DockerLvmTmpFs::provision, (entry, phase, reply), step),
    ensures
        ({
            let name = held_name(*old(entry));
            &&& held_name(*final(entry)) == name
            &&& left_volumes(*final(entry)) == left_volumes(*old(entry))
            &&& (held_volumes(*final(entry))[name]@, step@) == provision_step(
                held_volumes(*old(entry))[name]@,
                phase@,
                name,
                reply@,
            )
        }),
{
}

/// A call of `mount` is one step of mounting the volume that is held, on the same
/// place. A mount that is done is answered with the text of its path; where the
/// path is not text, the request fails. Only a volume whose mounts cannot be
/// counted any further is not mounted, and stays as it is.
pub proof fn law_mount_request(
    entry: &mut HeldVolume<'_>,
    phase: MountPhase,
    reply: Reply,
    step: Option<Step<MountPhase, String, VolumeError>>,
)
    requires
        call_ensures(DockerLvmTmpFs::mount, (entry, phase, reply), step),
    ensures
        ({
            let name = held_name(*old(entry));
            let volume = held_volumes(*old(entry))[name]@;
            let after = held_volumes(*final(entry))[name]@;
            &&& held_name(*final(entry)) == name
            &&& left_volumes(*final(entry)) == left_volumes(*old(entry))
            &&& step is None <==> volume is Mounted && volume->mounted_by >= usize::MAX
            &&& match step {
                None => after == volume,
                Some(taken) => {
                    &&& after == mount_step(volume, phase@, reply@).0
                    &&& match mount_step(volume, phase@, reply@).1 {
                        StepView::Perform { effect, next } => taken@ == (StepView::<
                            MountPhaseView,
                            Seq<char>,
                            VolumeError,
                        >::Perform { effect, next }),
                        StepView::Failed(error) => taken@ == StepView::<
                            MountPhaseView,
                            Seq<char>,
                            VolumeError,
                        >::Failed(error),
                        StepView::Done(path) => if valid_utf8(path) {
                            &&& taken@ matches StepView::Done(text)
                            &&& encode_utf8(text) == path
                        } else {
                            taken@ == StepView::<MountPhaseView, Seq<char>, VolumeError>::Failed(
                                VolumeError::MountpointNotText,
                            )
                        },
                    }
                },
            }
        }),
{
    let volume = held_volumes(*old(entry))[held_name(*old(entry))]@;
    if let StepView::Done(path) = mount_step(volume, phase@, reply@).1 {
        law_path_text(path);
    }
}

/// A call of `unmount` is one step of unmounting the volume that is held, on the
/// same place. Only a volume that is mounted on behalf of nobody is not
/// unmounted, and stays as it is.
pub proof fn law_unmount_request(
    entry: &mut HeldVolume<'_>,
    phase: UnmountPhase,
    reply: Reply,
    step: Option<Step<UnmountPhase, (), VolumeError>>,
)
    requires
        call_ensures(DockerLvmTmpFs::unmount, (entry, phase, reply), step),
    ensures
        ({
            let name = held_name(*old(entry));
            let volume = held_volumes(*old(entry))[name]@;
            let after = held_volumes(*final(entry))[name]@;
            &&& held_name(*final(entry)) == name
            &&& left_volumes(*final(entry)) == left_volumes(*old(entry))
            &&& step is None <==> volume is Mounted && volume->mounted_by == 0
            &&& step is None ==> after == volume
            &&& step matches Some(taken) ==> (after, taken@) == unmount_step(volume, phase, reply@)
        }),
{
}

/// What a call of `remove` comes to. A volume is gone exactly where it has no LV,
/// or where LVM was asked to remove its LV and said that it is gone, with no job
/// left; then nothing is left under its name. On any other answer of LVM the
/// removal fails, and the volume keeps its place and its LV. Before that the
/// mount is torn down, and the LV is asked for only once it is.
pub proof fn law_remove_call<'h>(
    entry: HeldVolume<'h>,
    phase: RemovePhase,
    reply: Reply,
    removal: Removal<'h>,
)
    requires
        call_ensures(DockerLvmTmpFs::remove, (entry, phase, reply), removal),
    ensures
        ({
            let name = held_name(entry);
            let volume = held_volumes(entry)[name]@;
            let freed = reply@ == ReplyView::LvRemoved { job: "/"@ };
            &&& !(removal is Absent)
            &&& removal is Done <==> if phase is RemovingLv {
                freed
            } else {
                volume is UnProvisioned
            }
            &&& removal matches Removal::Done { taken } ==> {
                &&& taken.0@ == name
                &&& taken.1@ == volume
                &&& !left_volumes(entry).contains_key(name)
            }
            &&& phase is RemovingLv && !freed ==> {
                &&& removal matches Removal::Failed { entry: kept, error }
                &&& error == VolumeError::RemoveLvFailed
                &&& held_name(kept) == name
                &&& held_volumes(kept)[name]@ == volume
                &&& left_volumes(kept) == left_volumes(entry)
            }
            &&& phase matches RemovePhase::Unmounting { phase: unmounting } ==> match volume {
                VolumeView::UnProvisioned { .. } => true,
                VolumeView::Provisioned { lv, .. } => {
                    &&& removal matches Removal::Perform { entry: kept, effect, next }
                    &&& effect@ == EffectView::RemoveLv { lv, timeout: -1 as i32 }
                    &&& next == RemovePhase::RemovingLv
                    &&& held_name(kept) == name
                    &&& held_volumes(kept)[name]@ == volume
                    &&& left_volumes(kept) == left_volumes(entry)
                },
                VolumeView::Mounted { .. } => {
                    let (after, torn) = force_unmount_step(volume, unmounting, reply@);
                    match torn {
                        StepView::Perform { effect: asked, next: then } => {
                            &&& removal matches Removal::Perform { entry: kept, effect, next }
                            &&& effect@ == asked
                            &&& next == RemovePhase::Unmounting { phase: then }
                            &&& held_name(kept) == name
                            &&& held_volumes(kept)[name]@ == after
                            &&& left_volumes(kept) == left_volumes(entry)
                        },
                        StepView::Failed(kind) => {
                            &&& removal matches Removal::Failed { entry: kept, error }
                            &&& error == VolumeError::InUse <==> kind == IoErrorKind::ResourceBusy
                            &&& error == VolumeError::InUse || error
                                == VolumeError::ForceUnmountFailed
                            &&& held_name(kept) == name
                            &&& held_volumes(kept)[name]@ == volume
                            &&& left_volumes(kept) == left_volumes(entry)
                        },
                        StepView::Done(_) => false,
                    }
                },
            }
        }),
{
    law_force_unmount(held_volume(entry), ReplyView::Begin, reply@, ReplyView::Begin);
}

/// What a call of `start_remove` comes to. Where there is no such volume the
/// removal is over, and the name is handed back. A recorded volume without an LV
/// is gone at once. Otherwise the volume keeps its place while the first effect
/// is performed: the kernel is asked to unmount a mounted volume, and LVM to
/// remove the LV of one that is not mounted.
pub proof fn law_start_remove_call<'h>(entry: VolumeEntry<'h>, removal: Removal<'h>)
    requires
        call_ensures(DockerLvmTmpFs::start_remove, (entry,), removal),
    ensures
        ({
            let name = entry_name(entry);
            let volume = entry_volumes(entry)[name]@;
            if !entry_volumes(entry).contains_key(name) {
                &&& removal matches Removal::Absent { vacant }
                &&& vacant_name(vacant) == name
                &&& vacant_left(vacant) == entry_left(entry)
            } else if volume is UnProvisioned {
                &&& removal matches Removal::Done { taken }
                &&& taken.0@ == name
                &&& taken.1@ == volume
                &&& !entry_left(entry).contains_key(name)
            } else {
                &&& removal matches Removal::Perform { entry: held, effect, next }
                &&& held_name(held) == name
                &&& held_volumes(held)[name]@ == volume
                &&& left_volumes(held) == entry_left(entry)
                &&& volume matches VolumeView::Provisioned { lv, .. } ==> {
                    &&& effect@ == EffectView::RemoveLv { lv, timeout: -1 as i32 }
                    &&& next == RemovePhase::RemovingLv
                }
                &&& volume matches VolumeView::Mounted { mount_dir, .. } ==> {
                    &&& effect@ == EffectView::Unmount { target: mountpoint_of(mount_dir) }
                    &&& next == RemovePhase::Unmounting { phase: UnmountPhase::Unmounting }
                }
            }
        }),
{
}

/// A call of `keep` leaves the table with the volume that was held, and nothing
/// else under its name.
pub proof fn law_keep_call(entry: HeldVolume<'_>, name: String)
    requires
        call_ensures(DockerLvmTmpFs::keep, (entry,), name),
    ensures
        name@ == held_name(entry),
        left_volumes(entry).contains_key(name@),
        left_volumes(entry)[name@] == held_volumes(entry)[name@],
{
}

/// A call of `leave` leaves the table with nothing under the name.
pub proof fn law_leave_call(entry: VacantName<'_>, name: String)
    requires
        call_ensures(DockerLvmTmpFs::leave, (entry,), name),
    ensures
        name@ == vacant_name(entry),
        !vacant_left(entry).contains_key(name@),
{
}

/// What a path request is answered: an absent volume is not found, one without a
/// mountpoint, and no other, is not mounted, a mountpoint that is not UTF-8 is
/// no answer, and any other is answered with the text whose bytes it is.
pub proof fn law_path_request(
    mountpoint: Option<Option<Vec<u8>>>,
    answer: Result<String, VolumeError>,
)
    requires
        call_ensures(DockerLvmTmpFs::path, (mountpoint,), answer),
    ensures
        answer == Err::<String, VolumeError>(VolumeError::NotFound) <==> mountpoint is None,
        answer == Err::<String, VolumeError>(VolumeError::NotMounted) <==> (mountpoint matches Some(
            m,
        ) && m is None),
        answer == Err::<String, VolumeError>(VolumeError::PathNotText) <==> (mountpoint matches Some(
            Some(path),
        ) && !valid_utf8(path@)),
        answer is Ok <==> (mountpoint matches Some(Some(path)) && valid_utf8(path@)),
        answer matches Ok(text) ==> (mountpoint matches Some(Some(path)) && encode_utf8(text@)
            == path@),
{
    if let Some(Some(path)) = mountpoint {
        law_path_text(path@);
    }
}

/// A volume has the path that its mount request was answered with: after a mount
/// request that ended with a text, the volume is reported with a mountpoint, and
/// a path request on it is answered with the same text.
pub proof fn law_path_after_mount(
    entry: &mut HeldVolume<'_>,
    phase: MountPhase,
    reply: Reply,
    mounted: String,
    state: &VolumeState,
    name: &str,
    reported: DockerVolume<()>,
    answer: Result<String, VolumeError>,
)
    requires
        call_ensures(DockerLvmTmpFs::mount, (entry, phase, reply), Some(Step::Done(mounted))),
        *state == held_volumes(*final(entry))[held_name(*final(entry))],
        call_ensures(VolumeState::as_docker_volume::<()>, (state, name), reported),
        call_ensures(DockerLvmTmpFs::path, (Some(reported.mountpoint),), answer),
    ensures
        reported.mountpoint is Some,
        answer matches Ok(text) && text@ == mounted@,
{
    let volume = held_volume(*old(entry));
    law_path_is_where_it_was_mounted(volume, phase@, reply@);
}

/// A path request on a volume as it is reported: where the volume is mounted, the
/// answer is the text of the mountpoint inside its directory, and where it is
/// not, the answer is that it is not mounted.
pub proof fn law_path_of_volume(
    state: &VolumeState,
    name: &str,
    reported: DockerVolume<()>,
    answer: Result<String, VolumeError>,
)
    requires
        call_ensures(VolumeState::as_docker_volume::<()>, (state, name), reported),
        call_ensures(DockerLvmTmpFs::path, (Some(reported.mountpoint),), answer),
    ensures
        match *state {
            VolumeState::Mounted { mount_dir, .. } => if valid_utf8(mountpoint_of(mount_dir@)) {
                answer matches Ok(text) && encode_utf8(text@) == mountpoint_of(mount_dir@)
            } else {
                answer == Err::<String, VolumeError>(VolumeError::PathNotText)
            },
            _ => answer == Err::<String, VolumeError>(VolumeError::NotMounted),
        },
{
    law_path_request(Some(reported.mountpoint), answer);
}

} // verus!
