//! The requests that Docker makes of the plugin.
//!
//! Each request locks one entry of the table of volumes, decides on it here and
//! keeps it locked while the effects that were decided on are performed.
use crate::effect::{Effect, EffectView, IoErrorKind, Reply, ReplyView, Step, StepView, NO_JOB, WAIT};
use crate::error::VolumeError;
use crate::mountpoint::{path_text, text_of};
use crate::opts::{OptsView, ValidOpts};
use crate::volume_state::{
    force_unmount_step, mount_step, provision_step, unmount_step, MountPhase, MountPhaseView,
    ProvisionPhase, UnmountPhase, VolumeState, VolumeView,
};
use crate::volumes::{
    by_name, entry_left, entry_name, entry_volumes, give_up, give_up_vacant, held, held_mut,
    held_name, held_volumes, initial_volumes, insert, left_volumes, look, map_from, name_of, take,
    vacant_left, vacant_name, HeldVolume, VacantName, VolumeEntry, VolumeMap,
};
use std::sync::Arc;
use vstd::prelude::*;

verus! {

/// The plugin: the thin pool that volumes are allocated from, and the table of
/// volumes.
pub struct DockerLvmTmpFs {
    thin_pool: String,
    volumes: Arc<VolumeMap>,
}

impl DockerLvmTmpFs {
    /// The object path of the thin pool.
    pub closed spec fn pool(self) -> Seq<char> {
        self.thin_pool@
    }

    /// The table of volumes.
    pub closed spec fn table(self) -> Arc<VolumeMap> {
        self.volumes
    }

    /// A plugin on the thin pool with the object path `thin_pool`, with volumes
    /// that exist already; of those with the same name, the last.
    pub fn new(thin_pool: String, prexisting: Vec<(String, VolumeState)>) -> (plugin: Self)
        ensures
            plugin.pool() == thin_pool@,
            initial_volumes(*plugin.table()) == by_name(prexisting@),
    {
        DockerLvmTmpFs { thin_pool, volumes: Arc::new(map_from(prexisting)) }
    }

    /// The object path of the thin pool.
    pub fn thin_pool(&self) -> (path: &str)
        ensures
            path@ == self.pool(),
    {
        self.thin_pool.as_str()
    }

    /// The table of volumes.
    pub fn volumes(&self) -> (volumes: &Arc<VolumeMap>)
        ensures
            *volumes == self.table(),
    {
        &self.volumes
    }
}

/// The volume that a locked entry holds.
pub open spec fn held_volume(entry: HeldVolume<'_>) -> VolumeView {
    held_volumes(entry)[held_name(entry)]@
}

/// The volume that an entry holds, if it holds one.
pub open spec fn entry_volume(entry: VolumeEntry<'_>) -> Option<VolumeView> {
    if entry_volumes(entry).contains_key(entry_name(entry)) {
        Some(entry_volumes(entry)[entry_name(entry)]@)
    } else {
        None
    }
}

/// What creating a volume comes to, where the volume may be recorded already:
/// only one without an LV, left over from an attempt that failed, is recorded
/// anew.
pub open spec fn created(volume: Option<VolumeView>, opts: OptsView) -> Result<
    VolumeView,
    VolumeError,
> {
    match volume {
        Some(VolumeView::Mounted { .. }) => Err(VolumeError::CreateMounted),
        Some(VolumeView::Provisioned { .. }) => Err(VolumeError::CreateExisting),
        _ => Ok(VolumeView::UnProvisioned { creation_opts: opts }),
    }
}

/// The answer to a request to create a volume.
pub enum Creation<'h> {
    /// The volume is recorded, and is to be provisioned.
    Recorded(HeldVolume<'h>),
    /// The volume exists, and stays as it is.
    Refused { entry: HeldVolume<'h>, error: VolumeError },
}

/// Whether `creation` answers a request to create the volume that an entry is
/// for.
pub open spec fn creates(entry: VolumeEntry<'_>, opts: OptsView, creation: Creation<'_>) -> bool {
    match creation {
        Creation::Recorded(recorded) => {
            &&& held_name(recorded) == entry_name(entry)
            &&& created(entry_volume(entry), opts) == Ok::<VolumeView, VolumeError>(
                held_volume(recorded),
            )
            &&& held_volume(recorded).opts().valid()
            &&& left_volumes(recorded) == entry_left(entry)
        },
        Creation::Refused { entry: kept, error } => {
            &&& held_name(kept) == entry_name(entry)
            &&& held_volumes(kept) == entry_volumes(entry)
            &&& left_volumes(kept) == entry_left(entry)
            &&& created(entry_volume(entry), opts) == Err::<VolumeView, VolumeError>(error)
        },
    }
}

/// How far the removal of a volume has come.
#[derive(Debug, Clone, Copy, PartialEq, Eq, Structural)]
pub enum RemovePhase {
    Unmounting { phase: UnmountPhase },
    RemovingLv,
}

impl View for RemovePhase {
    type V = RemovePhase;

    open spec fn view(&self) -> RemovePhase {
        *self
    }
}

/// One step of removing a volume: from the volume, the phase and the reply to
/// the phase's effect, the volume afterwards and the step taken. A mount is
/// torn down first, then the LV is removed; the removal is done when the entry
/// can go.
pub open spec fn remove_step(volume: VolumeView, phase: RemovePhase, reply: ReplyView) -> (
    VolumeView,
    StepView<RemovePhase, (), VolumeError>,
) {
    match phase {
        RemovePhase::Unmounting { phase } => {
            let (unmounted, step) = force_unmount_step(volume, phase, reply);
            match step {
                StepView::Perform { effect, next } => (
                    unmounted,
                    StepView::Perform { effect, next: RemovePhase::Unmounting { phase: next } },
                ),
                StepView::Failed(kind) => (
                    unmounted,
                    StepView::Failed(
                        if kind == IoErrorKind::ResourceBusy {
                            VolumeError::InUse
                        } else {
                            VolumeError::ForceUnmountFailed
                        },
                    ),
                ),
                StepView::Done(_) => match unmounted.lv() {
                    Some(lv) => (
                        unmounted,
                        StepView::Perform {
                            effect: EffectView::RemoveLv { lv, timeout: WAIT },
                            next: RemovePhase::RemovingLv,
                        },
                    ),
                    None => (unmounted, StepView::Done(())),
                },
            }
        },
        RemovePhase::RemovingLv => match reply {
            ReplyView::LvRemoved { job } => if job == NO_JOB@ {
                (volume, StepView::Done(()))
            } else {
                (volume, StepView::Failed(VolumeError::RemoveLvFailed))
            },
            _ => (volume, StepView::Failed(VolumeError::RemoveLvFailed)),
        },
    }
}

/// One step of a removal.
pub enum Removal<'h> {
    Perform { entry: HeldVolume<'h>, effect: Effect, next: RemovePhase },
    /// The volume is gone from the table: what was taken out.
    Done { taken: (String, VolumeState) },
    /// There is no such volume: its name is as vacant as it was.
    Absent { vacant: VacantName<'h> },
    Failed { entry: HeldVolume<'h>, error: VolumeError },
}

/// Whether `removal` is the step that `remove_step` takes on the volume `name`,
/// on whose place the table is left with `left`.
pub open spec fn removes(
    name: Seq<char>,
    volume: VolumeView,
    left: Map<Seq<char>, VolumeState>,
    phase: RemovePhase,
    reply: ReplyView,
    removal: Removal<'_>,
) -> bool {
    let (after, step) = remove_step(volume, phase, reply);
    match removal {
        Removal::Perform { entry, effect, next } => {
            &&& step == StepView::<RemovePhase, (), VolumeError>::Perform { effect: effect@, next }
            &&& held_name(entry) == name
            &&& held_volume(entry) == after
            &&& left_volumes(entry) == left
        },
        Removal::Done { taken } => {
            &&& step == StepView::<RemovePhase, (), VolumeError>::Done(())
            &&& taken.0@ == name
            &&& taken.1@ == after
            &&& !left.contains_key(name)
        },
        Removal::Absent { .. } => false,
        Removal::Failed { entry, error } => {
            &&& step == StepView::<RemovePhase, (), VolumeError>::Failed(error)
            &&& held_name(entry) == name
            &&& held_volume(entry) == after
            &&& left_volumes(entry) == left
        },
    }
}

/// Whether `removal` is the first step of a request to remove the volume that
/// an entry is for.
pub open spec fn starts_removal(entry: VolumeEntry<'_>, removal: Removal<'_>) -> bool {
    match entry_volume(entry) {
        None => {
            &&& removal matches Removal::Absent { vacant }
            &&& vacant_name(vacant) == entry_name(entry)
            &&& vacant_left(vacant) == entry_left(entry)
        },
        Some(volume) => removes(
            entry_name(entry),
            volume,
            entry_left(entry),
            RemovePhase::Unmounting { phase: UnmountPhase::Begin },
            ReplyView::Begin,
            removal,
        ),
    }
}

/// The answer to a request on a volume that is not there: its name is as vacant
/// as it was.
pub struct Absent<'h> {
    pub entry: VacantName<'h>,
    pub error: VolumeError,
}

/// Whether `found` is the volume that an entry is for, or says that there is
/// none.
pub open spec fn finds(
    entry: VolumeEntry<'_>,
    found: Result<HeldVolume<'_>, Absent<'_>>,
) -> bool {
    match found {
        Ok(volume) => {
            &&& held_name(volume) == entry_name(entry)
            &&& held_volumes(volume) == entry_volumes(entry)
            &&& entry_volume(entry) == Some(held_volume(volume))
            &&& left_volumes(volume) == entry_left(entry)
        },
        Err(absent) => {
            &&& entry_volume(entry) is None
            &&& vacant_name(absent.entry) == entry_name(entry)
            &&& vacant_left(absent.entry) == entry_left(entry)
            &&& absent.error == VolumeError::NotFound
        },
    }
}

/// Whether the table is left with the volume that a locked entry holds.
pub open spec fn keeps(entry: HeldVolume<'_>) -> bool {
    left_volumes(entry) == map![held_name(entry) => held_volumes(entry)[held_name(entry)]]
}

/// Whether the table is left without a volume under the name of a vacant entry.
pub open spec fn stays_vacant(entry: VacantName<'_>) -> bool {
    !vacant_left(entry).contains_key(vacant_name(entry))
}

/// The step of a mount request: that of the mount, with the mountpoint as text.
pub open spec fn mount_request_step(
    volume: VolumeView,
    phase: MountPhaseView,
    reply: ReplyView,
) -> (VolumeView, StepView<MountPhaseView, Seq<char>, VolumeError>) {
    let (after, step) = mount_step(volume, phase, reply);
    (
        after,
        match step {
            StepView::Perform { effect, next } => StepView::Perform { effect, next },
            StepView::Failed(error) => StepView::Failed(error),
            StepView::Done(path) => match path_text(path) {
                Some(text) => StepView::Done(text),
                None => StepView::Failed(VolumeError::MountpointNotText),
            },
        },
    )
}

/// Whether `answer` answers a request for a volume's path, given the volume's
/// mountpoint if there is such a volume and it is mounted.
pub open spec fn path_answers(
    mountpoint: Option<Option<Vec<u8>>>,
    answer: Result<String, VolumeError>,
) -> bool {
    match mountpoint {
        None => answer == Err::<String, VolumeError>(VolumeError::NotFound),
        Some(None) => answer == Err::<String, VolumeError>(VolumeError::NotMounted),
        Some(Some(path)) => match path_text(path@) {
            Some(text) => answer matches Ok(t) && t@ == text,
            None => answer == Err::<String, VolumeError>(VolumeError::PathNotText),
        },
    }
}

/// What the plugin can do.
#[derive(Debug, PartialEq, Eq)]
pub struct Capabilities {
    pub scope: String,
}

impl DockerLvmTmpFs {
    /// Records a volume under the name of an entry, unless a volume with an LV
    /// has that name.
    pub fn create<'h>(entry: VolumeEntry<'h>, opts: ValidOpts) -> (creation: Creation<'h>)
        ensures
            creates(entry, opts@, creation),
    {
        let creation_opts = opts.into_opts();
        let mut found = match look(entry) {
            Err(vacant) => {
                return Creation::Recorded(
                    insert(vacant, VolumeState::UnProvisioned { creation_opts }),
                );
            },
            Ok(found) => found,
        };
        let error = match held(&found) {
            VolumeState::Mounted { .. } => VolumeError::CreateMounted,
            VolumeState::Provisioned { .. } => VolumeError::CreateExisting,
            VolumeState::UnProvisioned { .. } => {
                *held_mut(&mut found) = VolumeState::UnProvisioned { creation_opts };
                return Creation::Recorded(found);
            },
        };
        Creation::Refused { entry: found, error }
    }

    /// One step of provisioning a volume that was recorded, under its name.
    pub fn provision(entry: &mut HeldVolume<'_>, phase: ProvisionPhase, reply: Reply) -> (step: Step<
        ProvisionPhase,
        (),
        VolumeError,
    >)
        ensures
            held_name(*final(entry)) == held_name(*old(entry)),
            left_volumes(*final(entry)) == left_volumes(*old(entry)),
            (held_volume(*final(entry)), step@) == provision_step(
                held_volume(*old(entry)),
                phase@,
                held_name(*old(entry)),
                reply@,
            ),
            held_volume(*old(entry)).well_formed() ==> held_volume(*final(entry)).well_formed(),
    {
        let name = name_of(entry).clone();
        held_mut(entry).provision(phase, name.as_str(), reply)
    }

    /// The volume that a request is about.
    pub fn find<'h>(entry: VolumeEntry<'h>) -> (found: Result<HeldVolume<'h>, Absent<'h>>)
        ensures
            finds(entry, found),
    {
        match look(entry) {
            Ok(volume) => Ok(volume),
            Err(vacant) => Err(Absent { entry: vacant, error: VolumeError::NotFound }),
        }
    }

    /// One step of a request to mount a volume, which ends with the path of the
    /// mountpoint; `None` where the mounts of the volume cannot be counted any
    /// further, and then nothing changes.
    pub fn mount(entry: &mut HeldVolume<'_>, phase: MountPhase, reply: Reply) -> (step: Option<
        Step<MountPhase, String, VolumeError>,
    >)
        ensures
            held_name(*final(entry)) == held_name(*old(entry)),
            left_volumes(*final(entry)) == left_volumes(*old(entry)),
            held_volume(*old(entry)).well_formed() ==> held_volume(*final(entry)).well_formed(),
            match step {
                Some(taken) => {
                    &&& held_volume(*old(entry)).can_count()
                    &&& (held_volume(*final(entry)), taken@) == mount_request_step(
                        held_volume(*old(entry)),
                        phase@,
                        reply@,
                    )
                },
                None => {
                    &&& !held_volume(*old(entry)).can_count()
                    &&& held_volume(*final(entry)) == held_volume(*old(entry))
                },
            },
    {
        let state = held_mut(entry);
        if !state.can_count() {
            return None;
        }
        Some(
            match state.mount(phase, reply) {
                Step::Perform { effect, next } => Step::Perform { effect, next },
                Step::Failed(error) => Step::Failed(error),
                Step::Done(path) => match text_of(path) {
                    Some(text) => Step::Done(text),
                    None => Step::Failed(VolumeError::MountpointNotText),
                },
            },
        )
    }

    /// One step of a request to unmount a volume; `None` where the volume is
    /// mounted on behalf of nobody, and then nothing changes.
    pub fn unmount(entry: &mut HeldVolume<'_>, phase: UnmountPhase, reply: Reply) -> (step: Option<
        Step<UnmountPhase, (), VolumeError>,
    >)
        ensures
            held_name(*final(entry)) == held_name(*old(entry)),
            left_volumes(*final(entry)) == left_volumes(*old(entry)),
            match step {
                Some(taken) => {
                    &&& held_volume(*old(entry)).well_formed()
                    &&& held_volume(*final(entry)).well_formed()
                    &&& (held_volume(*final(entry)), taken@) == unmount_step(
                        held_volume(*old(entry)),
                        phase,
                        reply@,
                    )
                },
                None => {
                    &&& !held_volume(*old(entry)).well_formed()
                    &&& held_volume(*final(entry)) == held_volume(*old(entry))
                },
            },
    {
        let state = held_mut(entry);
        if !state.is_well_formed() {
            return None;
        }
        Some(state.unmount(phase, reply))
    }

    /// The first step of a request to remove a volume. Where there is no such
    /// volume, an earlier request that Docker gave up on removed it, and the
    /// request is done.
    pub fn start_remove<'h>(entry: VolumeEntry<'h>) -> (removal: Removal<'h>)
        ensures
            starts_removal(entry, removal),
    {
        match look(entry) {
            Err(vacant) => Removal::Absent { vacant },
            Ok(volume) => DockerLvmTmpFs::remove(
                volume,
                RemovePhase::Unmounting { phase: UnmountPhase::Begin },
                Reply::Begin,
            ),
        }
    }

    /// One step of a request to remove a volume. LVM is to finish the removal
    /// of an LV before it answers.
    pub fn remove<'h>(entry: HeldVolume<'h>, phase: RemovePhase, reply: Reply) -> (removal: Removal<
        'h,
    >)
        requires
            phase is RemovingLv ==> (reply@ matches ReplyView::LvRemoved { job } ==> job == NO_JOB@),
        ensures
            removes(
                held_name(entry),
                held_volume(entry),
                left_volumes(entry),
                phase,
                reply@,
                removal,
            ),
    {
        let mut entry = entry;
        match phase {
            RemovePhase::Unmounting { phase } => match held_mut(&mut entry).force_unmount(
                phase,
                reply,
            ) {
                Step::Perform { effect, next } => {
                    return Removal::Perform {
                        entry,
                        effect,
                        next: RemovePhase::Unmounting { phase: next },
                    };
                },
                Step::Failed(kind) => {
                    let error = match kind {
                        IoErrorKind::ResourceBusy => VolumeError::InUse,
                        _ => VolumeError::ForceUnmountFailed,
                    };
                    return Removal::Failed { entry, error };
                },
                Step::Done(()) => {
                    let lv: Option<String> = match held(&entry) {
                        VolumeState::Provisioned { lv, .. } => Some(lv.clone()),
                        _ => None,
                    };
                    if let Some(lv) = lv {
                        return Removal::Perform {
                            entry,
                            effect: Effect::RemoveLv { lv, timeout: WAIT },
                            next: RemovePhase::RemovingLv,
                        };
                    }
                },
            },
            RemovePhase::RemovingLv => match reply {
                Reply::LvRemoved { .. } => {},
                _ => {
                    return Removal::Failed { entry, error: VolumeError::RemoveLvFailed };
                },
            },
        }
        Removal::Done { taken: take(entry) }
    }

    /// Ends a request on a volume, however it came out: the volume stays in the
    /// table as the request left it. The name is that of the volume.
    pub fn keep(entry: HeldVolume<'_>) -> (name: String)
        ensures
            name@ == held_name(entry),
            keeps(entry),
    {
        give_up(entry)
    }

    /// Ends a request on a volume that is not there: its name stays free.
    pub fn leave(entry: VacantName<'_>) -> (name: String)
        ensures
            name@ == vacant_name(entry),
            stays_vacant(entry),
    {
        give_up_vacant(entry)
    }

    /// The path of a volume, given the volume's mountpoint if there is such a
    /// volume and it is mounted.
    pub fn path(mountpoint: Option<Option<Vec<u8>>>) -> (path: Result<String, VolumeError>)
        ensures
            path_answers(mountpoint, path),
    {
        match mountpoint {
            None => Err(VolumeError::NotFound),
            Some(None) => Err(VolumeError::NotMounted),
            Some(Some(path)) => match text_of(path) {
                Some(text) => Ok(text),
                None => Err(VolumeError::PathNotText),
            },
        }
    }

    /// What the plugin can do: its volumes are of use on this host only.
    pub fn capabilities() -> (capabilities: Capabilities)
        ensures
            capabilities.scope@ == "local"@,
    {
        Capabilities { scope: "local".to_owned() }
    }
}

} // verus!
