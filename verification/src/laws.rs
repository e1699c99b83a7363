//! What holds of the operations on a volume, whatever the world replies.
//!
//! A run of an operation is what its steps come to over a sequence of replies:
//! the first reply begins the operation, each further one answers the effect
//! that was asked for last.
use crate::effect::{EffectView, IoErrorKind, ReplyView, StepView, NO_JOB, WAIT};
use crate::error::VolumeError;
use crate::mountpoint::{mountpoint_of, path_text};
use crate::opts::{is_read_only, OptsView};
use crate::plugin::{created, mount_request_step, remove_step, RemovePhase};
use crate::volume_state::{
    force_unmount_step, format_command, mount_step, provision_step, unmount_step, MountPhaseView,
    ProvisionPhaseView, UnmountPhase, VolumeView,
};
use vstd::prelude::*;

verus! {

/// What an operation came to: the volume afterwards, the effects that were
/// asked for, and how it ended, if it did.
pub struct Run<T> {
    pub volume: VolumeView,
    pub effects: Seq<EffectView>,
    pub outcome: Option<Result<T, VolumeError>>,
}

/// A run that has not ended.
pub open spec fn pending<T>(volume: VolumeView) -> Run<T> {
    Run { volume, effects: Seq::empty(), outcome: None }
}

/// A run that ended without an effect.
pub open spec fn ended<T>(volume: VolumeView, outcome: Result<T, VolumeError>) -> Run<T> {
    Run { volume, effects: Seq::empty(), outcome: Some(outcome) }
}

/// A run with one more effect before it.
pub open spec fn after_effect<T>(effect: EffectView, rest: Run<T>) -> Run<T> {
    Run { volume: rest.volume, effects: seq![effect] + rest.effects, outcome: rest.outcome }
}

/// A run of provisioning.
pub open spec fn provision_run(
    volume: VolumeView,
    phase: ProvisionPhaseView,
    name: Seq<char>,
    replies: Seq<ReplyView>,
) -> Run<()>
    decreases replies.len(),
{
    if replies.len() == 0 {
        pending(volume)
    } else {
        let (after, step) = provision_step(volume, phase, name, replies[0]);
        match step {
            StepView::Perform { effect, next } => after_effect(
                effect,
                provision_run(after, next, name, replies.drop_first()),
            ),
            StepView::Done(value) => ended(after, Ok(value)),
            StepView::Failed(error) => ended(after, Err(error)),
        }
    }
}

/// A run of a mount.
pub open spec fn mount_run(volume: VolumeView, phase: MountPhaseView, replies: Seq<ReplyView>) -> Run<
    Seq<u8>,
>
    decreases replies.len(),
{
    if replies.len() == 0 {
        pending(volume)
    } else {
        let (after, step) = mount_step(volume, phase, replies[0]);
        match step {
            StepView::Perform { effect, next } => after_effect(
                effect,
                mount_run(after, next, replies.drop_first()),
            ),
            StepView::Done(path) => ended(after, Ok(path)),
            StepView::Failed(error) => ended(after, Err(error)),
        }
    }
}

/// A run of an unmount.
pub open spec fn unmount_run(volume: VolumeView, phase: UnmountPhase, replies: Seq<ReplyView>) -> Run<
    (),
>
    decreases replies.len(),
{
    if replies.len() == 0 {
        pending(volume)
    } else {
        let (after, step) = unmount_step(volume, phase, replies[0]);
        match step {
            StepView::Perform { effect, next } => after_effect(
                effect,
                unmount_run(after, next, replies.drop_first()),
            ),
            StepView::Done(value) => ended(after, Ok(value)),
            StepView::Failed(error) => ended(after, Err(error)),
        }
    }
}

/// A run of a removal.
pub open spec fn remove_run(volume: VolumeView, phase: RemovePhase, replies: Seq<ReplyView>) -> Run<()>
    decreases replies.len(),
{
    if replies.len() == 0 {
        pending(volume)
    } else {
        let (after, step) = remove_step(volume, phase, replies[0]);
        match step {
            StepView::Perform { effect, next } => after_effect(
                effect,
                remove_run(after, next, replies.drop_first()),
            ),
            StepView::Done(value) => ended(after, Ok(value)),
            StepView::Failed(error) => ended(after, Err(error)),
        }
    }
}

/// The phase in which a removal begins.
pub open spec fn remove_begin() -> RemovePhase {
    RemovePhase::Unmounting { phase: UnmountPhase::Begin }
}

/// The effects of a mount of `device` inside the directory `dir`.
pub open spec fn mount_effects(
    opts: OptsView,
    lv: Seq<char>,
    device: Seq<char>,
    dir: Seq<u8>,
) -> Seq<EffectView> {
    let mounting = seq![
        EffectView::FindDevice { lv },
        EffectView::MakeMountDir,
        EffectView::Mount {
            source: device,
            target: mountpoint_of(dir),
            fs_type: opts.fs_type,
            flags: opts.mount_options,
        },
    ];
    match opts.root_mode {
        None => mounting,
        Some(mode) => mounting.push(EffectView::SetMode { target: mountpoint_of(dir), mode }),
    }
}

/// A mount of a volume that is not mounted succeeds only for a volume with an
/// LV, and only after these effects in this order: the device of its LV was
/// looked up, a directory was made, the device that was found was mounted in
/// that directory with the volume's filesystem and flags, and the volume's root
/// got the root mode, if there is one. The volume is then mounted there, for one
/// container.
pub proof fn law_mount_succeeds(volume: VolumeView, replies: Seq<ReplyView>)
    requires
        !(volume is Mounted),
        mount_run(volume, MountPhaseView::Begin, replies).outcome matches Some(Ok(_)),
    ensures
        volume matches VolumeView::Provisioned { creation_opts, lv } && {
            let run = mount_run(volume, MountPhaseView::Begin, replies);
            let device = replies[1]->path;
            let dir = replies[2]->dir;
            &&& replies.len() >= 4
            &&& replies[1] is Device
            &&& replies[2] is MountDir
            &&& replies[3] == ReplyView::Completed
            &&& creation_opts.root_mode is Some ==> replies.len() >= 5 && replies[4]
                == ReplyView::Completed
            &&& run.effects == mount_effects(creation_opts, lv, device, dir)
            &&& run.volume == VolumeView::Mounted {
                creation_opts,
                mount_dir: dir,
                mounted_by: 1,
                lv,
            }
            &&& run.outcome == Some(Ok::<Seq<u8>, VolumeError>(mountpoint_of(dir)))
        },
{
    reveal_with_fuel(mount_run, 8);
    let run = mount_run(volume, MountPhaseView::Begin, replies);
    let creation_opts = volume.opts();
    let lv = volume->Provisioned_lv;
    let r1 = replies.drop_first();
    let r2 = r1.drop_first();
    let r3 = r2.drop_first();
    let r4 = r3.drop_first();
    if replies.len() >= 4 {
        assert(r1[0] == replies[1]);
        assert(r2[0] == replies[2]);
        assert(r3[0] == replies[3]);
    }
    if replies.len() >= 5 {
        assert(r4[0] == replies[4]);
    }
    assert(run.effects =~= mount_effects(creation_opts, lv, replies[1]->path, replies[2]->dir));
}

/// A mount of a volume with an LV, reply by reply. The device of the LV is looked
/// up; without it the mount fails. A directory is made; without it the mount
/// fails. The device of the reply is mounted at the mountpoint inside the
/// directory of the reply, with the volume's filesystem and flags, and the root
/// mode is set where there is one. A mount that the kernel refuses, or whose
/// mode cannot be set, is cleaned up and fails. Only a mount that succeeds
/// changes the volume.
pub proof fn law_mount(creation_opts: OptsView, lv: Seq<char>, replies: Seq<ReplyView>)
    requires
        replies.len() >= 7,
    ensures
        ({
            let volume = VolumeView::Provisioned { creation_opts, lv };
            let run = mount_run(volume, MountPhaseView::Begin, replies);
            let dir = replies[2]->dir;
            let at = mountpoint_of(dir);
            let find = EffectView::FindDevice { lv };
            let make = EffectView::MakeMountDir;
            let mount = EffectView::Mount {
                source: replies[1]->path,
                target: at,
                fs_type: creation_opts.fs_type,
                flags: creation_opts.mount_options,
            };
            let set = EffectView::SetMode { target: at, mode: creation_opts.root_mode->0 };
            let undo = EffectView::Unmount { target: at };
            let discard = EffectView::DiscardDir { dir };
            let mounted = VolumeView::Mounted { creation_opts, mount_dir: dir, mounted_by: 1, lv };
            let failed = Some(Err::<Seq<u8>, VolumeError>(VolumeError::MountFailed));
            if !(replies[1] is Device) {
                &&& run.effects == seq![find]
                &&& run.outcome == Some(Err::<Seq<u8>, VolumeError>(VolumeError::FindDeviceFailed))
                &&& run.volume == volume
            } else if !(replies[2] is MountDir) {
                &&& run.effects == seq![find, make]
                &&& run.outcome == failed
                &&& run.volume == volume
            } else if replies[3] != ReplyView::Completed {
                &&& run.effects == seq![find, make, mount, discard]
                &&& run.outcome == failed
                &&& run.volume == volume
            } else if creation_opts.root_mode is None {
                &&& run.effects == seq![find, make, mount]
                &&& run.outcome == Some(Ok::<Seq<u8>, VolumeError>(at))
                &&& run.volume == mounted
            } else if replies[4] == ReplyView::Completed {
                &&& run.effects == seq![find, make, mount, set]
                &&& run.outcome == Some(Ok::<Seq<u8>, VolumeError>(at))
                &&& run.volume == mounted
            } else if replies[5] == ReplyView::Completed {
                &&& run.effects == seq![find, make, mount, set, undo, discard]
                &&& run.outcome == failed
                &&& run.volume == volume
            } else {
                &&& run.effects == seq![find, make, mount, set, undo]
                &&& run.outcome == failed
                &&& run.volume == volume
            }
        }),
{
    reveal_with_fuel(mount_run, 8);
    let volume = VolumeView::Provisioned { creation_opts, lv };
    let run = mount_run(volume, MountPhaseView::Begin, replies);
    let r1 = replies.drop_first();
    let r2 = r1.drop_first();
    let r3 = r2.drop_first();
    let r4 = r3.drop_first();
    let r5 = r4.drop_first();
    assert(r1[0] == replies[1]);
    assert(r2[0] == replies[2]);
    assert(r3[0] == replies[3]);
    assert(r4[0] == replies[4]);
    assert(r5[0] == replies[5]);
    let dir = replies[2]->dir;
    let at = mountpoint_of(dir);
    let find = EffectView::FindDevice { lv };
    let make = EffectView::MakeMountDir;
    let mount = EffectView::Mount {
        source: replies[1]->path,
        target: at,
        fs_type: creation_opts.fs_type,
        flags: creation_opts.mount_options,
    };
    let set = EffectView::SetMode { target: at, mode: creation_opts.root_mode->0 };
    let undo = EffectView::Unmount { target: at };
    let discard = EffectView::DiscardDir { dir };
    if !(replies[1] is Device) {
        assert(run.effects =~= seq![find]);
    } else if !(replies[2] is MountDir) {
        assert(run.effects =~= seq![find, make]);
    } else if replies[3] != ReplyView::Completed {
        assert(run.effects =~= seq![find, make, mount, discard]);
    } else if creation_opts.root_mode is None {
        assert(run.effects =~= seq![find, make, mount]);
    } else if replies[4] == ReplyView::Completed {
        assert(run.effects =~= seq![find, make, mount, set]);
    } else if replies[5] == ReplyView::Completed {
        assert(run.effects =~= seq![find, make, mount, set, undo, discard]);
    } else {
        assert(run.effects =~= seq![find, make, mount, set, undo]);
    }
}

/// However far a mount of a volume comes, what it mounts is the device that was
/// found for the volume's LV, at the mountpoint inside the directory that was
/// made for it.
pub proof fn law_mounts_what_was_found(volume: VolumeView, replies: Seq<ReplyView>, i: int)
    requires
        0 <= i < mount_run(volume, MountPhaseView::Begin, replies).effects.len(),
        mount_run(volume, MountPhaseView::Begin, replies).effects[i] is Mount,
    ensures
        ({
            let effects = mount_run(volume, MountPhaseView::Begin, replies).effects;
            &&& i == 2
            &&& effects[0] == EffectView::FindDevice { lv: volume->Provisioned_lv }
            &&& replies[1] == ReplyView::Device { path: effects[i]->source }
            &&& effects[1] == EffectView::MakeMountDir
            &&& replies[2] is MountDir
            &&& effects[i]->Mount_target == mountpoint_of(replies[2]->dir)
            &&& effects[i]->fs_type == volume.opts().fs_type
            &&& effects[i]->flags == volume.opts().mount_options
        }),
{
    reveal_with_fuel(mount_run, 8);
    let r1 = replies.drop_first();
    let r2 = r1.drop_first();
    if replies.len() >= 2 {
        assert(r1[0] == replies[1]);
    }
    if replies.len() >= 3 {
        assert(r2[0] == replies[2]);
    }
}

/// A volume without an LV cannot be mounted: nothing is asked for, and nothing
/// changes.
pub proof fn law_unprovisioned_is_not_mounted(
    creation_opts: OptsView,
    phase: MountPhaseView,
    reply: ReplyView,
)
    ensures
        ({
            let volume = VolumeView::UnProvisioned { creation_opts };
            mount_step(volume, phase, reply) == (
                volume,
                StepView::<MountPhaseView, Seq<u8>, VolumeError>::Failed(
                    VolumeError::Unprovisioned,
                ),
            )
        }),
{
}

/// A mounted volume is mounted once more without asking for anything: it counts
/// one more mount, is otherwise the same, and the answer is where it is mounted.
pub proof fn law_mount_again(
    creation_opts: OptsView,
    mount_dir: Seq<u8>,
    mounted_by: nat,
    lv: Seq<char>,
    phase: MountPhaseView,
    reply: ReplyView,
)
    ensures
        mount_step(
            VolumeView::Mounted { creation_opts, mount_dir, mounted_by, lv },
            phase,
            reply,
        ) == (
            VolumeView::Mounted { creation_opts, mount_dir, mounted_by: mounted_by + 1, lv },
            StepView::<MountPhaseView, Seq<u8>, VolumeError>::Done(mountpoint_of(mount_dir)),
        ),
{
}

/// A mount ends within seven steps, and one that fails leaves the volume as it
/// was. A mounted volume is mounted again without any effect, and never fails
/// to be.
pub proof fn law_mount_ends(volume: VolumeView, replies: Seq<ReplyView>)
    ensures
        replies.len() >= 7 ==> mount_run(volume, MountPhaseView::Begin, replies).outcome is Some,
        !(mount_run(volume, MountPhaseView::Begin, replies).outcome matches Some(Ok(_)))
            ==> mount_run(volume, MountPhaseView::Begin, replies).volume == volume,
        volume is Mounted && replies.len() > 0 ==> {
            let run = mount_run(volume, MountPhaseView::Begin, replies);
            &&& run.effects == Seq::<EffectView>::empty()
            &&& run.outcome matches Some(Ok(path)) && volume.mountpoint() == Some(path)
        },
{
    reveal_with_fuel(mount_run, 8);
}

/// The path that a mount request is answered with is the path that the volume
/// then has.
pub proof fn law_path_is_where_it_was_mounted(
    volume: VolumeView,
    phase: MountPhaseView,
    reply: ReplyView,
)
    requires
        mount_request_step(volume, phase, reply).1 is Done,
    ensures
        ({
            let (after, step) = mount_request_step(volume, phase, reply);
            after.mountpoint() matches Some(path) && path_text(path) == Some(step->Done_0)
        }),
{
}

/// Where the root mode of a freshly mounted volume cannot be set, the mount
/// fails, and the last effects take the volume down again: it is unmounted,
/// and where that succeeds its directory is discarded.
pub proof fn law_mode_failure_rolls_back(
    volume: VolumeView,
    dir: Seq<u8>,
    failure: ReplyView,
    unmounted: ReplyView,
    discarded: ReplyView,
)
    requires
        volume is Provisioned,
        failure != ReplyView::Completed,
    ensures
        ({
            let run = mount_run(
                volume,
                MountPhaseView::SettingMode { dir },
                seq![failure, unmounted, discarded],
            );
            let undo = EffectView::Unmount { target: mountpoint_of(dir) };
            &&& run.volume == volume
            &&& run.outcome == Some(Err::<Seq<u8>, VolumeError>(VolumeError::MountFailed))
            &&& run.effects == (if unmounted == ReplyView::Completed {
                seq![undo, EffectView::DiscardDir { dir }]
            } else {
                seq![undo]
            })
        }),
{
    reveal_with_fuel(mount_run, 4);
    let replies = seq![failure, unmounted, discarded];
    assert(replies.drop_first()[0] == unmounted);
    assert(replies.drop_first().drop_first()[0] == discarded);
    let run = mount_run(volume, MountPhaseView::SettingMode { dir }, replies);
    let undo = EffectView::Unmount { target: mountpoint_of(dir) };
    if unmounted == ReplyView::Completed {
        assert(run.effects =~= seq![undo, EffectView::DiscardDir { dir }]);
    } else {
        assert(run.effects =~= seq![undo]);
    }
}

/// No mount of a volume that was created with valid options sets the
/// permissions of a read-only filesystem.
pub proof fn law_no_mode_on_read_only(volume: VolumeView, replies: Seq<ReplyView>, i: int)
    requires
        volume.opts().valid(),
        0 <= i < mount_run(volume, MountPhaseView::Begin, replies).effects.len(),
        mount_run(volume, MountPhaseView::Begin, replies).effects[i] is SetMode,
    ensures
        !is_read_only(volume.opts().mount_options),
{
    reveal_with_fuel(mount_run, 8);
}

/// An unmount undoes a mount: once a volume is mounted, an unmount that the
/// kernel carries out leaves it as it was before, and discards the directory
/// that was made for it.
pub proof fn law_unmount_undoes_mount(
    volume: VolumeView,
    replies: Seq<ReplyView>,
    begin: ReplyView,
    discarded: ReplyView,
)
    requires
        !(volume is Mounted),
        mount_run(volume, MountPhaseView::Begin, replies).outcome matches Some(Ok(_)),
    ensures
        ({
            let mounted = mount_run(volume, MountPhaseView::Begin, replies).volume;
            let run = unmount_run(
                mounted,
                UnmountPhase::Begin,
                seq![begin, ReplyView::Completed, discarded],
            );
            &&& run.volume == volume
            &&& run.outcome == Some(Ok::<(), VolumeError>(()))
            &&& run.effects == seq![
                EffectView::Unmount { target: mounted.mountpoint()->0 },
                EffectView::DiscardDir { dir: mounted->mount_dir },
            ]
        }),
{
    law_mount_succeeds(volume, replies);
    let mounted = mount_run(volume, MountPhaseView::Begin, replies).volume;
    let answers = seq![begin, ReplyView::Completed, discarded];
    reveal_with_fuel(unmount_run, 4);
    assert(answers.drop_first()[0] == ReplyView::Completed);
    let run = unmount_run(mounted, UnmountPhase::Begin, answers);
    assert(run.effects =~= seq![
        EffectView::Unmount { target: mounted.mountpoint()->0 },
        EffectView::DiscardDir { dir: mounted->mount_dir },
    ]);
}

/// An unmount of a volume that is mounted once, reply by reply. The kernel is
/// asked to unmount the mountpoint. Only where it did, the volume falls back to
/// its LV, the directory is discarded, and the unmount succeeds. On any other
/// reply the unmount fails, nothing further is asked for and the volume stays as
/// it was, mounted.
pub proof fn law_unmount(
    creation_opts: OptsView,
    mount_dir: Seq<u8>,
    lv: Seq<char>,
    replies: Seq<ReplyView>,
)
    requires
        replies.len() >= 1,
    ensures
        ({
            let volume = VolumeView::Mounted { creation_opts, mount_dir, mounted_by: 1, lv };
            let run = unmount_run(volume, UnmountPhase::Begin, replies);
            let take_down = EffectView::Unmount { target: mountpoint_of(mount_dir) };
            if replies.len() == 1 {
                &&& run.effects == seq![take_down]
                &&& run.volume == volume
                &&& run.outcome is None
            } else if replies[1] == ReplyView::Completed {
                &&& run.effects == seq![take_down, EffectView::DiscardDir { dir: mount_dir }]
                &&& run.volume == VolumeView::Provisioned { creation_opts, lv }
                &&& replies.len() >= 3 ==> run.outcome == Some(Ok::<(), VolumeError>(()))
                &&& replies.len() == 2 ==> run.outcome is None
            } else {
                &&& run.effects == seq![take_down]
                &&& run.volume == volume
                &&& run.outcome == Some(Err::<(), VolumeError>(VolumeError::UnmountFailed))
            }
        }),
{
    reveal_with_fuel(unmount_run, 4);
    let volume = VolumeView::Mounted { creation_opts, mount_dir, mounted_by: 1, lv };
    let run = unmount_run(volume, UnmountPhase::Begin, replies);
    let take_down = EffectView::Unmount { target: mountpoint_of(mount_dir) };
    if replies.len() >= 2 {
        assert(replies.drop_first()[0] == replies[1]);
    }
    if replies.len() >= 2 && replies[1] == ReplyView::Completed {
        assert(run.effects =~= seq![take_down, EffectView::DiscardDir { dir: mount_dir }]);
    } else {
        assert(run.effects =~= seq![take_down]);
    }
}

/// A volume that was mounted stays mounted until the kernel took the mount down:
/// an unmount that leaves it otherwise, or that succeeds on a volume mounted
/// once, asked the kernel to unmount it and was told that this was done.
pub proof fn law_unmounted_only_by_the_kernel(volume: VolumeView, replies: Seq<ReplyView>)
    requires
        volume is Mounted,
        volume->mounted_by >= 1,
        ({
            let run = unmount_run(volume, UnmountPhase::Begin, replies);
            ||| !(run.volume is Mounted)
            ||| volume->mounted_by == 1 && (run.outcome matches Some(Ok(_)))
        }),
    ensures
        volume->mounted_by == 1,
        replies.len() >= 2,
        replies[1] == ReplyView::Completed,
        unmount_run(volume, UnmountPhase::Begin, replies).effects[0] == (EffectView::Unmount {
            target: mountpoint_of(volume->mount_dir),
        }),
{
    reveal_with_fuel(unmount_run, 4);
    if replies.len() >= 2 {
        assert(replies.drop_first()[0] == replies[1]);
    }
}

/// An unmount of a volume that is mounted more than once takes one mount back,
/// and one of a volume that is not mounted does nothing; either is done at once,
/// in any phase.
pub proof fn law_unmount_counts(volume: VolumeView, phase: UnmountPhase, reply: ReplyView)
    requires
        volume is Mounted ==> volume->mounted_by >= 2,
    ensures
        ({
            let (after, step) = unmount_step(volume, phase, reply);
            &&& step == StepView::<UnmountPhase, (), VolumeError>::Done(())
            &&& match volume {
                VolumeView::Mounted { creation_opts, mount_dir, mounted_by, lv } => after
                    == VolumeView::Mounted {
                    creation_opts,
                    mount_dir,
                    mounted_by: (mounted_by - 1) as nat,
                    lv,
                },
                _ => after == volume,
            }
        }),
{
}

/// Tearing a mount down whatever its count, reply by reply. The kernel is asked
/// to unmount the mountpoint. Where it did, or says that nothing is mounted
/// there, the volume falls back to its LV, the directory is discarded, and the
/// mount counts as gone. Any other refusal is handed on, and changes nothing. A
/// volume that is not mounted needs nothing.
pub proof fn law_force_unmount(volume: VolumeView, begin: ReplyView, reply: ReplyView, last: ReplyView)
    ensures
        ({
            let (asked, first) = force_unmount_step(volume, UnmountPhase::Begin, begin);
            match volume {
                VolumeView::Mounted { creation_opts, mount_dir, lv, .. } => {
                    &&& asked == volume
                    &&& first matches StepView::Perform { effect, next }
                    &&& effect == EffectView::Unmount { target: mountpoint_of(mount_dir) }
                    &&& {
                        let (after, second) = force_unmount_step(asked, next, reply);
                        let fallen = VolumeView::Provisioned { creation_opts, lv };
                        match reply {
                            ReplyView::Refused { kind: IoErrorKind::ResourceBusy } => {
                                &&& after == volume
                                &&& second == StepView::<UnmountPhase, (), IoErrorKind>::Failed(
                                    IoErrorKind::ResourceBusy,
                                )
                            },
                            ReplyView::Completed | ReplyView::Refused {
                                kind: IoErrorKind::InvalidInput | IoErrorKind::NotFound,
                            } => {
                                &&& after == fallen
                                &&& second matches StepView::Perform { effect: discard, next: end }
                                &&& discard == EffectView::DiscardDir { dir: mount_dir }
                                &&& force_unmount_step(after, end, last) == (
                                    fallen,
                                    StepView::<UnmountPhase, (), IoErrorKind>::Done(()),
                                )
                            },
                            _ => {
                                &&& after == volume
                                &&& second == StepView::<UnmountPhase, (), IoErrorKind>::Failed(
                                    IoErrorKind::Other,
                                )
                            },
                        }
                    }
                },
                _ => (asked, first) == (
                    volume,
                    StepView::<UnmountPhase, (), IoErrorKind>::Done(()),
                ),
            }
        }),
{
}

/// A volume after `n` more mounts.
pub open spec fn mounted_more(volume: VolumeView, n: nat) -> VolumeView
    decreases n,
{
    if n == 0 {
        volume
    } else {
        mount_step(
            mounted_more(volume, (n - 1) as nat),
            MountPhaseView::Begin,
            ReplyView::Begin,
        ).0
    }
}

/// Mounts are counted: a mounted volume after `n` more mounts counts `n` more,
/// and is otherwise the same.
pub proof fn law_mounts_are_counted(volume: VolumeView, n: nat)
    requires
        volume is Mounted,
    ensures
        mounted_more(volume, n) == (VolumeView::Mounted {
            creation_opts: volume.opts(),
            mount_dir: volume->mount_dir,
            mounted_by: volume->mounted_by + n,
            lv: volume->Mounted_lv,
        }),
    decreases n,
{
    if n > 0 {
        law_mounts_are_counted(volume, (n - 1) as nat);
    }
}

/// Unmounts are counted: of a volume mounted once and then `n` more times, each
/// of the first `n` unmounts only takes one mount back, without any effect. The
/// last unmount, and no other, asks the kernel to take the filesystem down.
pub proof fn law_last_unmount_takes_down(volume: VolumeView, n: nat, reply: ReplyView)
    requires
        volume is Mounted,
        volume->mounted_by == 1,
    ensures
        n > 0 ==> unmount_step(mounted_more(volume, n), UnmountPhase::Begin, reply) == (
            mounted_more(volume, (n - 1) as nat),
            StepView::<UnmountPhase, (), VolumeError>::Done(()),
        ),
        n == 0 ==> unmount_step(mounted_more(volume, n), UnmountPhase::Begin, reply) == (
            volume,
            StepView::<UnmountPhase, (), VolumeError>::Perform {
                effect: EffectView::Unmount { target: mountpoint_of(volume->mount_dir) },
                next: UnmountPhase::Unmounting,
            },
        ),
{
    law_mounts_are_counted(volume, n);
    if n > 0 {
        law_mounts_are_counted(volume, (n - 1) as nat);
    }
}

/// Provisioning succeeds only after these effects in this order: an LV of the
/// requested size was created under the volume's name, its device was looked
/// up, and `mkfs.<fs_type>` ran on it with the format options. The volume is
/// then backed by that LV, and cannot be created again. Provisioning that fails
/// leaves the volume recorded, and it can be created again with other options.
/// Either way it ends within four steps.
pub proof fn law_provision(
    opts: OptsView,
    name: Seq<char>,
    replies: Seq<ReplyView>,
    other: OptsView,
)
    ensures
        ({
            let volume = VolumeView::UnProvisioned { creation_opts: opts };
            let run = provision_run(volume, ProvisionPhaseView::Begin, name, replies);
            &&& replies.len() >= 4 ==> run.outcome is Some
            &&& match run.outcome {
                Some(Ok(_)) => {
                    &&& run.volume matches VolumeView::Provisioned { creation_opts, lv }
                    &&& creation_opts == opts
                    &&& replies[1] == ReplyView::LvCreated { lv, job: NO_JOB@ }
                    &&& replies[2] is Device
                    &&& replies[3] == ReplyView::Formatted { success: true }
                    &&& run.effects == seq![
                        EffectView::CreateLv { name, size: opts.size, timeout: WAIT },
                        EffectView::FindDevice { lv },
                        format_command(opts, replies[2]->path),
                    ]
                    &&& created(Some(run.volume), other) == Err::<VolumeView, VolumeError>(
                        VolumeError::CreateExisting,
                    )
                },
                _ => {
                    &&& run.volume == volume
                    &&& created(Some(run.volume), other) == Ok::<VolumeView, VolumeError>(
                        VolumeView::UnProvisioned { creation_opts: other },
                    )
                },
            }
        }),
{
    reveal_with_fuel(provision_run, 5);
    let volume = VolumeView::UnProvisioned { creation_opts: opts };
    let run = provision_run(volume, ProvisionPhaseView::Begin, name, replies);
    let r1 = replies.drop_first();
    let r2 = r1.drop_first();
    let r3 = r2.drop_first();
    if run.outcome matches Some(Ok(_)) {
        assert(r1[0] == replies[1]);
        assert(r2[0] == replies[2]);
        assert(r3[0] == replies[3]);
        assert(run.effects =~= seq![
            EffectView::CreateLv { name, size: opts.size, timeout: WAIT },
            EffectView::FindDevice { lv: replies[1]->LvCreated_lv },
            format_command(opts, replies[2]->path),
        ]);
    }
}

/// Provisioning of a recorded volume, reply by reply. An LV of the requested
/// size is created under the volume's name; where LVM fails, or leaves the
/// creation to a job, provisioning fails. The device of that LV is looked up;
/// without it provisioning fails. The program `mkfs.<fs_type>` is run with the
/// format options, in order, and the device after them. Only where it exits
/// successfully is the volume backed by the LV.
pub proof fn law_provisioning(opts: OptsView, name: Seq<char>, replies: Seq<ReplyView>)
    requires
        replies.len() >= 4,
    ensures
        ({
            let volume = VolumeView::UnProvisioned { creation_opts: opts };
            let run = provision_run(volume, ProvisionPhaseView::Begin, name, replies);
            let lv = replies[1]->LvCreated_lv;
            let create = EffectView::CreateLv { name, size: opts.size, timeout: -1 as i32 };
            let find = EffectView::FindDevice { lv };
            if !(replies[1] is LvCreated) {
                &&& run.effects == seq![create]
                &&& run.outcome == Some(Err::<(), VolumeError>(VolumeError::CreateLvFailed))
                &&& run.volume == volume
            } else if replies[1]->LvCreated_job != "/"@ {
                &&& run.effects == seq![create]
                &&& run.outcome == Some(Err::<(), VolumeError>(VolumeError::CreationPending))
                &&& run.volume == volume
            } else if !(replies[2] is Device) {
                &&& run.effects == seq![create, find]
                &&& run.outcome == Some(Err::<(), VolumeError>(VolumeError::FindDeviceFailed))
                &&& run.volume == volume
            } else {
                &&& run.effects.len() == 3
                &&& run.effects[0] == create
                &&& run.effects[1] == find
                &&& run.effects[2] matches EffectView::Format { program, args }
                &&& program == "mkfs."@ + opts.fs_type
                &&& args.len() == opts.format_options.len() + 1
                &&& args.last() == replies[2]->path
                &&& forall|i: int|
                    0 <= i < opts.format_options.len() ==> #[trigger] args[i]
                        == opts.format_options[i]
                &&& if replies[3] == (ReplyView::Formatted { success: true }) {
                    &&& run.outcome == Some(Ok::<(), VolumeError>(()))
                    &&& run.volume == VolumeView::Provisioned { creation_opts: opts, lv }
                } else {
                    &&& run.outcome == Some(
                        Err::<(), VolumeError>(
                            if replies[3] is Formatted {
                                VolumeError::FormattingFailed
                            } else {
                                VolumeError::FormatNotRun
                            },
                        ),
                    )
                    &&& run.volume == volume
                }
            }
        }),
{
    reveal_with_fuel(provision_run, 5);
    let volume = VolumeView::UnProvisioned { creation_opts: opts };
    let run = provision_run(volume, ProvisionPhaseView::Begin, name, replies);
    let r1 = replies.drop_first();
    let r2 = r1.drop_first();
    let r3 = r2.drop_first();
    assert(r1[0] == replies[1]);
    assert(r2[0] == replies[2]);
    assert(r3[0] == replies[3]);
    let create = EffectView::CreateLv { name, size: opts.size, timeout: -1 as i32 };
    let find = EffectView::FindDevice { lv: replies[1]->LvCreated_lv };
    if !(replies[1] is LvCreated) || replies[1]->LvCreated_job != "/"@ {
        assert(run.effects =~= seq![create]);
    } else if !(replies[2] is Device) {
        assert(run.effects =~= seq![create, find]);
    }
}

/// The command that formats a device, whatever the options: the program is named
/// after the filesystem, its arguments are the format options in order, and one
/// more, which is the device.
pub proof fn law_format_command(opts: OptsView, device: Seq<char>)
    ensures
        format_command(opts, device) matches EffectView::Format { program, args } && {
            &&& program == "mkfs."@ + opts.fs_type
            &&& args.len() == opts.format_options.len() + 1
            &&& args.drop_last() == opts.format_options
            &&& args.last() == device
        },
{
    let args = format_command(opts, device)->args;
    assert(args.drop_last() =~= opts.format_options);
}

/// A volume that has an LV is not provisioned again: nothing is asked for, and
/// nothing changes.
pub proof fn law_provisioned_is_left_alone(
    volume: VolumeView,
    phase: ProvisionPhaseView,
    name: Seq<char>,
    reply: ReplyView,
)
    requires
        !(volume is UnProvisioned),
    ensures
        provision_step(volume, phase, name, reply) == (
            volume,
            StepView::<ProvisionPhaseView, (), VolumeError>::Done(()),
        ),
{
}

/// Which volumes can be created: a new name, and a volume that was recorded but
/// has no LV. It then has the options that were asked for, and no LV. A mounted
/// volume and one with an LV are refused, each with its own error.
pub proof fn law_creation(volume: Option<VolumeView>, opts: OptsView)
    ensures
        created(volume, opts) matches Ok(recorded) ==> recorded == (VolumeView::UnProvisioned {
            creation_opts: opts,
        }),
        created(volume, opts) is Ok <==> (volume is None || volume->0 is UnProvisioned),
        created(volume, opts) == Err::<VolumeView, VolumeError>(VolumeError::CreateMounted)
            <==> volume is Some && volume->0 is Mounted,
        created(volume, opts) == Err::<VolumeView, VolumeError>(VolumeError::CreateExisting)
            <==> volume is Some && volume->0 is Provisioned,
{
}

/// A removal, reply by reply. A recorded volume without an LV just goes. A
/// mounted volume is unmounted first, whatever its count: where the kernel keeps
/// the mount, the removal fails and nothing changes. Then LVM is asked to remove
/// the LV; the removal succeeds only where LVM says that the LV is gone, with no
/// job left, and fails on any other reply, with the volume and its LV kept.
pub proof fn law_removal(volume: VolumeView, replies: Seq<ReplyView>)
    requires
        replies.len() >= 4,
    ensures
        ({
            let run = remove_run(volume, remove_begin(), replies);
            let freed = ReplyView::LvRemoved { job: "/"@ };
            let done = Some(Ok::<(), VolumeError>(()));
            let stuck = Some(Err::<(), VolumeError>(VolumeError::RemoveLvFailed));
            match volume {
                VolumeView::UnProvisioned { .. } => {
                    &&& run.effects == Seq::<EffectView>::empty()
                    &&& run.outcome == done
                    &&& run.volume == volume
                },
                VolumeView::Provisioned { lv, .. } => {
                    &&& run.effects == seq![EffectView::RemoveLv { lv, timeout: -1 as i32 }]
                    &&& run.outcome == (if replies[1] == freed { done } else { stuck })
                    &&& run.volume == volume
                },
                VolumeView::Mounted { creation_opts, mount_dir, lv, .. } => {
                    let take_down = EffectView::Unmount { target: mountpoint_of(mount_dir) };
                    match replies[1] {
                        ReplyView::Completed | ReplyView::Refused {
                            kind: IoErrorKind::InvalidInput | IoErrorKind::NotFound,
                        } => {
                            &&& run.effects == seq![
                                take_down,
                                EffectView::DiscardDir { dir: mount_dir },
                                EffectView::RemoveLv { lv, timeout: -1 as i32 },
                            ]
                            &&& run.outcome == (if replies[3] == freed { done } else { stuck })
                            &&& run.volume == VolumeView::Provisioned { creation_opts, lv }
                        },
                        ReplyView::Refused { kind: IoErrorKind::ResourceBusy } => {
                            &&& run.effects == seq![take_down]
                            &&& run.outcome == Some(Err::<(), VolumeError>(VolumeError::InUse))
                            &&& run.volume == volume
                        },
                        _ => {
                            &&& run.effects == seq![take_down]
                            &&& run.outcome == Some(
                                Err::<(), VolumeError>(VolumeError::ForceUnmountFailed),
                            )
                            &&& run.volume == volume
                        },
                    }
                },
            }
        }),
{
    reveal_with_fuel(remove_run, 6);
    let run = remove_run(volume, remove_begin(), replies);
    let r1 = replies.drop_first();
    let r2 = r1.drop_first();
    let r3 = r2.drop_first();
    assert(r1[0] == replies[1]);
    assert(r2[0] == replies[2]);
    assert(r3[0] == replies[3]);
    match volume {
        VolumeView::UnProvisioned { .. } => {},
        VolumeView::Provisioned { lv, .. } => {
            assert(run.effects =~= seq![EffectView::RemoveLv { lv, timeout: -1 as i32 }]);
        },
        VolumeView::Mounted { mount_dir, lv, .. } => {
            let take_down = EffectView::Unmount { target: mountpoint_of(mount_dir) };
            if mount_is_gone(replies[1]) {
                assert(run.effects =~= seq![
                    take_down,
                    EffectView::DiscardDir { dir: mount_dir },
                    EffectView::RemoveLv { lv, timeout: -1 as i32 },
                ]);
            } else {
                assert(run.effects =~= seq![take_down]);
            }
        },
    }
}

/// A removal that is still under way: the volume keeps its options and its LV
/// while LVM removes it, and stays mounted until the kernel has no mount of it
/// any more.
pub proof fn law_removal_under_way(volume: VolumeView, replies: Seq<ReplyView>)
    requires
        !(volume is UnProvisioned),
        1 <= replies.len() < 4,
    ensures
        ({
            let run = remove_run(volume, remove_begin(), replies);
            match volume {
                VolumeView::Mounted { creation_opts, mount_dir, lv, .. } => {
                    let take_down = EffectView::Unmount { target: mountpoint_of(mount_dir) };
                    let discard = EffectView::DiscardDir { dir: mount_dir };
                    let free = EffectView::RemoveLv { lv, timeout: -1 as i32 };
                    if replies.len() == 1 {
                        run == Run::<()> {
                            volume,
                            effects: seq![take_down],
                            outcome: None,
                        }
                    } else {
                        mount_is_gone(replies[1]) ==> run == Run::<()> {
                            volume: VolumeView::Provisioned { creation_opts, lv },
                            effects: if replies.len() == 2 {
                                seq![take_down, discard]
                            } else {
                                seq![take_down, discard, free]
                            },
                            outcome: None,
                        }
                    }
                },
                _ => {
                    let free = EffectView::RemoveLv {
                        lv: volume->Provisioned_lv,
                        timeout: -1 as i32,
                    };
                    replies.len() == 1 ==> run == Run::<()> {
                        volume,
                        effects: seq![free],
                        outcome: None,
                    }
                },
            }
        }),
{
    reveal_with_fuel(remove_run, 5);
    let run = remove_run(volume, remove_begin(), replies);
    let r1 = replies.drop_first();
    if replies.len() >= 2 {
        assert(r1[0] == replies[1]);
    }
    match volume {
        VolumeView::Mounted { mount_dir, lv, .. } => {
            let take_down = EffectView::Unmount { target: mountpoint_of(mount_dir) };
            let discard = EffectView::DiscardDir { dir: mount_dir };
            let free = EffectView::RemoveLv { lv, timeout: -1 as i32 };
            if replies.len() == 1 {
                assert(run.effects =~= seq![take_down]);
            } else if mount_is_gone(replies[1]) {
                if replies.len() == 2 {
                    assert(run.effects =~= seq![take_down, discard]);
                } else {
                    assert(run.effects =~= seq![take_down, discard, free]);
                }
            }
        },
        _ => {
            if replies.len() == 1 {
                assert(run.effects =~= seq![
                    EffectView::RemoveLv { lv: volume->Provisioned_lv, timeout: -1 as i32 },
                ]);
            }
        },
    }
}

/// A volume with an LV is removed only once LVM said that the LV is gone: the
/// last effect of a removal that succeeds asked for that LV to be removed, and
/// the reply to it was that it is, with no job left.
pub proof fn law_removed_only_by_lvm(volume: VolumeView, replies: Seq<ReplyView>)
    requires
        !(volume is UnProvisioned),
        remove_run(volume, remove_begin(), replies).outcome matches Some(Ok(_)),
    ensures
        ({
            let effects = remove_run(volume, remove_begin(), replies).effects;
            let lv = match volume {
                VolumeView::Mounted { lv, .. } => lv,
                _ => volume->Provisioned_lv,
            };
            &&& 0 < effects.len() < replies.len()
            &&& effects.last() == EffectView::RemoveLv { lv, timeout: -1 as i32 }
            &&& replies[effects.len() as int] == ReplyView::LvRemoved { job: "/"@ }
        }),
{
    reveal_with_fuel(remove_run, 6);
    let r1 = replies.drop_first();
    let r2 = r1.drop_first();
    let r3 = r2.drop_first();
    if replies.len() >= 2 {
        assert(r1[0] == replies[1]);
    }
    if replies.len() >= 3 {
        assert(r2[0] == replies[2]);
    }
    if replies.len() >= 4 {
        assert(r3[0] == replies[3]);
    }
}

/// A removal keeps what is known of the LV: whatever the replies, the volume
/// keeps its options and its LV until it is gone, and a removal that fails
/// before the mount is gone changes nothing. It ends within four steps.
pub proof fn law_remove_keeps_lv(volume: VolumeView, replies: Seq<ReplyView>)
    ensures
        ({
            let run = remove_run(volume, remove_begin(), replies);
            &&& replies.len() >= 4 ==> run.outcome is Some
            &&& run.volume.opts() == volume.opts()
            &&& run.volume.lv() == volume.lv()
            &&& run.volume is Mounted ==> run.volume == volume
        }),
{
    reveal_with_fuel(remove_run, 6);
}

/// A volume with an LV is removed only after LVM was asked to remove that LV,
/// as the last effect, and a mounted volume is unmounted before that. This
/// holds of every LV, adopted or created here.
pub proof fn law_remove_deletes_lv(volume: VolumeView, replies: Seq<ReplyView>)
    requires
        remove_run(volume, remove_begin(), replies).outcome matches Some(Ok(_)),
    ensures
        ({
            let effects = remove_run(volume, remove_begin(), replies).effects;
            match volume {
                VolumeView::UnProvisioned { .. } => effects == Seq::<EffectView>::empty(),
                VolumeView::Provisioned { lv, .. } => effects == seq![
                    EffectView::RemoveLv { lv, timeout: WAIT },
                ],
                VolumeView::Mounted { mount_dir, lv, .. } => effects == seq![
                    EffectView::Unmount { target: mountpoint_of(mount_dir) },
                    EffectView::DiscardDir { dir: mount_dir },
                    EffectView::RemoveLv { lv, timeout: WAIT },
                ],
            }
        }),
{
    reveal_with_fuel(remove_run, 6);
    let effects = remove_run(volume, remove_begin(), replies).effects;
    match volume {
        VolumeView::UnProvisioned { .. } => {},
        VolumeView::Provisioned { lv, .. } => {
            assert(effects =~= seq![EffectView::RemoveLv { lv, timeout: WAIT }]);
        },
        VolumeView::Mounted { mount_dir, lv, .. } => {
            assert(effects =~= seq![
                EffectView::Unmount { target: mountpoint_of(mount_dir) },
                EffectView::DiscardDir { dir: mount_dir },
                EffectView::RemoveLv { lv, timeout: WAIT },
            ]);
        },
    }
}

/// The replies of a kernel that has no mount of a volume any more: it took the
/// mount down, or it did not know it.
pub open spec fn mount_is_gone(reply: ReplyView) -> bool {
    ||| reply == ReplyView::Completed
    ||| reply == ReplyView::Refused { kind: IoErrorKind::InvalidInput }
    ||| reply == ReplyView::Refused { kind: IoErrorKind::NotFound }
}

/// A stale count of mounts does not wedge a removal: however many mounts are
/// counted, one unmount that leaves no mount behind is enough for the volume to
/// be removed with its LV.
pub proof fn law_stale_mount_is_removed(
    volume: VolumeView,
    begin: ReplyView,
    unmounted: ReplyView,
    discarded: ReplyView,
)
    requires
        volume is Mounted,
        mount_is_gone(unmounted),
    ensures
        remove_run(
            volume,
            remove_begin(),
            seq![begin, unmounted, discarded, ReplyView::LvRemoved { job: NO_JOB@ }],
        ).outcome == Some(Ok::<(), VolumeError>(())),
{
    reveal_with_fuel(remove_run, 5);
    let replies = seq![begin, unmounted, discarded, ReplyView::LvRemoved { job: NO_JOB@ }];
    let r1 = replies.drop_first();
    let r2 = r1.drop_first();
    let r3 = r2.drop_first();
    assert(r1[0] == unmounted);
    assert(r2[0] == discarded);
    assert(r3[0] == (ReplyView::LvRemoved { job: NO_JOB@ }));
}

/// A volume that the kernel refuses to unmount because it is busy is not
/// removed: the request is answered that the volume is in use, and nothing
/// changes. Any other refusal, but for those that say that nothing is mounted,
/// is reported as such.
pub proof fn law_busy_volume_stays(volume: VolumeView, begin: ReplyView, kind: IoErrorKind)
    requires
        volume is Mounted,
        !mount_is_gone(ReplyView::Refused { kind }),
    ensures
        ({
            let run = remove_run(
                volume,
                remove_begin(),
                seq![begin, ReplyView::Refused { kind }],
            );
            &&& run.volume == volume
            &&& run.outcome == Some(
                Err::<(), VolumeError>(
                    if kind == IoErrorKind::ResourceBusy {
                        VolumeError::InUse
                    } else {
                        VolumeError::ForceUnmountFailed
                    },
                ),
            )
        }),
{
    reveal_with_fuel(remove_run, 3);
    let replies = seq![begin, ReplyView::Refused { kind }];
    assert(replies.drop_first()[0] == (ReplyView::Refused { kind }));
}

/// No step breaks the rule that a mounted volume is mounted on behalf of
/// someone.
pub proof fn law_steps_keep_well_formed(
    volume: VolumeView,
    name: Seq<char>,
    provisioning: ProvisionPhaseView,
    mounting: MountPhaseView,
    unmounting: UnmountPhase,
    removing: RemovePhase,
    reply: ReplyView,
)
    requires
        volume.well_formed(),
    ensures
        provision_step(volume, provisioning, name, reply).0.well_formed(),
        mount_step(volume, mounting, reply).0.well_formed(),
        unmount_step(volume, unmounting, reply).0.well_formed(),
        force_unmount_step(volume, unmounting, reply).0.well_formed(),
        remove_step(volume, removing, reply).0.well_formed(),
{
}

/// No step changes what a volume was created with, and a volume that has an LV
/// keeps it.
pub proof fn law_steps_keep_identity(
    volume: VolumeView,
    name: Seq<char>,
    provisioning: ProvisionPhaseView,
    mounting: MountPhaseView,
    unmounting: UnmountPhase,
    removing: RemovePhase,
    reply: ReplyView,
)
    ensures
        provision_step(volume, provisioning, name, reply).0.opts() == volume.opts(),
        mount_step(volume, mounting, reply).0.opts() == volume.opts(),
        unmount_step(volume, unmounting, reply).0.opts() == volume.opts(),
        force_unmount_step(volume, unmounting, reply).0.opts() == volume.opts(),
        remove_step(volume, removing, reply).0.opts() == volume.opts(),
        volume.lv() is Some ==> provision_step(volume, provisioning, name, reply).0.lv()
            == volume.lv(),
        mount_step(volume, mounting, reply).0.lv() == volume.lv(),
        unmount_step(volume, unmounting, reply).0.lv() == volume.lv(),
        force_unmount_step(volume, unmounting, reply).0.lv() == volume.lv(),
        remove_step(volume, removing, reply).0.lv() == volume.lv(),
{
}

/// A step that a request to mount or unmount a volume takes.
pub enum Change {
    Mount(MountPhaseView, ReplyView),
    Unmount(UnmountPhase, ReplyView),
}

/// The effect that a step asks for, if it asks for one.
pub open spec fn effect_of<P, T>(step: StepView<P, T, VolumeError>) -> Seq<EffectView> {
    match step {
        StepView::Perform { effect, .. } => seq![effect],
        _ => Seq::empty(),
    }
}

/// A volume after one step of a mount or unmount, and the effect that it asked
/// for.
pub open spec fn changed_once(volume: VolumeView, change: Change) -> (VolumeView, Seq<EffectView>) {
    match change {
        Change::Mount(phase, reply) => {
            let (after, step) = mount_step(volume, phase, reply);
            (after, effect_of(step))
        },
        Change::Unmount(phase, reply) => {
            let (after, step) = unmount_step(volume, phase, reply);
            (after, effect_of(step))
        },
    }
}

/// A volume after any steps of mounts and unmounts, and the effects that they
/// asked for.
pub open spec fn changed(volume: VolumeView, changes: Seq<Change>) -> (VolumeView, Seq<EffectView>)
    decreases changes.len(),
{
    if changes.len() == 0 {
        (volume, Seq::empty())
    } else {
        let (before, effects) = changed(volume, changes.drop_last());
        let (after, asked) = changed_once(before, changes.last());
        (after, effects + asked)
    }
}

/// Which effects remove LVs.
pub open spec fn removes_lv() -> spec_fn(EffectView) -> bool {
    |effect: EffectView| effect is RemoveLv || effect is StartRemoveLv
}

/// Those of a sequence of effects that remove LVs.
pub open spec fn lv_removals(effects: Seq<EffectView>) -> Seq<EffectView> {
    effects.filter(removes_lv())
}

/// Effects that remove no LV hold no removal.
proof fn lemma_no_removals(effects: Seq<EffectView>)
    requires
        forall|i: int| 0 <= i < effects.len() ==> !removes_lv()(#[trigger] effects[i]),
    ensures
        lv_removals(effects) == Seq::<EffectView>::empty(),
    decreases effects.len(),
{
    reveal(Seq::filter);
    if effects.len() > 0 {
        assert(effects.last() == effects[effects.len() - 1]);
        lemma_no_removals(effects.drop_last());
    }
}

/// Removals add up, where the first effects hold none.
proof fn lemma_removals_join(a: Seq<EffectView>, b: Seq<EffectView>)
    requires
        lv_removals(a) == Seq::<EffectView>::empty(),
    ensures
        lv_removals(a + b) == lv_removals(b),
{
    Seq::filter_distributes_over_add(a, b, removes_lv());
    assert(Seq::<EffectView>::empty() + lv_removals(b) =~= lv_removals(b));
}

/// One step of a mount or unmount keeps a volume's options and LV, and asks for
/// no LV to be removed.
proof fn lemma_changed_once(volume: VolumeView, change: Change)
    ensures
        changed_once(volume, change).0.opts() == volume.opts(),
        changed_once(volume, change).0.lv() == volume.lv(),
        volume.well_formed() ==> changed_once(volume, change).0.well_formed(),
        lv_removals(changed_once(volume, change).1) == Seq::<EffectView>::empty(),
{
    lemma_no_removals(changed_once(volume, change).1);
}

/// However a volume is mounted and unmounted, it keeps its options and its LV,
/// and nothing asks for an LV to be removed.
pub proof fn law_changes_keep_lv(volume: VolumeView, changes: Seq<Change>)
    ensures
        changed(volume, changes).0.opts() == volume.opts(),
        changed(volume, changes).0.lv() == volume.lv(),
        volume.well_formed() ==> changed(volume, changes).0.well_formed(),
        lv_removals(changed(volume, changes).1) == Seq::<EffectView>::empty(),
    decreases changes.len(),
{
    if changes.len() == 0 {
        lemma_no_removals(Seq::empty());
    } else {
        let (before, effects) = changed(volume, changes.drop_last());
        law_changes_keep_lv(volume, changes.drop_last());
        lemma_changed_once(before, changes.last());
        let asked = changed_once(before, changes.last()).1;
        lemma_removals_join(effects, asked);
    }
}

/// Replies to a removal under which nothing stands in its way: the kernel has
/// no mount of the volume any more, and LVM removes the LV.
pub open spec fn lets_go(volume: VolumeView, replies: Seq<ReplyView>) -> bool {
    match volume {
        VolumeView::UnProvisioned { .. } => replies.len() >= 1,
        VolumeView::Provisioned { .. } => {
            &&& replies.len() >= 2
            &&& replies[1] == ReplyView::LvRemoved { job: NO_JOB@ }
        },
        VolumeView::Mounted { .. } => {
            &&& replies.len() >= 4
            &&& mount_is_gone(replies[1])
            &&& replies[3] == ReplyView::LvRemoved { job: NO_JOB@ }
        },
    }
}

/// A removal that nothing stands in the way of succeeds, whatever the volume and
/// however many mounts it counts.
pub proof fn law_removal_succeeds(volume: VolumeView, replies: Seq<ReplyView>)
    requires
        lets_go(volume, replies),
    ensures
        remove_run(volume, remove_begin(), replies).outcome == Some(Ok::<(), VolumeError>(())),
{
    reveal_with_fuel(remove_run, 5);
    let r1 = replies.drop_first();
    let r2 = r1.drop_first();
    let r3 = r2.drop_first();
    if volume.lv() is Some {
        assert(r1[0] == replies[1]);
    }
    if volume is Mounted {
        assert(r3[0] == replies[3]);
    }
}

/// A removal of a volume with an LV that succeeds asks for one LV removal.
proof fn lemma_one_removal(volume: VolumeView, replies: Seq<ReplyView>)
    requires
        remove_run(volume, remove_begin(), replies).outcome matches Some(Ok(_)),
        volume.lv() is Some,
    ensures
        lv_removals(remove_run(volume, remove_begin(), replies).effects) == seq![
            EffectView::RemoveLv { lv: volume.lv()->0, timeout: WAIT },
        ],
{
    law_remove_deletes_lv(volume, replies);
    let effects = remove_run(volume, remove_begin(), replies).effects;
    let removal = EffectView::RemoveLv { lv: volume.lv()->0, timeout: WAIT };
    let before = effects.drop_last();
    assert(effects =~= before.push(removal));
    lemma_no_removals(before);
    assert(lv_removals(effects) =~= lv_removals(before).push(removal)) by {
        reveal(Seq::filter);
    }
    assert(Seq::<EffectView>::empty().push(removal) =~= seq![removal]);
}

/// What is allocated for a volume is what its removal frees: from its creation,
/// over any mounts and unmounts, to its removal, exactly one LV removal is asked
/// for, that of the LV which LVM made when the volume was provisioned.
#[verifier::rlimit(40)]
pub proof fn law_removal_frees_creation(
    opts: OptsView,
    name: Seq<char>,
    creating: Seq<ReplyView>,
    changes: Seq<Change>,
    removing: Seq<ReplyView>,
)
    requires
        ({
            let volume = VolumeView::UnProvisioned { creation_opts: opts };
            let made = provision_run(volume, ProvisionPhaseView::Begin, name, creating);
            let used = changed(made.volume, changes);
            &&& made.outcome matches Some(Ok(_))
            &&& remove_run(used.0, remove_begin(), removing).outcome matches Some(Ok(_))
        }),
    ensures
        ({
            let volume = VolumeView::UnProvisioned { creation_opts: opts };
            let made = provision_run(volume, ProvisionPhaseView::Begin, name, creating);
            let used = changed(made.volume, changes);
            let gone = remove_run(used.0, remove_begin(), removing);
            lv_removals(made.effects + used.1 + gone.effects) == seq![
                EffectView::RemoveLv { lv: creating[1]->LvCreated_lv, timeout: WAIT },
            ]
        }),
{
    let volume = VolumeView::UnProvisioned { creation_opts: opts };
    let made = provision_run(volume, ProvisionPhaseView::Begin, name, creating);
    let used = changed(made.volume, changes);
    let gone = remove_run(used.0, remove_begin(), removing);
    law_provision(opts, name, creating, opts);
    law_changes_keep_lv(made.volume, changes);
    lemma_one_removal(used.0, removing);
    lemma_no_removals(made.effects);
    lemma_removals_join(made.effects, used.1);
    lemma_removals_join(made.effects + used.1, gone.effects);
}

/// A volume that was created and then mounted and unmounted in any way, with
/// unmounts missing or not, can be removed: where nothing stands in the way, the
/// removal succeeds, and from creation to removal just the LV that was made is
/// removed, once.
pub proof fn law_created_volume_can_be_removed(
    opts: OptsView,
    name: Seq<char>,
    creating: Seq<ReplyView>,
    changes: Seq<Change>,
    removing: Seq<ReplyView>,
)
    requires
        ({
            let volume = VolumeView::UnProvisioned { creation_opts: opts };
            let made = provision_run(volume, ProvisionPhaseView::Begin, name, creating);
            let used = changed(made.volume, changes);
            &&& made.outcome matches Some(Ok(_))
            &&& lets_go(used.0, removing)
        }),
    ensures
        ({
            let volume = VolumeView::UnProvisioned { creation_opts: opts };
            let made = provision_run(volume, ProvisionPhaseView::Begin, name, creating);
            let used = changed(made.volume, changes);
            let gone = remove_run(used.0, remove_begin(), removing);
            &&& gone.outcome == Some(Ok::<(), VolumeError>(()))
            &&& lv_removals(made.effects + used.1 + gone.effects) == seq![
                EffectView::RemoveLv { lv: creating[1]->LvCreated_lv, timeout: WAIT },
            ]
        }),
{
    let volume = VolumeView::UnProvisioned { creation_opts: opts };
    let made = provision_run(volume, ProvisionPhaseView::Begin, name, creating);
    law_removal_succeeds(changed(made.volume, changes).0, removing);
    law_removal_frees_creation(opts, name, creating, changes, removing);
}

} // verus!
