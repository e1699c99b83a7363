//! The life of one volume.
//!
//! A volume is recorded, then backed by a formatted LV, then mounted and
//! unmounted any number of times. Mounts are counted: the first one mounts the
//! filesystem, the last unmount takes it down again.
use crate::effect::{Effect, EffectView, IoErrorKind, Reply, ReplyView, Step, StepView, NO_JOB, WAIT};
use crate::error::VolumeError;
use crate::mountpoint::{mountpoint, mountpoint_of};
use crate::opts::{mount_flags, texts, Opts, OptsView};
use vstd::prelude::*;

verus! {

/// What the plugin knows of a volume.
#[derive(Debug, PartialEq, Eq)]
pub enum VolumeState {
    /// Recorded, with no LV behind it yet.
    UnProvisioned { creation_opts: Opts },
    /// Backed by the formatted LV `lv`.
    Provisioned { creation_opts: Opts, lv: String },
    /// Mounted inside the private directory `mount_dir`, on behalf of
    /// `mounted_by` containers.
    Mounted { creation_opts: Opts, mount_dir: Vec<u8>, mounted_by: usize, lv: String },
}

/// The mathematical value of a [`VolumeState`].
pub enum VolumeView {
    UnProvisioned { creation_opts: OptsView },
    Provisioned { creation_opts: OptsView, lv: Seq<char> },
    Mounted { creation_opts: OptsView, mount_dir: Seq<u8>, mounted_by: nat, lv: Seq<char> },
}

impl View for VolumeState {
    type V = VolumeView;

    open spec fn view(&self) -> VolumeView {
        match *self {
            VolumeState::UnProvisioned { creation_opts } => VolumeView::UnProvisioned {
                creation_opts: creation_opts@,
            },
            VolumeState::Provisioned { creation_opts, lv } => VolumeView::Provisioned {
                creation_opts: creation_opts@,
                lv: lv@,
            },
            VolumeState::Mounted { creation_opts, mount_dir, mounted_by, lv } =>
                VolumeView::Mounted {
                    creation_opts: creation_opts@,
                    mount_dir: mount_dir@,
                    mounted_by: mounted_by as nat,
                    lv: lv@,
                },
        }
    }
}

impl VolumeView {
    /// A mounted volume is mounted on behalf of someone.
    pub open spec fn well_formed(self) -> bool {
        self matches VolumeView::Mounted { mounted_by, .. } ==> mounted_by >= 1
    }

    /// Whether one more mount can be counted.
    pub open spec fn can_count(self) -> bool {
        self matches VolumeView::Mounted { mounted_by, .. } ==> mounted_by < usize::MAX
    }

    /// What the volume was created with.
    pub open spec fn opts(self) -> OptsView {
        match self {
            VolumeView::UnProvisioned { creation_opts } => creation_opts,
            VolumeView::Provisioned { creation_opts, .. } => creation_opts,
            VolumeView::Mounted { creation_opts, .. } => creation_opts,
        }
    }

    /// The LV behind the volume.
    pub open spec fn lv(self) -> Option<Seq<char>> {
        match self {
            VolumeView::UnProvisioned { .. } => None,
            VolumeView::Provisioned { lv, .. } => Some(lv),
            VolumeView::Mounted { lv, .. } => Some(lv),
        }
    }

    /// Where the volume is mounted.
    pub open spec fn mountpoint(self) -> Option<Seq<u8>> {
        match self {
            VolumeView::Mounted { mount_dir, .. } => Some(mountpoint_of(mount_dir)),
            _ => None,
        }
    }
}

/// A volume as it is reported to Docker.
#[derive(Debug, PartialEq, Eq)]
pub struct DockerVolume<S> {
    pub name: String,
    /// Where the volume is mounted, if it is.
    pub mountpoint: Option<Vec<u8>>,
    pub status: S,
}

impl VolumeState {
    /// The volume as it is reported to Docker under `name`.
    pub fn as_docker_volume<S: Default>(&self, name: &str) -> (volume: DockerVolume<S>)
        ensures
            volume.name@ == name@,
            volume.mountpoint is Some <==> self@.mountpoint() is Some,
            volume.mountpoint matches Some(path) ==> self@.mountpoint() == Some(path@),
            call_ensures(S::default, (), volume.status),
    {
        DockerVolume {
            name: name.to_owned(),
            mountpoint: match self {
                VolumeState::UnProvisioned { .. } | VolumeState::Provisioned { .. } => None,
                VolumeState::Mounted { mount_dir, .. } => Some(mountpoint(mount_dir)),
            },
            status: S::default(),
        }
    }
}

/// How far the provisioning of a volume has come.
#[derive(Debug, PartialEq, Eq)]
pub enum ProvisionPhase {
    Begin,
    CreatingLv,
    FindingDevice { lv: String },
    Formatting { lv: String },
}

/// The mathematical value of a [`ProvisionPhase`].
pub enum ProvisionPhaseView {
    Begin,
    CreatingLv,
    FindingDevice { lv: Seq<char> },
    Formatting { lv: Seq<char> },
}

impl View for ProvisionPhase {
    type V = ProvisionPhaseView;

    open spec fn view(&self) -> ProvisionPhaseView {
        match *self {
            ProvisionPhase::Begin => ProvisionPhaseView::Begin,
            ProvisionPhase::CreatingLv => ProvisionPhaseView::CreatingLv,
            ProvisionPhase::FindingDevice { lv } => ProvisionPhaseView::FindingDevice { lv: lv@ },
            ProvisionPhase::Formatting { lv } => ProvisionPhaseView::Formatting { lv: lv@ },
        }
    }
}

/// How far the mounting of a volume has come.
#[derive(Debug, PartialEq, Eq)]
pub enum MountPhase {
    Begin,
    FindingDevice,
    MakingDir { source: String, flags: u32 },
    Mounting { dir: Vec<u8> },
    SettingMode { dir: Vec<u8> },
    /// The root mode could not be set: the volume is being unmounted again.
    RollingBack { dir: Vec<u8> },
    /// The mount failed, and its directory is being discarded.
    Abandoning,
}

/// The mathematical value of a [`MountPhase`].
pub enum MountPhaseView {
    Begin,
    FindingDevice,
    MakingDir { source: Seq<char>, flags: u32 },
    Mounting { dir: Seq<u8> },
    SettingMode { dir: Seq<u8> },
    RollingBack { dir: Seq<u8> },
    Abandoning,
}

impl View for MountPhase {
    type V = MountPhaseView;

    open spec fn view(&self) -> MountPhaseView {
        match *self {
            MountPhase::Begin => MountPhaseView::Begin,
            MountPhase::FindingDevice => MountPhaseView::FindingDevice,
            MountPhase::MakingDir { source, flags } => MountPhaseView::MakingDir {
                source: source@,
                flags,
            },
            MountPhase::Mounting { dir } => MountPhaseView::Mounting { dir: dir@ },
            MountPhase::SettingMode { dir } => MountPhaseView::SettingMode { dir: dir@ },
            MountPhase::RollingBack { dir } => MountPhaseView::RollingBack { dir: dir@ },
            MountPhase::Abandoning => MountPhaseView::Abandoning,
        }
    }
}

/// How far the unmounting of a volume has come.
#[derive(Debug, Clone, Copy, PartialEq, Eq, Structural)]
pub enum UnmountPhase {
    Begin,
    Unmounting,
    /// The volume is unmounted, and its directory is being discarded.
    Discarding,
}

impl View for UnmountPhase {
    type V = UnmountPhase;

    open spec fn view(&self) -> UnmountPhase {
        *self
    }
}

/// The command that formats a device: `mkfs.<fs_type>`, the format options and
/// the device.
pub open spec fn format_command(opts: OptsView, device: Seq<char>) -> EffectView {
    EffectView::Format {
        program: "mkfs."@ + opts.fs_type,
        args: opts.format_options.push(device),
    }
}

/// One step of provisioning the volume `name`: from the volume, the phase and
/// the reply to the phase's effect, the volume afterwards and the step taken.
/// A volume that has an LV is left alone.
pub open spec fn provision_step(
    volume: VolumeView,
    phase: ProvisionPhaseView,
    name: Seq<char>,
    reply: ReplyView,
) -> (VolumeView, StepView<ProvisionPhaseView, (), VolumeError>) {
    match volume {
        VolumeView::UnProvisioned { creation_opts } => match (phase, reply) {
            (ProvisionPhaseView::Begin, _) => (
                volume,
                StepView::Perform {
                    effect: EffectView::CreateLv { name, size: creation_opts.size, timeout: WAIT },
                    next: ProvisionPhaseView::CreatingLv,
                },
            ),
            (ProvisionPhaseView::CreatingLv, ReplyView::LvCreated { lv, job }) => if job
                == NO_JOB@ {
                (
                    volume,
                    StepView::Perform {
                        effect: EffectView::FindDevice { lv },
                        next: ProvisionPhaseView::FindingDevice { lv },
                    },
                )
            } else {
                (volume, StepView::Failed(VolumeError::CreationPending))
            },
            (ProvisionPhaseView::CreatingLv, _) => (
                volume,
                StepView::Failed(VolumeError::CreateLvFailed),
            ),
            (ProvisionPhaseView::FindingDevice { lv }, ReplyView::Device { path }) => (
                volume,
                StepView::Perform {
                    effect: format_command(creation_opts, path),
                    next: ProvisionPhaseView::Formatting { lv },
                },
            ),
            (ProvisionPhaseView::FindingDevice { .. }, _) => (
                volume,
                StepView::Failed(VolumeError::FindDeviceFailed),
            ),
            (ProvisionPhaseView::Formatting { lv }, ReplyView::Formatted { success }) => if success {
                (VolumeView::Provisioned { creation_opts, lv }, StepView::Done(()))
            } else {
                (volume, StepView::Failed(VolumeError::FormattingFailed))
            },
            (ProvisionPhaseView::Formatting { .. }, _) => (
                volume,
                StepView::Failed(VolumeError::FormatNotRun),
            ),
        },
        _ => (volume, StepView::Done(())),
    }
}

/// A step of a mount that succeeded inside the directory `dir`.
pub open spec fn mount_succeeds(
    creation_opts: OptsView,
    lv: Seq<char>,
    dir: Seq<u8>,
) -> (VolumeView, StepView<MountPhaseView, Seq<u8>, VolumeError>) {
    (
        VolumeView::Mounted { creation_opts, mount_dir: dir, mounted_by: 1, lv },
        StepView::Done(mountpoint_of(dir)),
    )
}

/// A step of a mount that failed after the directory `dir` was made for it.
pub open spec fn mount_abandons(volume: VolumeView, dir: Seq<u8>) -> (
    VolumeView,
    StepView<MountPhaseView, Seq<u8>, VolumeError>,
) {
    (
        volume,
        StepView::Perform {
            effect: EffectView::DiscardDir { dir },
            next: MountPhaseView::Abandoning,
        },
    )
}

/// One step of mounting a volume: from the volume, the phase and the reply to
/// the phase's effect, the volume afterwards and the step taken. A mounted
/// volume counts one more mount. A volume with an LV is mounted in a fresh
/// directory, and its root gets the root mode; where that mode cannot be set,
/// the volume is unmounted again.
pub open spec fn mount_step(volume: VolumeView, phase: MountPhaseView, reply: ReplyView) -> (
    VolumeView,
    StepView<MountPhaseView, Seq<u8>, VolumeError>,
) {
    match volume {
        VolumeView::UnProvisioned { .. } => (volume, StepView::Failed(VolumeError::Unprovisioned)),
        VolumeView::Mounted { creation_opts, mount_dir, mounted_by, lv } => (
            VolumeView::Mounted { creation_opts, mount_dir, mounted_by: mounted_by + 1, lv },
            StepView::Done(mountpoint_of(mount_dir)),
        ),
        VolumeView::Provisioned { creation_opts, lv } => match (phase, reply) {
            (MountPhaseView::Begin, _) => (
                volume,
                StepView::Perform {
                    effect: EffectView::FindDevice { lv },
                    next: MountPhaseView::FindingDevice,
                },
            ),
            (MountPhaseView::FindingDevice, ReplyView::Device { path }) => (
                volume,
                StepView::Perform {
                    effect: EffectView::MakeMountDir,
                    next: MountPhaseView::MakingDir {
                        source: path,
                        flags: creation_opts.mount_options,
                    },
                },
            ),
            (MountPhaseView::FindingDevice, _) => (
                volume,
                StepView::Failed(VolumeError::FindDeviceFailed),
            ),
            (MountPhaseView::MakingDir { source, flags }, ReplyView::MountDir { dir }) => (
                volume,
                StepView::Perform {
                    effect: EffectView::Mount {
                        source,
                        target: mountpoint_of(dir),
                        fs_type: creation_opts.fs_type,
                        flags,
                    },
                    next: MountPhaseView::Mounting { dir },
                },
            ),
            (MountPhaseView::MakingDir { .. }, _) => (
                volume,
                StepView::Failed(VolumeError::MountFailed),
            ),
            (MountPhaseView::Mounting { dir }, ReplyView::Completed) => match creation_opts.root_mode {
                None => mount_succeeds(creation_opts, lv, dir),
                Some(mode) => (
                    volume,
                    StepView::Perform {
                        effect: EffectView::SetMode { target: mountpoint_of(dir), mode },
                        next: MountPhaseView::SettingMode { dir },
                    },
                ),
            },
            (MountPhaseView::Mounting { dir }, _) => mount_abandons(volume, dir),
            (MountPhaseView::SettingMode { dir }, ReplyView::Completed) => mount_succeeds(
                creation_opts,
                lv,
                dir,
            ),
            (MountPhaseView::SettingMode { dir }, _) => (
                volume,
                StepView::Perform {
                    effect: EffectView::Unmount { target: mountpoint_of(dir) },
                    next: MountPhaseView::RollingBack { dir },
                },
            ),
            (MountPhaseView::RollingBack { dir }, ReplyView::Completed) => mount_abandons(
                volume,
                dir,
            ),
            (MountPhaseView::RollingBack { .. }, _) => (
                volume,
                StepView::Failed(VolumeError::MountFailed),
            ),
            (MountPhaseView::Abandoning, _) => (
                volume,
                StepView::Failed(VolumeError::MountFailed),
            ),
        },
    }
}

/// A step that finds the kernel's mount of a volume gone: the volume falls back
/// to its LV, and its mount directory is discarded.
pub open spec fn mount_gone<E>(
    creation_opts: OptsView,
    lv: Seq<char>,
    mount_dir: Seq<u8>,
) -> (VolumeView, StepView<UnmountPhase, (), E>) {
    (
        VolumeView::Provisioned { creation_opts, lv },
        StepView::Perform {
            effect: EffectView::DiscardDir { dir: mount_dir },
            next: UnmountPhase::Discarding,
        },
    )
}

/// One step of tearing a mount down whatever its count: from the volume, the
/// phase and the reply to the phase's effect, the volume afterwards and the
/// step taken. An unmount that is refused because nothing is mounted there
/// reconciles the volume with the kernel.
pub open spec fn force_unmount_step(volume: VolumeView, phase: UnmountPhase, reply: ReplyView) -> (
    VolumeView,
    StepView<UnmountPhase, (), IoErrorKind>,
) {
    match volume {
        VolumeView::Mounted { creation_opts, mount_dir, lv, .. } => match (phase, reply) {
            (UnmountPhase::Unmounting, ReplyView::Completed) => mount_gone(
                creation_opts,
                lv,
                mount_dir,
            ),
            (UnmountPhase::Unmounting, ReplyView::Refused { kind }) => if kind
                == IoErrorKind::InvalidInput || kind == IoErrorKind::NotFound {
                mount_gone(creation_opts, lv, mount_dir)
            } else {
                (volume, StepView::Failed(kind))
            },
            (UnmountPhase::Unmounting, _) => (volume, StepView::Failed(IoErrorKind::Other)),
            _ => (
                volume,
                StepView::Perform {
                    effect: EffectView::Unmount { target: mountpoint_of(mount_dir) },
                    next: UnmountPhase::Unmounting,
                },
            ),
        },
        _ => (volume, StepView::Done(())),
    }
}

/// One step of unmounting a volume for one container: from the volume, the
/// phase and the reply to the phase's effect, the volume afterwards and the
/// step taken. Only the last unmount takes the filesystem down.
pub open spec fn unmount_step(volume: VolumeView, phase: UnmountPhase, reply: ReplyView) -> (
    VolumeView,
    StepView<UnmountPhase, (), VolumeError>,
) {
    match volume {
        VolumeView::Mounted { creation_opts, mount_dir, mounted_by, lv } => if mounted_by == 1 {
            match (phase, reply) {
                (UnmountPhase::Unmounting, ReplyView::Completed) => mount_gone(
                    creation_opts,
                    lv,
                    mount_dir,
                ),
                (UnmountPhase::Unmounting, _) => (
                    volume,
                    StepView::Failed(VolumeError::UnmountFailed),
                ),
                _ => (
                    volume,
                    StepView::Perform {
                        effect: EffectView::Unmount { target: mountpoint_of(mount_dir) },
                        next: UnmountPhase::Unmounting,
                    },
                ),
            }
        } else {
            (
                VolumeView::Mounted {
                    creation_opts,
                    mount_dir,
                    mounted_by: (mounted_by - 1) as nat,
                    lv,
                },
                StepView::Done(()),
            )
        },
        _ => (volume, StepView::Done(())),
    }
}

/// The arguments of the format program: the format options, then the device.
fn format_args(options: &Vec<String>, device: String) -> (args: Vec<String>)
    ensures
        texts(args@) == texts(options@).push(device@),
{
    let mut args = options.clone();
    assert(texts(args@) =~= texts(options@));
    args.push(device);
    assert(texts(args@) =~= texts(options@).push(device@));
    args
}

impl VolumeState {
    /// Whether one more mount can be counted.
    pub fn can_count(&self) -> (counts: bool)
        ensures
            counts == self@.can_count(),
    {
        match self {
            VolumeState::Mounted { mounted_by, .. } => *mounted_by < usize::MAX,
            _ => true,
        }
    }

    /// Whether the volume, if it is mounted, is mounted on behalf of someone.
    pub fn is_well_formed(&self) -> (well_formed: bool)
        ensures
            well_formed == self@.well_formed(),
    {
        match self {
            VolumeState::Mounted { mounted_by, .. } => *mounted_by >= 1,
            _ => true,
        }
    }

    /// One step of backing the volume `name` with a formatted LV. A volume that
    /// has an LV is left alone.
    pub fn provision(&mut self, phase: ProvisionPhase, name: &str, reply: Reply) -> (step: Step<
        ProvisionPhase,
        (),
        VolumeError,
    >)
        ensures
            (final(self)@, step@) == provision_step(old(self)@, phase@, name@, reply@),
            old(self)@.well_formed() ==> final(self)@.well_formed(),
            final(self)@.opts() == old(self)@.opts(),
            !(step is Done) ==> final(self)@ == old(self)@,
    {
        match self {
            VolumeState::UnProvisioned { creation_opts } => match phase {
                ProvisionPhase::Begin => Step::Perform {
                    effect: Effect::CreateLv {
                        name: name.to_owned(),
                        size: creation_opts.size,
                        timeout: WAIT,
                    },
                    next: ProvisionPhase::CreatingLv,
                },
                ProvisionPhase::CreatingLv => match reply {
                    Reply::LvCreated { lv, job } => {
                        if job == NO_JOB.to_owned() {
                            Step::Perform {
                                effect: Effect::FindDevice { lv: lv.clone() },
                                next: ProvisionPhase::FindingDevice { lv },
                            }
                        } else {
                            Step::Failed(VolumeError::CreationPending)
                        }
                    },
                    _ => Step::Failed(VolumeError::CreateLvFailed),
                },
                ProvisionPhase::FindingDevice { lv } => match reply {
                    Reply::Device { path } => Step::Perform {
                        effect: Effect::Format {
                            program: "mkfs.".to_owned().concat(creation_opts.fs_type.as_str()),
                            args: format_args(&creation_opts.format_options, path),
                        },
                        next: ProvisionPhase::Formatting { lv },
                    },
                    _ => Step::Failed(VolumeError::FindDeviceFailed),
                },
                ProvisionPhase::Formatting { lv } => match reply {
                    Reply::Formatted { success } => {
                        if success {
                            *self = VolumeState::Provisioned {
                                creation_opts: creation_opts.clone(),
                                lv,
                            };
                            Step::Done(())
                        } else {
                            Step::Failed(VolumeError::FormattingFailed)
                        }
                    },
                    _ => Step::Failed(VolumeError::FormatNotRun),
                },
            },
            _ => Step::Done(()),
        }
    }

    /// One step of mounting the volume for one more container; the mount ends
    /// with the path of the mountpoint.
    pub fn mount(&mut self, phase: MountPhase, reply: Reply) -> (step: Step<
        MountPhase,
        Vec<u8>,
        VolumeError,
    >)
        requires
            old(self)@.can_count(),
        ensures
            (final(self)@, step@) == mount_step(old(self)@, phase@, reply@),
            old(self)@.well_formed() ==> final(self)@.well_formed(),
            final(self)@.opts() == old(self)@.opts(),
            final(self)@.lv() == old(self)@.lv(),
            !(step is Done) ==> final(self)@ == old(self)@,
            step matches Step::Done(path) ==> final(self)@.mountpoint() == Some(path@),
    {
        match self {
            VolumeState::UnProvisioned { .. } => Step::Failed(VolumeError::Unprovisioned),
            VolumeState::Mounted { mount_dir, mounted_by, .. } => {
                *mounted_by = *mounted_by + 1;
                Step::Done(mountpoint(mount_dir))
            },
            VolumeState::Provisioned { creation_opts, lv } => match phase {
                MountPhase::Begin => Step::Perform {
                    effect: Effect::FindDevice { lv: lv.clone() },
                    next: MountPhase::FindingDevice,
                },
                MountPhase::FindingDevice => match reply {
                    Reply::Device { path } => match mount_flags(creation_opts.mount_options) {
                        None => Step::Failed(VolumeError::UnrecognizedMountFlags),
                        Some(flags) => Step::Perform {
                            effect: Effect::MakeMountDir,
                            next: MountPhase::MakingDir { source: path, flags },
                        },
                    },
                    _ => Step::Failed(VolumeError::FindDeviceFailed),
                },
                MountPhase::MakingDir { source, flags } => match reply {
                    Reply::MountDir { dir } => Step::Perform {
                        effect: Effect::Mount {
                            source,
                            target: mountpoint(&dir),
                            fs_type: creation_opts.fs_type.clone(),
                            flags,
                        },
                        next: MountPhase::Mounting { dir },
                    },
                    _ => Step::Failed(VolumeError::MountFailed),
                },
                MountPhase::Mounting { dir } => match (reply, creation_opts.root_mode) {
                    (Reply::Completed, Some(mode)) => Step::Perform {
                        effect: Effect::SetMode { target: mountpoint(&dir), mode },
                        next: MountPhase::SettingMode { dir },
                    },
                    (Reply::Completed, None) => {
                        let path = mountpoint(&dir);
                        *self = VolumeState::Mounted {
                            creation_opts: creation_opts.clone(),
                            mount_dir: dir,
                            mounted_by: 1,
                            lv: lv.clone(),
                        };
                        Step::Done(path)
                    },
                    _ => Step::Perform {
                        effect: Effect::DiscardDir { dir },
                        next: MountPhase::Abandoning,
                    },
                },
                MountPhase::SettingMode { dir } => match reply {
                    Reply::Completed => {
                        let path = mountpoint(&dir);
                        *self = VolumeState::Mounted {
                            creation_opts: creation_opts.clone(),
                            mount_dir: dir,
                            mounted_by: 1,
                            lv: lv.clone(),
                        };
                        Step::Done(path)
                    },
                    _ => Step::Perform {
                        effect: Effect::Unmount { target: mountpoint(&dir) },
                        next: MountPhase::RollingBack { dir },
                    },
                },
                MountPhase::RollingBack { dir } => match reply {
                    Reply::Completed => Step::Perform {
                        effect: Effect::DiscardDir { dir },
                        next: MountPhase::Abandoning,
                    },
                    _ => Step::Failed(VolumeError::MountFailed),
                },
                MountPhase::Abandoning => Step::Failed(VolumeError::MountFailed),
            },
        }
    }

    /// One step of tearing down the mount regardless of the count of mounts.
    ///
    /// A removal runs this so that a stale mounted state, left over where Docker
    /// skipped an unmount, does not wedge the removal for good. Docker removes a
    /// volume only when no live container refers to it, so forcing the kernel's
    /// unmount is safe. A refusal with `InvalidInput` or `NotFound` means that
    /// the kernel does not know the mount; the volume counts as unmounted then.
    pub fn force_unmount(&mut self, phase: UnmountPhase, reply: Reply) -> (step: Step<
        UnmountPhase,
        (),
        IoErrorKind,
    >)
        ensures
            (final(self)@, step@) == force_unmount_step(old(self)@, phase@, reply@),
            final(self)@.well_formed() || final(self)@ == old(self)@,
            final(self)@.opts() == old(self)@.opts(),
            final(self)@.lv() == old(self)@.lv(),
            step is Done ==> !(final(self)@ is Mounted),
            step matches Step::Failed(kind) ==> final(self)@ == old(self)@ && kind
                != IoErrorKind::InvalidInput && kind != IoErrorKind::NotFound,
    {
        match self {
            VolumeState::Mounted { creation_opts, mount_dir, lv, .. } => match (phase, reply) {
                (UnmountPhase::Unmounting, Reply::Completed)
                | (
                    UnmountPhase::Unmounting,
                    Reply::Refused { kind: IoErrorKind::InvalidInput | IoErrorKind::NotFound },
                ) => {
                    let dir: Vec<u8> = mount_dir.clone();
                    assert(dir@ =~= mount_dir@);
                    *self = VolumeState::Provisioned {
                        creation_opts: creation_opts.clone(),
                        lv: lv.clone(),
                    };
                    Step::Perform {
                        effect: Effect::DiscardDir { dir },
                        next: UnmountPhase::Discarding,
                    }
                },
                (UnmountPhase::Unmounting, Reply::Refused { kind }) => Step::Failed(kind),
                (UnmountPhase::Unmounting, _) => Step::Failed(IoErrorKind::Other),
                _ => Step::Perform {
                    effect: Effect::Unmount { target: mountpoint(mount_dir) },
                    next: UnmountPhase::Unmounting,
                },
            },
            _ => Step::Done(()),
        }
    }

    /// One step of unmounting the volume for one container.
    pub fn unmount(&mut self, phase: UnmountPhase, reply: Reply) -> (step: Step<
        UnmountPhase,
        (),
        VolumeError,
    >)
        requires
            old(self)@.well_formed(),
        ensures
            (final(self)@, step@) == unmount_step(old(self)@, phase@, reply@),
            final(self)@.well_formed(),
            final(self)@.opts() == old(self)@.opts(),
            final(self)@.lv() == old(self)@.lv(),
            step is Failed ==> final(self)@ == old(self)@,
    {
        match self {
            VolumeState::Mounted { creation_opts, mount_dir, mounted_by, lv } => {
                if *mounted_by != 1 {
                    *mounted_by = *mounted_by - 1;
                    return Step::Done(());
                }
                match (phase, reply) {
                    (UnmountPhase::Unmounting, Reply::Completed) => {
                        let dir: Vec<u8> = mount_dir.clone();
                        assert(dir@ =~= mount_dir@);
                        *self = VolumeState::Provisioned {
                            creation_opts: creation_opts.clone(),
                            lv: lv.clone(),
                        };
                        Step::Perform {
                            effect: Effect::DiscardDir { dir },
                            next: UnmountPhase::Discarding,
                        }
                    },
                    (UnmountPhase::Unmounting, _) => Step::Failed(VolumeError::UnmountFailed),
                    _ => Step::Perform {
                        effect: Effect::Unmount { target: mountpoint(mount_dir) },
                        next: UnmountPhase::Unmounting,
                    },
                }
            },
            _ => Step::Done(()),
        }
    }
}

/// The value of a volume tells everything that is known of it.
pub proof fn law_volume_value(state: VolumeState)
    ensures
        match state {
            VolumeState::UnProvisioned { creation_opts } => state@ == (VolumeView::UnProvisioned {
                creation_opts: creation_opts@,
            }),
            VolumeState::Provisioned { creation_opts, lv } => state@ == (VolumeView::Provisioned {
                creation_opts: creation_opts@,
                lv: lv@,
            }),
            VolumeState::Mounted { creation_opts, mount_dir, mounted_by, lv } => state@
                == (VolumeView::Mounted {
                creation_opts: creation_opts@,
                mount_dir: mount_dir@,
                mounted_by: mounted_by as nat,
                lv: lv@,
            }),
        },
{
}

/// What is read off a volume: every volume has its options, one that was
/// provisioned has its LV, and a mounted one, and no other, has a mountpoint. A
/// mounted volume has to be mounted by someone, and mounts are counted as far as
/// the machine counts.
pub proof fn law_volume_parts(volume: VolumeView)
    ensures
        match volume {
            VolumeView::UnProvisioned { creation_opts } => {
                &&& volume.opts() == creation_opts
                &&& volume.lv() is None
                &&& volume.mountpoint() is None
                &&& volume.well_formed()
                &&& volume.can_count()
            },
            VolumeView::Provisioned { creation_opts, lv } => {
                &&& volume.opts() == creation_opts
                &&& volume.lv() == Some(lv)
                &&& volume.mountpoint() is None
                &&& volume.well_formed()
                &&& volume.can_count()
            },
            VolumeView::Mounted { creation_opts, mount_dir, mounted_by, lv } => {
                &&& volume.opts() == creation_opts
                &&& volume.lv() == Some(lv)
                &&& volume.mountpoint() == Some(mountpoint_of(mount_dir))
                &&& volume.well_formed() <==> mounted_by > 0
                &&& volume.can_count() <==> mounted_by < usize::MAX
            },
        },
{
}

/// A call of `can_count` says whether one more mount can be counted.
pub proof fn law_can_count(state: &VolumeState, counts: bool)
    requires
        call_ensures(VolumeState::can_count, (state,), counts),
    ensures
        counts <==> !(state matches VolumeState::Mounted { mounted_by, .. } && mounted_by
            == usize::MAX),
{
}

/// A call of `is_well_formed` finds a volume that is mounted on behalf of nobody.
pub proof fn law_is_well_formed(state: &VolumeState, well_formed: bool)
    requires
        call_ensures(VolumeState::is_well_formed, (state,), well_formed),
    ensures
        well_formed <==> !(state matches VolumeState::Mounted { mounted_by, .. } && mounted_by == 0),
{
}

/// A volume is reported under its name, and with a mountpoint exactly where it is
/// mounted: that inside its directory.
pub proof fn law_reported_volume<S: Default>(
    state: &VolumeState,
    name: &str,
    reported: DockerVolume<S>,
)
    requires
        call_ensures(VolumeState::as_docker_volume::<S>, (state, name), reported),
    ensures
        reported.name@ == name@,
        match *state {
            VolumeState::Mounted { mount_dir, .. } => {
                &&& reported.mountpoint is Some
                &&& reported.mountpoint->0@ == mountpoint_of(mount_dir@)
            },
            _ => reported.mountpoint is None,
        },
{
}

/// A call of `provision` is one step of provisioning the volume that it is made
/// on, under the name that it is given.
pub proof fn law_provision_call(
    state: &mut VolumeState,
    phase: ProvisionPhase,
    name: &str,
    reply: Reply,
    step: Step<ProvisionPhase, (), VolumeError>,
)
    requires
        call_ensures(VolumeState::provision, (state, phase, name, reply), step),
    ensures
        ((*final(state))@, step@) == provision_step((*old(state))@, phase@, name@, reply@),
{
}

/// A call of `mount` is one step of mounting the volume that it is made on.
pub proof fn law_mount_call(
    state: &mut VolumeState,
    phase: MountPhase,
    reply: Reply,
    step: Step<MountPhase, Vec<u8>, VolumeError>,
)
    requires
        call_ensures(VolumeState::mount, (state, phase, reply), step),
    ensures
        ((*final(state))@, step@) == mount_step((*old(state))@, phase@, reply@),
{
}

/// A call of `force_unmount` is one step of tearing down the mount of the volume
/// that it is made on.
pub proof fn law_force_unmount_call(
    state: &mut VolumeState,
    phase: UnmountPhase,
    reply: Reply,
    step: Step<UnmountPhase, (), IoErrorKind>,
)
    requires
        call_ensures(VolumeState::force_unmount, (state, phase, reply), step),
    ensures
        ((*final(state))@, step@) == force_unmount_step((*old(state))@, phase@, reply@),
{
}

/// A call of `unmount` is one step of unmounting the volume that it is made on.
pub proof fn law_unmount_call(
    state: &mut VolumeState,
    phase: UnmountPhase,
    reply: Reply,
    step: Step<UnmountPhase, (), VolumeError>,
)
    requires
        call_ensures(VolumeState::unmount, (state, phase, reply), step),
    ensures
        ((*final(state))@, step@) == unmount_step((*old(state))@, phase@, reply@),
{
}

/// The value of a phase tells everything that the phase remembers.
pub proof fn law_phase_values(provisioning: ProvisionPhase, mounting: MountPhase, unmounting: UnmountPhase)
    ensures
        match provisioning {
            ProvisionPhase::Begin => provisioning@ == ProvisionPhaseView::Begin,
            ProvisionPhase::CreatingLv => provisioning@ == ProvisionPhaseView::CreatingLv,
            ProvisionPhase::FindingDevice { lv } => provisioning@
                == (ProvisionPhaseView::FindingDevice { lv: lv@ }),
            ProvisionPhase::Formatting { lv } => provisioning@ == (ProvisionPhaseView::Formatting {
                lv: lv@,
            }),
        },
        match mounting {
            MountPhase::Begin => mounting@ == MountPhaseView::Begin,
            MountPhase::FindingDevice => mounting@ == MountPhaseView::FindingDevice,
            MountPhase::MakingDir { source, flags } => mounting@ == (MountPhaseView::MakingDir {
                source: source@,
                flags,
            }),
            MountPhase::Mounting { dir } => mounting@ == (MountPhaseView::Mounting { dir: dir@ }),
            MountPhase::SettingMode { dir } => mounting@ == (MountPhaseView::SettingMode {
                dir: dir@,
            }),
            MountPhase::RollingBack { dir } => mounting@ == (MountPhaseView::RollingBack {
                dir: dir@,
            }),
            MountPhase::Abandoning => mounting@ == MountPhaseView::Abandoning,
        },
        unmounting@ == unmounting,
{
}

} // verus!
