use thin_pool_docker_volume::effect::{Effect, IoErrorKind, Reply, Step};
use thin_pool_docker_volume::error::VolumeError;
use thin_pool_docker_volume::opts::Opts;
use thin_pool_docker_volume::volume_state::{
    DockerVolume, MountPhase, ProvisionPhase, UnmountPhase, VolumeState,
};

fn opts(root_mode: Option<u32>) -> Opts {
    Opts {
        size: 4096,
        mount_options: 6,
        fs_type: "ext4".to_string(),
        format_options: vec!["-q".to_string(), "-F".to_string()],
        root_mode,
    }
}

fn recorded() -> VolumeState {
    VolumeState::UnProvisioned { creation_opts: opts(None) }
}

fn provisioned(root_mode: Option<u32>) -> VolumeState {
    VolumeState::Provisioned { creation_opts: opts(root_mode), lv: "/lv/1".to_string() }
}

fn mounted(mounted_by: usize) -> VolumeState {
    VolumeState::Mounted {
        creation_opts: opts(None),
        mount_dir: b"/tmp/d".to_vec(),
        mounted_by,
        lv: "/lv/1".to_string(),
    }
}

fn dir() -> Vec<u8> {
    b"/tmp/d".to_vec()
}

fn target() -> Vec<u8> {
    b"/tmp/d/mount".to_vec()
}

fn provision(state: &mut VolumeState, replies: Vec<Reply>) -> (Vec<Effect>, Option<Result<(), VolumeError>>) {
    let mut phase = ProvisionPhase::Begin;
    let mut effects = Vec::new();
    for reply in replies {
        match state.provision(phase, "myvol", reply) {
            Step::Perform { effect, next } => {
                effects.push(effect);
                phase = next;
            }
            Step::Done(()) => return (effects, Some(Ok(()))),
            Step::Failed(error) => return (effects, Some(Err(error))),
        }
    }
    (effects, None)
}

fn mount(state: &mut VolumeState, replies: Vec<Reply>) -> (Vec<Effect>, Option<Result<Vec<u8>, VolumeError>>) {
    let mut phase = MountPhase::Begin;
    let mut effects = Vec::new();
    for reply in replies {
        match state.mount(phase, reply) {
            Step::Perform { effect, next } => {
                effects.push(effect);
                phase = next;
            }
            Step::Done(path) => return (effects, Some(Ok(path))),
            Step::Failed(error) => return (effects, Some(Err(error))),
        }
    }
    (effects, None)
}

fn unmount(state: &mut VolumeState, replies: Vec<Reply>) -> (Vec<Effect>, Option<Result<(), VolumeError>>) {
    let mut phase = UnmountPhase::Begin;
    let mut effects = Vec::new();
    for reply in replies {
        match state.unmount(phase, reply) {
            Step::Perform { effect, next } => {
                effects.push(effect);
                phase = next;
            }
            Step::Done(()) => return (effects, Some(Ok(()))),
            Step::Failed(error) => return (effects, Some(Err(error))),
        }
    }
    (effects, None)
}

fn force_unmount(state: &mut VolumeState, replies: Vec<Reply>) -> (Vec<Effect>, Option<Result<(), IoErrorKind>>) {
    let mut phase = UnmountPhase::Begin;
    let mut effects = Vec::new();
    for reply in replies {
        match state.force_unmount(phase, reply) {
            Step::Perform { effect, next } => {
                effects.push(effect);
                phase = next;
            }
            Step::Done(()) => return (effects, Some(Ok(()))),
            Step::Failed(kind) => return (effects, Some(Err(kind))),
        }
    }
    (effects, None)
}

fn lv_created(job: &str) -> Reply {
    Reply::LvCreated { lv: "/lv/1".to_string(), job: job.to_string() }
}

fn device() -> Reply {
    Reply::Device { path: "/dev/vg/myvol".to_string() }
}

#[test]
fn provisioning_creates_and_formats_an_lv() {
    let mut state = recorded();
    let (effects, outcome) = provision(
        &mut state,
        vec![Reply::Begin, lv_created("/"), device(), Reply::Formatted { success: true }],
    );
    assert_eq!(outcome, Some(Ok(())));
    assert_eq!(
        effects,
        vec![
            Effect::CreateLv { name: "myvol".to_string(), size: 4096, timeout: -1 },
            Effect::FindDevice { lv: "/lv/1".to_string() },
            Effect::Format {
                program: "mkfs.ext4".to_string(),
                args: vec!["-q".to_string(), "-F".to_string(), "/dev/vg/myvol".to_string()],
            },
        ]
    );
    assert_eq!(state, provisioned(None));
}

#[test]
fn provisioning_leaves_an_lv_alone() {
    let mut state = provisioned(None);
    assert_eq!(provision(&mut state, vec![Reply::Begin]), (vec![], Some(Ok(()))));
    assert_eq!(state, provisioned(None));
    let mut state = mounted(2);
    assert_eq!(provision(&mut state, vec![Reply::Begin]), (vec![], Some(Ok(()))));
    assert_eq!(state, mounted(2));
}

#[test]
fn provisioning_failures_are_told_apart() {
    let cases = vec![
        (vec![Reply::Begin, Reply::Failed], VolumeError::CreateLvFailed),
        (vec![Reply::Begin, lv_created("/job/1")], VolumeError::CreationPending),
        (vec![Reply::Begin, lv_created("/"), Reply::Failed], VolumeError::FindDeviceFailed),
        (vec![Reply::Begin, lv_created("/"), device(), Reply::Failed], VolumeError::FormatNotRun),
        (
            vec![Reply::Begin, lv_created("/"), device(), Reply::Formatted { success: false }],
            VolumeError::FormattingFailed,
        ),
    ];
    for (replies, error) in cases {
        let mut state = recorded();
        assert_eq!(provision(&mut state, replies).1, Some(Err(error)));
        assert_eq!(state, recorded());
    }
}

#[test]
fn mounting_mounts_in_a_fresh_directory() {
    let mut state = provisioned(None);
    let (effects, outcome) = mount(
        &mut state,
        vec![Reply::Begin, device(), Reply::MountDir { dir: dir() }, Reply::Completed],
    );
    assert_eq!(outcome, Some(Ok(target())));
    assert_eq!(
        effects,
        vec![
            Effect::FindDevice { lv: "/lv/1".to_string() },
            Effect::MakeMountDir,
            Effect::Mount {
                source: "/dev/vg/myvol".to_string(),
                target: target(),
                fs_type: "ext4".to_string(),
                flags: 6,
            },
        ]
    );
    assert_eq!(state, mounted(1));
}

#[test]
fn mounting_applies_the_root_mode() {
    let mut state = provisioned(Some(0o1777));
    let (effects, outcome) = mount(
        &mut state,
        vec![
            Reply::Begin,
            device(),
            Reply::MountDir { dir: dir() },
            Reply::Completed,
            Reply::Completed,
        ],
    );
    assert_eq!(outcome, Some(Ok(target())));
    assert_eq!(effects.len(), 4);
    assert_eq!(effects[3], Effect::SetMode { target: target(), mode: 0o1777 });
    assert_eq!(
        state,
        VolumeState::Mounted {
            creation_opts: opts(Some(0o1777)),
            mount_dir: dir(),
            mounted_by: 1,
            lv: "/lv/1".to_string(),
        }
    );
}

#[test]
fn a_root_mode_that_fails_is_rolled_back() {
    let mut state = provisioned(Some(0o1777));
    let (effects, outcome) = mount(
        &mut state,
        vec![
            Reply::Begin,
            device(),
            Reply::MountDir { dir: dir() },
            Reply::Completed,
            Reply::Failed,
            Reply::Completed,
            Reply::Completed,
        ],
    );
    assert_eq!(outcome, Some(Err(VolumeError::MountFailed)));
    assert_eq!(effects[4], Effect::Unmount { target: target() });
    assert_eq!(effects[5], Effect::DiscardDir { dir: dir() });
    assert_eq!(state, provisioned(Some(0o1777)));

    let (effects, outcome) = mount(
        &mut state,
        vec![
            Reply::Begin,
            device(),
            Reply::MountDir { dir: dir() },
            Reply::Completed,
            Reply::Failed,
            Reply::Refused { kind: IoErrorKind::ResourceBusy },
        ],
    );
    assert_eq!(outcome, Some(Err(VolumeError::MountFailed)));
    assert_eq!(effects.len(), 5);
    assert_eq!(state, provisioned(Some(0o1777)));
}

#[test]
fn mount_failures_leave_the_volume_as_it_was() {
    let mut state = provisioned(None);
    assert_eq!(
        mount(&mut state, vec![Reply::Begin, Reply::Failed]).1,
        Some(Err(VolumeError::FindDeviceFailed))
    );
    assert_eq!(
        mount(&mut state, vec![Reply::Begin, device(), Reply::Failed]).1,
        Some(Err(VolumeError::MountFailed))
    );
    let (effects, outcome) = mount(
        &mut state,
        vec![
            Reply::Begin,
            device(),
            Reply::MountDir { dir: dir() },
            Reply::Failed,
            Reply::Completed,
        ],
    );
    assert_eq!(outcome, Some(Err(VolumeError::MountFailed)));
    assert_eq!(effects[3], Effect::DiscardDir { dir: dir() });
    assert_eq!(state, provisioned(None));
}

#[test]
fn an_unprovisioned_volume_is_not_mounted() {
    let mut state = recorded();
    assert_eq!(
        mount(&mut state, vec![Reply::Begin]),
        (vec![], Some(Err(VolumeError::Unprovisioned)))
    );
    assert_eq!(state, recorded());
}

#[test]
fn mounts_are_counted() {
    let mut state = mounted(1);
    assert_eq!(mount(&mut state, vec![Reply::Begin]), (vec![], Some(Ok(target()))));
    assert_eq!(mount(&mut state, vec![Reply::Begin]), (vec![], Some(Ok(target()))));
    assert_eq!(state, mounted(3));
    assert_eq!(unmount(&mut state, vec![Reply::Begin]), (vec![], Some(Ok(()))));
    assert_eq!(unmount(&mut state, vec![Reply::Begin]), (vec![], Some(Ok(()))));
    assert_eq!(state, mounted(1));
    let (effects, outcome) =
        unmount(&mut state, vec![Reply::Begin, Reply::Completed, Reply::Completed]);
    assert_eq!(outcome, Some(Ok(())));
    assert_eq!(
        effects,
        vec![Effect::Unmount { target: target() }, Effect::DiscardDir { dir: dir() }]
    );
    assert_eq!(state, provisioned(None));
}

#[test]
fn counts_are_bounded() {
    assert!(mounted(1).can_count());
    assert!(!mounted(usize::MAX).can_count());
    assert!(provisioned(None).can_count());
    assert!(mounted(1).is_well_formed());
    assert!(!mounted(0).is_well_formed());
    assert!(recorded().is_well_formed());
}

#[test]
fn an_unmount_that_is_refused_changes_nothing() {
    for kind in [IoErrorKind::ResourceBusy, IoErrorKind::InvalidInput, IoErrorKind::NotFound] {
        let mut state = mounted(1);
        assert_eq!(
            unmount(&mut state, vec![Reply::Begin, Reply::Refused { kind }]).1,
            Some(Err(VolumeError::UnmountFailed))
        );
        assert_eq!(state, mounted(1));
    }
}

#[test]
fn what_is_not_mounted_is_unmounted_at_once() {
    for mut state in [recorded(), provisioned(None)] {
        assert_eq!(unmount(&mut state, vec![Reply::Begin]), (vec![], Some(Ok(()))));
        assert_eq!(force_unmount(&mut state, vec![Reply::Begin]), (vec![], Some(Ok(()))));
    }
}

#[test]
fn a_forced_unmount_ignores_the_count() {
    let gone = vec![
        Reply::Completed,
        Reply::Refused { kind: IoErrorKind::InvalidInput },
        Reply::Refused { kind: IoErrorKind::NotFound },
    ];
    for reply in gone {
        let mut state = mounted(5);
        let (effects, outcome) =
            force_unmount(&mut state, vec![Reply::Begin, reply, Reply::Completed]);
        assert_eq!(outcome, Some(Ok(())));
        assert_eq!(
            effects,
            vec![Effect::Unmount { target: target() }, Effect::DiscardDir { dir: dir() }]
        );
        assert_eq!(state, provisioned(None));
    }
}

#[test]
fn a_forced_unmount_reports_other_refusals() {
    let cases = vec![
        (Reply::Refused { kind: IoErrorKind::ResourceBusy }, IoErrorKind::ResourceBusy),
        (Reply::Refused { kind: IoErrorKind::Other }, IoErrorKind::Other),
        (Reply::Failed, IoErrorKind::Other),
    ];
    for (reply, kind) in cases {
        let mut state = mounted(5);
        assert_eq!(
            force_unmount(&mut state, vec![Reply::Begin, reply]).1,
            Some(Err(kind))
        );
        assert_eq!(state, mounted(5));
    }
}

#[test]
fn docker_sees_the_mountpoint() {
    let volume: DockerVolume<u8> = mounted(1).as_docker_volume("myvol");
    assert_eq!(
        volume,
        DockerVolume { name: "myvol".to_string(), mountpoint: Some(target()), status: 0 }
    );
    let volume: DockerVolume<()> = provisioned(None).as_docker_volume("a");
    assert_eq!(volume.mountpoint, None);
    let volume: DockerVolume<()> = recorded().as_docker_volume("b");
    assert_eq!(volume, DockerVolume { name: "b".to_string(), mountpoint: None, status: () });
}
