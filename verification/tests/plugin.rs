use thin_pool_docker_volume::effect::{Effect, IoErrorKind, Reply, Step};
use thin_pool_docker_volume::error::VolumeError;
use thin_pool_docker_volume::opts::Opts;
use thin_pool_docker_volume::plugin::{Creation, DockerLvmTmpFs, Removal, RemovePhase};
use thin_pool_docker_volume::volume_state::{
    MountPhase, ProvisionPhase, UnmountPhase, VolumeState,
};

fn opts(size: u64) -> Opts {
    Opts {
        size,
        mount_options: 0,
        fs_type: "xfs".to_string(),
        format_options: vec![],
        root_mode: None,
    }
}

fn provisioned(lv: &str) -> VolumeState {
    VolumeState::Provisioned { creation_opts: opts(1), lv: lv.to_string() }
}

fn mounted(dir: &[u8], mounted_by: usize) -> VolumeState {
    VolumeState::Mounted {
        creation_opts: opts(1),
        mount_dir: dir.to_vec(),
        mounted_by,
        lv: "/lv/1".to_string(),
    }
}

fn plugin(volumes: Vec<(&str, VolumeState)>) -> DockerLvmTmpFs {
    let volumes = volumes.into_iter().map(|(name, state)| (name.to_string(), state)).collect();
    DockerLvmTmpFs::new("/pool/0".to_string(), volumes)
}

fn is(plugin: &DockerLvmTmpFs, name: &str, expected: &VolumeState) -> bool {
    plugin.volumes().read_sync(name, |_, state| state == expected) == Some(true)
}

#[test]
fn a_plugin_starts_with_what_exists() {
    let plugin = plugin(vec![
        ("a", provisioned("/lv/1")),
        ("b", provisioned("/lv/2")),
        ("a", provisioned("/lv/3")),
    ]);
    assert_eq!(plugin.thin_pool(), "/pool/0");
    assert_eq!(plugin.volumes().len(), 2);
    assert!(is(&plugin, "a", &provisioned("/lv/3")));
    assert!(is(&plugin, "b", &provisioned("/lv/2")));
}

#[test]
fn a_new_volume_is_recorded_and_provisioned() {
    let plugin = plugin(vec![]);
    let entry = plugin.volumes().entry_sync("myvol".to_string());
    let mut held = match DockerLvmTmpFs::create(entry, opts(8).validate().unwrap()) {
        Creation::Recorded(held) => held,
        Creation::Refused { .. } => panic!("refused"),
    };
    assert_eq!(held.get(), &VolumeState::UnProvisioned { creation_opts: opts(8) });
    let replies = vec![
        Reply::Begin,
        Reply::LvCreated { lv: "/lv/9".to_string(), job: "/".to_string() },
        Reply::Device { path: "/dev/9".to_string() },
        Reply::Formatted { success: true },
    ];
    let mut phase = ProvisionPhase::Begin;
    let mut effects = Vec::new();
    for reply in replies {
        match DockerLvmTmpFs::provision(&mut held, phase, reply) {
            Step::Perform { effect, next } => {
                effects.push(effect);
                phase = next;
            }
            Step::Done(()) => {
                assert_eq!(effects.len(), 3);
                break;
            }
            Step::Failed(error) => panic!("{:?}", error),
        }
    }
    assert_eq!(
        effects[0],
        Effect::CreateLv { name: "myvol".to_string(), size: 8, timeout: -1 }
    );
    assert_eq!(DockerLvmTmpFs::keep(held), "myvol");
    let made = VolumeState::Provisioned { creation_opts: opts(8), lv: "/lv/9".to_string() };
    assert!(is(&plugin, "myvol", &made));
    let entry = plugin.volumes().entry_sync("myvol".to_string());
    match DockerLvmTmpFs::create(entry, opts(8).validate().unwrap()) {
        Creation::Recorded(_) => panic!("recorded"),
        Creation::Refused { entry, error } => {
            assert_eq!(error, VolumeError::CreateExisting);
            assert_eq!(DockerLvmTmpFs::keep(entry), "myvol");
        }
    }
    assert!(is(&plugin, "myvol", &made));
}

#[test]
fn a_volume_with_an_lv_is_not_created_again() {
    let plugin = plugin(vec![("a", provisioned("/lv/1")), ("b", mounted(b"/d", 1))]);
    for (name, expected) in [("a", VolumeError::CreateExisting), ("b", VolumeError::CreateMounted)] {
        let entry = plugin.volumes().entry_sync(name.to_string());
        match DockerLvmTmpFs::create(entry, opts(8).validate().unwrap()) {
            Creation::Recorded(_) => panic!("recorded"),
            Creation::Refused { error, .. } => assert_eq!(error, expected),
        }
    }
    assert!(is(&plugin, "a", &provisioned("/lv/1")));
    assert!(is(&plugin, "b", &mounted(b"/d", 1)));
}

#[test]
fn a_failed_creation_is_taken_up_again() {
    let plugin = plugin(vec![("a", VolumeState::UnProvisioned { creation_opts: opts(1) })]);
    let entry = plugin.volumes().entry_sync("a".to_string());
    match DockerLvmTmpFs::create(entry, opts(2).validate().unwrap()) {
        Creation::Recorded(held) => {
            assert_eq!(held.get(), &VolumeState::UnProvisioned { creation_opts: opts(2) });
        }
        Creation::Refused { .. } => panic!("refused"),
    }
}

#[test]
fn unknown_volumes_are_not_found() {
    let plugin = plugin(vec![("a", provisioned("/lv/1"))]);
    let entry = plugin.volumes().entry_sync("b".to_string());
    match DockerLvmTmpFs::find(entry) {
        Ok(_) => panic!("found"),
        Err(absent) => {
            assert_eq!(absent.error, VolumeError::NotFound);
            assert_eq!(absent.entry.key(), "b");
        }
    }
    let entry = plugin.volumes().entry_sync("a".to_string());
    match DockerLvmTmpFs::find(entry) {
        Ok(held) => assert_eq!(held.get(), &provisioned("/lv/1")),
        Err(absent) => panic!("{:?}", absent.error),
    }
    assert_eq!(plugin.volumes().len(), 1);
}

#[test]
fn a_kept_volume_is_found_as_it_was_left() {
    let plugin = plugin(vec![("a", mounted(b"/d", 1)), ("b", provisioned("/lv/2"))]);
    for count in 2..5 {
        let entry = plugin.volumes().entry_sync("a".to_string());
        let mut held = match DockerLvmTmpFs::find(entry) {
            Ok(held) => held,
            Err(absent) => panic!("{:?}", absent.error),
        };
        assert_eq!(
            DockerLvmTmpFs::mount(&mut held, MountPhase::Begin, Reply::Begin),
            Some(Step::Done("/d/mount".to_string()))
        );
        assert_eq!(DockerLvmTmpFs::keep(held), "a");
        assert!(is(&plugin, "a", &mounted(b"/d", count)));
    }
    assert_eq!(plugin.volumes().len(), 2);
    assert!(is(&plugin, "b", &provisioned("/lv/2")));
}

#[test]
fn a_name_that_is_left_stays_free() {
    let plugin = plugin(vec![("a", provisioned("/lv/1"))]);
    let entry = plugin.volumes().entry_sync("b".to_string());
    match DockerLvmTmpFs::find(entry) {
        Ok(_) => panic!("found"),
        Err(absent) => assert_eq!(DockerLvmTmpFs::leave(absent.entry), "b"),
    }
    match DockerLvmTmpFs::start_remove(plugin.volumes().entry_sync("b".to_string())) {
        Removal::Absent { vacant } => assert_eq!(DockerLvmTmpFs::leave(vacant), "b"),
        _ => panic!("not absent"),
    }
    assert_eq!(plugin.volumes().len(), 1);
    assert!(is(&plugin, "a", &provisioned("/lv/1")));
}

#[test]
fn a_mount_request_answers_with_text() {
    let plugin = plugin(vec![("a", mounted(b"/d", 1)), ("b", mounted(&[0x2f, 0xff], 1))]);
    let mut a = plugin.volumes().get_sync("a").unwrap();
    assert_eq!(
        DockerLvmTmpFs::mount(&mut a, MountPhase::Begin, Reply::Begin),
        Some(Step::Done("/d/mount".to_string()))
    );
    assert_eq!(a.get(), &mounted(b"/d", 2));
    drop(a);
    let mut b = plugin.volumes().get_sync("b").unwrap();
    assert_eq!(
        DockerLvmTmpFs::mount(&mut b, MountPhase::Begin, Reply::Begin),
        Some(Step::Failed(VolumeError::MountpointNotText))
    );
    assert_eq!(b.get(), &mounted(&[0x2f, 0xff], 2));
}

#[test]
fn the_path_is_where_the_volume_was_mounted() {
    let plugin = plugin(vec![("a", provisioned("/lv/1"))]);
    let mut a = plugin.volumes().get_sync("a").unwrap();
    let mounting = MountPhase::Mounting { dir: b"/d".to_vec() };
    assert_eq!(
        DockerLvmTmpFs::mount(&mut a, mounting, Reply::Completed),
        Some(Step::Done("/d/mount".to_string()))
    );
    let mountpoint = a.get().as_docker_volume::<()>("a").mountpoint;
    assert_eq!(DockerLvmTmpFs::path(Some(mountpoint)), Ok("/d/mount".to_string()));
}

#[test]
fn a_mount_request_passes_effects_on() {
    let plugin = plugin(vec![("a", provisioned("/lv/1"))]);
    let mut a = plugin.volumes().get_sync("a").unwrap();
    assert_eq!(
        DockerLvmTmpFs::mount(&mut a, MountPhase::Begin, Reply::Begin),
        Some(Step::Perform {
            effect: Effect::FindDevice { lv: "/lv/1".to_string() },
            next: MountPhase::FindingDevice,
        })
    );
    assert_eq!(
        DockerLvmTmpFs::mount(&mut a, MountPhase::FindingDevice, Reply::Failed),
        Some(Step::Failed(VolumeError::FindDeviceFailed))
    );
    assert_eq!(a.get(), &provisioned("/lv/1"));
}

#[test]
fn a_count_that_is_full_or_empty_is_left_alone() {
    let plugin = plugin(vec![("a", mounted(b"/d", usize::MAX)), ("b", mounted(b"/d", 0))]);
    let mut a = plugin.volumes().get_sync("a").unwrap();
    assert_eq!(DockerLvmTmpFs::mount(&mut a, MountPhase::Begin, Reply::Begin), None);
    assert_eq!(a.get(), &mounted(b"/d", usize::MAX));
    drop(a);
    let mut b = plugin.volumes().get_sync("b").unwrap();
    assert_eq!(DockerLvmTmpFs::unmount(&mut b, UnmountPhase::Begin, Reply::Begin), None);
    assert_eq!(b.get(), &mounted(b"/d", 0));
}

#[test]
fn an_unmount_request_takes_one_mount_back() {
    let plugin = plugin(vec![("a", mounted(b"/d", 2))]);
    let mut a = plugin.volumes().get_sync("a").unwrap();
    assert_eq!(
        DockerLvmTmpFs::unmount(&mut a, UnmountPhase::Begin, Reply::Begin),
        Some(Step::Done(()))
    );
    assert_eq!(a.get(), &mounted(b"/d", 1));
    assert_eq!(
        DockerLvmTmpFs::unmount(&mut a, UnmountPhase::Begin, Reply::Begin),
        Some(Step::Perform {
            effect: Effect::Unmount { target: b"/d/mount".to_vec() },
            next: UnmountPhase::Unmounting,
        })
    );
}

fn remove(
    plugin: &DockerLvmTmpFs,
    name: &str,
    replies: Vec<Reply>,
) -> (Vec<Effect>, Option<Result<bool, VolumeError>>) {
    let mut effects = Vec::new();
    let mut removal =
        DockerLvmTmpFs::start_remove(plugin.volumes().entry_sync(name.to_string()));
    for reply in replies {
        removal = match removal {
            Removal::Perform { entry, effect, next } => {
                effects.push(effect);
                DockerLvmTmpFs::remove(entry, next, reply)
            }
            other => other,
        };
    }
    let outcome = match removal {
        Removal::Perform { effect, .. } => {
            effects.push(effect);
            None
        }
        Removal::Done { taken } => {
            assert_eq!(taken.0, name);
            Some(Ok(true))
        }
        Removal::Absent { vacant } => {
            assert_eq!(DockerLvmTmpFs::leave(vacant), name);
            Some(Ok(false))
        }
        Removal::Failed { entry, error } => {
            assert_eq!(DockerLvmTmpFs::keep(entry), name);
            Some(Err(error))
        }
    };
    (effects, outcome)
}

fn lv_removed() -> Reply {
    Reply::LvRemoved { job: "/".to_string() }
}

#[test]
fn removing_an_unknown_volume_is_done_already() {
    let plugin = plugin(vec![("a", provisioned("/lv/1"))]);
    assert_eq!(remove(&plugin, "b", vec![]), (vec![], Some(Ok(false))));
    assert_eq!(plugin.volumes().len(), 1);
}

#[test]
fn removing_a_volume_removes_its_lv() {
    let plugin = plugin(vec![("a", provisioned("/lv/1"))]);
    let (effects, outcome) = remove(&plugin, "a", vec![lv_removed()]);
    assert_eq!(effects, vec![Effect::RemoveLv { lv: "/lv/1".to_string(), timeout: -1 }]);
    assert_eq!(outcome, Some(Ok(true)));
    assert!(plugin.volumes().is_empty());
}

#[test]
fn removing_a_recorded_volume_needs_no_lv() {
    let plugin = plugin(vec![("a", VolumeState::UnProvisioned { creation_opts: opts(1) })]);
    assert_eq!(remove(&plugin, "a", vec![]), (vec![], Some(Ok(true))));
    assert!(plugin.volumes().is_empty());
}

#[test]
fn a_second_removal_is_done_at_once() {
    let plugin = plugin(vec![("a", provisioned("/lv/1")), ("b", provisioned("/lv/2"))]);
    assert_eq!(remove(&plugin, "a", vec![lv_removed()]).1, Some(Ok(true)));
    assert_eq!(remove(&plugin, "a", vec![]), (vec![], Some(Ok(false))));
    assert_eq!(plugin.volumes().len(), 1);
    assert!(is(&plugin, "b", &provisioned("/lv/2")));
}

#[test]
fn a_removed_name_can_be_created_again() {
    let plugin = plugin(vec![("a", mounted(b"/d", 3))]);
    let replies = vec![Reply::Completed, Reply::Completed, lv_removed()];
    assert_eq!(remove(&plugin, "a", replies).1, Some(Ok(true)));
    let entry = plugin.volumes().entry_sync("a".to_string());
    match DockerLvmTmpFs::create(entry, opts(5).validate().unwrap()) {
        Creation::Recorded(held) => {
            assert_eq!(held.get(), &VolumeState::UnProvisioned { creation_opts: opts(5) });
        }
        Creation::Refused { error, .. } => panic!("{:?}", error),
    }
}

#[test]
fn a_stale_mount_does_not_wedge_a_removal() {
    let gone = vec![
        Reply::Completed,
        Reply::Refused { kind: IoErrorKind::InvalidInput },
        Reply::Refused { kind: IoErrorKind::NotFound },
    ];
    for reply in gone {
        let plugin = plugin(vec![("a", mounted(b"/d", 7))]);
        let (effects, outcome) = remove(&plugin, "a", vec![reply, Reply::Failed, lv_removed()]);
        assert_eq!(
            effects,
            vec![
                Effect::Unmount { target: b"/d/mount".to_vec() },
                Effect::DiscardDir { dir: b"/d".to_vec() },
                Effect::RemoveLv { lv: "/lv/1".to_string(), timeout: -1 },
            ]
        );
        assert_eq!(outcome, Some(Ok(true)));
        assert!(plugin.volumes().is_empty());
    }
}

#[test]
fn a_busy_volume_stays() {
    let plugin = plugin(vec![("a", mounted(b"/d", 1))]);
    let busy = Reply::Refused { kind: IoErrorKind::ResourceBusy };
    assert_eq!(remove(&plugin, "a", vec![busy]).1, Some(Err(VolumeError::InUse)));
    assert!(is(&plugin, "a", &mounted(b"/d", 1)));
    let other = Reply::Refused { kind: IoErrorKind::Other };
    assert_eq!(remove(&plugin, "a", vec![other]).1, Some(Err(VolumeError::ForceUnmountFailed)));
    assert!(is(&plugin, "a", &mounted(b"/d", 1)));
}

#[test]
fn an_lv_that_stays_keeps_its_volume() {
    let plugin = plugin(vec![("a", provisioned("/lv/1"))]);
    assert_eq!(
        remove(&plugin, "a", vec![Reply::Failed]).1,
        Some(Err(VolumeError::RemoveLvFailed))
    );
    assert!(is(&plugin, "a", &provisioned("/lv/1")));
    let entry = plugin.volumes().get_sync("a").unwrap();
    match DockerLvmTmpFs::remove(entry, RemovePhase::RemovingLv, lv_removed()) {
        Removal::Done { taken } => {
            assert_eq!(taken, ("a".to_string(), provisioned("/lv/1")))
        }
        _ => panic!("not removed"),
    }
}

#[test]
fn a_path_needs_a_mounted_volume() {
    assert_eq!(DockerLvmTmpFs::path(None), Err(VolumeError::NotFound));
    assert_eq!(DockerLvmTmpFs::path(Some(None)), Err(VolumeError::NotMounted));
    assert_eq!(DockerLvmTmpFs::path(Some(Some(vec![0xff]))), Err(VolumeError::PathNotText));
    assert_eq!(DockerLvmTmpFs::path(Some(Some(b"/d/mount".to_vec()))), Ok("/d/mount".to_string()));
}

#[test]
fn the_plugin_is_local() {
    assert_eq!(DockerLvmTmpFs::capabilities().scope, "local");
}
