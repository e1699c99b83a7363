use thin_pool_docker_volume::error::VolumeError;
use thin_pool_docker_volume::opts::{check_options, Opts};

fn opts(mount_options: u32, root_mode: Option<u32>) -> Opts {
    Opts {
        size: 1073741824,
        mount_options,
        fs_type: "xfs".to_string(),
        format_options: vec!["-f".to_string()],
        root_mode,
    }
}

#[test]
fn a_root_mode_needs_a_writable_volume() {
    assert_eq!(opts(1, Some(0o1777)).validate(), Err(VolumeError::ReadOnlyRootMode));
    assert_eq!(opts(0x401, Some(0)).validate(), Err(VolumeError::ReadOnlyRootMode));
    assert!(opts(1, None).validate().is_ok());
    assert!(opts(2, Some(0o1777)).validate().is_ok());
    assert!(opts(0, Some(0o1777)).validate().is_ok());
}

#[test]
fn every_bit_is_a_mount_flag() {
    for bit in 0..32 {
        assert!(opts(1 << bit, None).validate().is_ok());
    }
    assert!(opts(u32::MAX, None).validate().is_ok());
}

#[test]
fn unrecognised_flags_are_refused() {
    assert_eq!(check_options(None, None), Err(VolumeError::UnrecognizedMountFlags));
    assert_eq!(check_options(None, Some(7)), Err(VolumeError::UnrecognizedMountFlags));
    assert_eq!(check_options(Some(1), Some(7)), Err(VolumeError::ReadOnlyRootMode));
    assert_eq!(check_options(Some(6), Some(7)), Ok(()));
}

#[test]
fn valid_options_are_kept() {
    let kept = opts(6, Some(0o755)).validate().unwrap().into_opts();
    assert_eq!(kept, opts(6, Some(0o755)));
    assert_eq!(kept.clone(), kept);
}
