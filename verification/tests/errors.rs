use thin_pool_docker_volume::effect::{IoErrorKind, Reply};
use thin_pool_docker_volume::errno::unmount_refused;
use thin_pool_docker_volume::error::VolumeError;
use thin_pool_docker_volume::startup::StartupError;

fn text(error: VolumeError) -> Option<String> {
    error.message("myvol")
}

#[test]
fn volume_errors_have_texts() {
    let texts = [
        (VolumeError::UnrecognizedMountFlags, "Unrecognized mount flags"),
        (
            VolumeError::ReadOnlyRootMode,
            "root_mode cannot be applied to a read-only volume (MS_RDONLY in mount_options)",
        ),
        (VolumeError::CreateMounted, "Can not re-create mounted entry"),
        (VolumeError::CreateExisting, "Cannot create an already created entry"),
        (VolumeError::NotFound, "Volume myvol not found"),
        (VolumeError::NotMounted, "Not mounted"),
        (VolumeError::PathNotText, "Invalid mountpoint"),
        (VolumeError::MountpointNotText, "invalid mountpoint"),
        (VolumeError::Unprovisioned, "Cannot mount unprovisioned volume"),
        (VolumeError::InUse, "Volume still in use, cannot remove"),
        (VolumeError::CreationPending, "thin pool data has no completion object"),
        (VolumeError::FormattingFailed, "Formatting failed"),
        (VolumeError::FormatNotRun, "Formatting lv failed"),
        (VolumeError::MountFailed, "mount failed"),
        (VolumeError::UnmountFailed, "unmount failed"),
        (VolumeError::ForceUnmountFailed, "Failed to force unmount the volume"),
    ];
    for (error, expected) in texts {
        assert_eq!(text(error), Some(expected.to_string()));
    }
    assert_eq!(text(VolumeError::CreateLvFailed), None);
    assert_eq!(text(VolumeError::FindDeviceFailed), None);
    assert_eq!(text(VolumeError::RemoveLvFailed), None);
}

#[test]
fn startup_errors_have_texts() {
    let texts = [
        (StartupError::ListFailed, "Could not get LVs from VG"),
        (StartupError::ReadNameFailed, "could not get lv name"),
        (StartupError::NotThinPool, "LV pool is not a thin pool"),
        (StartupError::NoThinPool, "Could not find thin pool with name pool"),
        (StartupError::CleanFailed, "Could clear thin pool"),
    ];
    for (error, expected) in texts {
        assert_eq!(error.message("pool"), Some(expected.to_string()));
    }
    assert_eq!(StartupError::ReadLvFailed.message("pool"), None);
}

#[test]
fn refusals_are_told_apart() {
    assert_eq!(unmount_refused(22), Reply::Refused { kind: IoErrorKind::InvalidInput });
    assert_eq!(unmount_refused(2), Reply::Refused { kind: IoErrorKind::NotFound });
    assert_eq!(unmount_refused(16), Reply::Refused { kind: IoErrorKind::ResourceBusy });
    assert_eq!(unmount_refused(1), Reply::Refused { kind: IoErrorKind::Other });
    assert_eq!(unmount_refused(4095), Reply::Refused { kind: IoErrorKind::Other });
}
