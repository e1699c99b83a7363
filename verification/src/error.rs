//! Why a request on a volume is turned down.
use vstd::prelude::*;

verus! {

/// Why a request on a volume is turned down.
#[derive(Debug, Clone, Copy, PartialEq, Eq, Structural)]
pub enum VolumeError {
    /// The mount options hold a flag that is not a mount flag.
    UnrecognizedMountFlags,
    /// A root mode was asked for on a read-only volume.
    ReadOnlyRootMode,
    /// A mounted volume cannot be created again.
    CreateMounted,
    /// An existing volume cannot be created again.
    CreateExisting,
    /// No volume has this name.
    NotFound,
    /// The volume is not mounted, so it has no path.
    NotMounted,
    /// The path of a mounted volume is not text.
    PathNotText,
    /// The path that a volume was just mounted at is not text.
    MountpointNotText,
    /// The volume has no LV yet.
    Unprovisioned,
    /// The volume is still in use.
    InUse,
    /// LVM left the creation of the LV to a job.
    CreationPending,
    /// The format program reported a failure.
    FormattingFailed,
    /// The LV could not be created.
    CreateLvFailed,
    /// The device node of the LV could not be looked up.
    FindDeviceFailed,
    /// The format program could not be run.
    FormatNotRun,
    /// The volume could not be mounted.
    MountFailed,
    /// The volume could not be unmounted.
    UnmountFailed,
    /// The volume could not be unmounted for removal.
    ForceUnmountFailed,
    /// The LV could not be removed.
    RemoveLvFailed,
}

/// The text of an error about the volume called `name`; `None` where the cause
/// alone is reported.
pub open spec fn error_text(error: VolumeError, name: Seq<char>) -> Option<Seq<char>> {
    match error {
        VolumeError::UnrecognizedMountFlags => Some("Unrecognized mount flags"@),
        VolumeError::ReadOnlyRootMode => Some(
            "root_mode cannot be applied to a read-only volume (MS_RDONLY in mount_options)"@,
        ),
        VolumeError::CreateMounted => Some("Can not re-create mounted entry"@),
        VolumeError::CreateExisting => Some("Cannot create an already created entry"@),
        VolumeError::NotFound => Some("Volume "@ + name + " not found"@),
        VolumeError::NotMounted => Some("Not mounted"@),
        VolumeError::PathNotText => Some("Invalid mountpoint"@),
        VolumeError::MountpointNotText => Some("invalid mountpoint"@),
        VolumeError::Unprovisioned => Some("Cannot mount unprovisioned volume"@),
        VolumeError::InUse => Some("Volume still in use, cannot remove"@),
        VolumeError::CreationPending => Some("thin pool data has no completion object"@),
        VolumeError::FormattingFailed => Some("Formatting failed"@),
        VolumeError::CreateLvFailed => None,
        VolumeError::FindDeviceFailed => None,
        VolumeError::FormatNotRun => Some("Formatting lv failed"@),
        VolumeError::MountFailed => Some("mount failed"@),
        VolumeError::UnmountFailed => Some("unmount failed"@),
        VolumeError::ForceUnmountFailed => Some("Failed to force unmount the volume"@),
        VolumeError::RemoveLvFailed => None,
    }
}

impl VolumeError {
    /// The text of this error about the volume called `name`; `None` where the
    /// cause alone is reported.
    pub fn message(&self, name: &str) -> (text: Option<String>)
        ensures
            text is Some <==> error_text(*self, name@) is Some,
            text matches Some(t) ==> error_text(*self, name@) == Some(t@),
    {
        let text = match *self {
            VolumeError::UnrecognizedMountFlags => "Unrecognized mount flags",
            VolumeError::ReadOnlyRootMode =>
                "root_mode cannot be applied to a read-only volume (MS_RDONLY in mount_options)",
            VolumeError::CreateMounted => "Can not re-create mounted entry",
            VolumeError::CreateExisting => "Cannot create an already created entry",
            VolumeError::NotFound => {
                return Some("Volume ".to_owned().concat(name).concat(" not found"));
            },
            VolumeError::NotMounted => "Not mounted",
            VolumeError::PathNotText => "Invalid mountpoint",
            VolumeError::MountpointNotText => "invalid mountpoint",
            VolumeError::Unprovisioned => "Cannot mount unprovisioned volume",
            VolumeError::InUse => "Volume still in use, cannot remove",
            VolumeError::CreationPending => "thin pool data has no completion object",
            VolumeError::FormattingFailed => "Formatting failed",
            VolumeError::FormatNotRun => "Formatting lv failed",
            VolumeError::MountFailed => "mount failed",
            VolumeError::UnmountFailed => "unmount failed",
            VolumeError::ForceUnmountFailed => "Failed to force unmount the volume",
            VolumeError::CreateLvFailed
            | VolumeError::FindDeviceFailed
            | VolumeError::RemoveLvFailed => {
                return None;
            },
        };
        Some(text.to_owned())
    }
}

/// What a call of `message` says: the name of the volume is in the text of an
/// absent volume, whatever the name, and no other text depends on it.
pub proof fn law_error_message(error: VolumeError, name: &str, text: Option<String>)
    requires
        call_ensures(VolumeError::message, (&error, name), text),
    ensures
        ({
            let said = match text {
                Some(t) => Some(t@),
                None => None,
            };
            match error {
                VolumeError::NotFound => said == Some("Volume "@ + name@ + " not found"@),
                VolumeError::UnrecognizedMountFlags => said == Some("Unrecognized mount flags"@),
                VolumeError::ReadOnlyRootMode => said == Some(
                    "root_mode cannot be applied to a read-only volume (MS_RDONLY in mount_options)"@,
                ),
                VolumeError::CreateMounted => said == Some("Can not re-create mounted entry"@),
                VolumeError::CreateExisting => said == Some(
                    "Cannot create an already created entry"@,
                ),
                VolumeError::NotMounted => said == Some("Not mounted"@),
                VolumeError::PathNotText => said == Some("Invalid mountpoint"@),
                VolumeError::MountpointNotText => said == Some("invalid mountpoint"@),
                VolumeError::Unprovisioned => said == Some("Cannot mount unprovisioned volume"@),
                VolumeError::InUse => said == Some("Volume still in use, cannot remove"@),
                VolumeError::CreationPending => said == Some(
                    "thin pool data has no completion object"@,
                ),
                VolumeError::FormattingFailed => said == Some("Formatting failed"@),
                VolumeError::FormatNotRun => said == Some("Formatting lv failed"@),
                VolumeError::MountFailed => said == Some("mount failed"@),
                VolumeError::UnmountFailed => said == Some("unmount failed"@),
                VolumeError::ForceUnmountFailed => said == Some(
                    "Failed to force unmount the volume"@,
                ),
                _ => said is None,
            }
        }),
{
}

} // verus!
