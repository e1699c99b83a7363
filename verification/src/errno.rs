//! What the kernel's error numbers mean to an unmount.
use crate::effect::{IoErrorKind, Reply, ReplyView};
use crate::laws::mount_is_gone;
use vstd::prelude::*;

verus! {

/// The error number of an invalid argument, such as a directory that nothing is
/// mounted at.
pub const EINVAL: i32 = 22;

/// The error number of a path that does not exist.
pub const ENOENT: i32 = 2;

/// The kind of error that a Linux error number stands for.
pub uninterp spec fn errno_kind(errno: i32) -> IoErrorKind;

/// The kind of error that a Linux error number stands for.
///
/// Calls `rustix::io::Errno::kind`, which hands the number to the standard
/// library's table of error kinds. The kind is a function of the number, and
/// `EINVAL` stands for `InvalidInput`; what the other numbers stand for is not
/// stated here. `Errno` holds the numbers from 1 to 4095.
#[verifier::external_body]
fn io_error_kind(errno: i32) -> (kind: IoErrorKind)
    requires
        1 <= errno <= 4095,
    ensures
        kind == errno_kind(errno),
        errno == EINVAL ==> kind == IoErrorKind::InvalidInput,
{
    match rustix::io::Errno::from_raw_os_error(errno).kind() {
        std::io::ErrorKind::ResourceBusy => IoErrorKind::ResourceBusy,
        std::io::ErrorKind::InvalidInput => IoErrorKind::InvalidInput,
        std::io::ErrorKind::NotFound => IoErrorKind::NotFound,
        _ => IoErrorKind::Other,
    }
}

/// The reply to an unmount that the kernel refused with `errno`.
///
/// `EINVAL` and `ENOENT` say that nothing is mounted there. The latter is told
/// by its number, any other refusal by its kind.
pub fn unmount_refused(errno: i32) -> (reply: Reply)
    requires
        1 <= errno <= 4095,
    ensures
        errno != ENOENT ==> reply@ == (ReplyView::Refused { kind: errno_kind(errno) }),
        errno == ENOENT ==> reply@ == (ReplyView::Refused { kind: IoErrorKind::NotFound }),
        errno == EINVAL ==> reply@ == (ReplyView::Refused { kind: IoErrorKind::InvalidInput }),
        errno == EINVAL || errno == ENOENT ==> mount_is_gone(reply@),
{
    if errno == ENOENT {
        return Reply::Refused { kind: IoErrorKind::NotFound };
    }
    Reply::Refused { kind: io_error_kind(errno) }
}

/// A call of `unmount_refused` says that the kernel does not know the mount on
/// `EINVAL` and `ENOENT`, and always answers with a refusal.
pub proof fn law_unmount_refused(errno: i32, reply: Reply)
    requires
        1 <= errno <= 4095,
        call_ensures(unmount_refused, (errno,), reply),
    ensures
        reply@ is Refused,
        errno == 22 ==> reply@ == (ReplyView::Refused { kind: IoErrorKind::InvalidInput }),
        errno == 2 ==> reply@ == (ReplyView::Refused { kind: IoErrorKind::NotFound }),
        errno != 2 ==> reply@ == (ReplyView::Refused { kind: errno_kind(errno) }),
{
}

} // verus!
