//! What a volume is created with.
use crate::error::VolumeError;
use vstd::prelude::*;

verus! {

/// The mount flag that makes a volume read-only (`MS_RDONLY`).
pub const READ_ONLY: u32 = 1;

/// What a volume is created with.
#[derive(Debug, PartialEq, Eq)]
pub struct Opts {
    /// Size of the LV in bytes.
    pub size: u64,
    /// The `MS_*` flags to mount with.
    pub mount_options: u32,
    /// The filesystem to format with.
    pub fs_type: String,
    /// Further arguments for the format program.
    pub format_options: Vec<String>,
    /// Permissions to apply to the volume root on mount. Absent leaves whatever
    /// the format program produced.
    pub root_mode: Option<u32>,
}

/// The mathematical value of [`Opts`].
pub struct OptsView {
    pub size: u64,
    pub mount_options: u32,
    pub fs_type: Seq<char>,
    pub format_options: Seq<Seq<char>>,
    pub root_mode: Option<u32>,
}

/// The texts of a list of strings.
pub open spec fn texts(strings: Seq<String>) -> Seq<Seq<char>> {
    strings.map_values(|s: String| s@)
}

impl View for Opts {
    type V = OptsView;

    open spec fn view(&self) -> OptsView {
        OptsView {
            size: self.size,
            mount_options: self.mount_options,
            fs_type: self.fs_type@,
            format_options: texts(self.format_options@),
            root_mode: self.root_mode,
        }
    }
}

impl Clone for Opts {
    fn clone(&self) -> (copy: Self)
        ensures
            copy@ == self@,
    {
        let copy = Opts {
            size: self.size,
            mount_options: self.mount_options,
            fs_type: self.fs_type.clone(),
            format_options: self.format_options.clone(),
            root_mode: self.root_mode,
        };
        assert(texts(copy.format_options@) =~= texts(self.format_options@));
        copy
    }
}

/// Whether a set of mount flags makes a volume read-only.
pub open spec fn is_read_only(flags: u32) -> bool {
    flags & READ_ONLY == READ_ONLY
}

/// The mount flags with exactly the given bits.
///
/// Calls `rustix::mount::MountFlags::from_bits`. That type counts every bit as
/// known, also those it has no name for, so the conversion always succeeds and
/// keeps the bits.
#[verifier::external_body]
pub(crate) fn mount_flags(bits: u32) -> (flags: Option<u32>)
    ensures
        flags == Some(bits),
{
    match rustix::mount::MountFlags::from_bits(bits) {
        Some(flags) => Some(flags.bits()),
        None => None,
    }
}

/// Whether a set of mount flags holds `MS_RDONLY`.
///
/// Calls `rustix::mount::MountFlags::contains` with `MountFlags::RDONLY`, which
/// tells whether all bits of the second set are in the first.
#[verifier::external_body]
fn holds_read_only(flags: u32) -> (held: bool)
    ensures
        held == is_read_only(flags),
{
    rustix::mount::MountFlags::from_bits_retain(flags).contains(rustix::mount::MountFlags::RDONLY)
}

/// What is wrong with mounting under `flags` a volume whose root gets
/// `root_mode`; `flags` is `None` where some flag was not recognised.
pub open spec fn options_fault(flags: Option<u32>, root_mode: Option<u32>) -> Option<VolumeError> {
    match flags {
        None => Some(VolumeError::UnrecognizedMountFlags),
        Some(f) => if root_mode is Some && is_read_only(f) {
            Some(VolumeError::ReadOnlyRootMode)
        } else {
            None
        },
    }
}

/// Checks recognised flags (`None` where some flag was not recognised) against
/// a root mode: permissions cannot be set on a read-only volume.
pub fn check_options(flags: Option<u32>, root_mode: Option<u32>) -> (checked: Result<(), VolumeError>)
    ensures
        checked == (match options_fault(flags, root_mode) {
            None => Ok::<(), VolumeError>(()),
            Some(error) => Err(error),
        }),
{
    match flags {
        None => Err(VolumeError::UnrecognizedMountFlags),
        Some(flags) => {
            if root_mode.is_some() && holds_read_only(flags) {
                Err(VolumeError::ReadOnlyRootMode)
            } else {
                Ok(())
            }
        },
    }
}

impl OptsView {
    /// Whether a volume can be created with these options.
    pub open spec fn valid(self) -> bool {
        options_fault(Some(self.mount_options), self.root_mode) is None
    }
}

/// Options that a volume can be created with.
#[derive(Debug, PartialEq, Eq)]
pub struct ValidOpts {
    opts: Opts,
}

impl View for ValidOpts {
    type V = OptsView;

    closed spec fn view(&self) -> OptsView {
        self.opts@
    }
}

impl ValidOpts {
    #[verifier::type_invariant]
    spec fn checked(self) -> bool {
        self.opts@.valid()
    }

    /// The options themselves.
    pub fn into_opts(self) -> (opts: Opts)
        ensures
            opts@ == self@,
            opts@.valid(),
    {
        proof {
            use_type_invariant(&self);
        }
        self.opts
    }
}

impl Opts {
    /// Checks the options where they are written, so that a bad request to
    /// create a volume fails rather than a later mount.
    pub fn validate(self) -> (checked: Result<ValidOpts, VolumeError>)
        ensures
            match checked {
                Ok(valid) => self@.valid() && valid@ == self@,
                Err(error) => options_fault(Some(self.mount_options), self.root_mode) == Some(
                    error,
                ),
            },
    {
        match check_options(mount_flags(self.mount_options), self.root_mode) {
            Ok(()) => Ok(ValidOpts { opts: self }),
            Err(error) => Err(error),
        }
    }
}

/// Options are refused exactly where the lowest bit of the mount flags, the
/// read-only flag, is set and a root mode is asked for, or where a flag was not
/// recognised; each with its own error. A root mode alone, a read-only mount
/// alone and any other flag are in order.
pub proof fn law_options(flags: Option<u32>, root_mode: Option<u32>)
    ensures
        options_fault(flags, root_mode) is None <==> flags is Some && (root_mode is None || flags->0
            % 2 == 0),
        options_fault(flags, root_mode) == Some(VolumeError::UnrecognizedMountFlags)
            <==> flags is None,
        options_fault(flags, root_mode) == Some(VolumeError::ReadOnlyRootMode) <==> flags is Some
            && root_mode is Some && flags->0 % 2 == 1,
{
    if let Some(f) = flags {
        assert(f & 1 == f % 2) by (bit_vector);
    }
}

/// A call of `check_options` turns down what is wrong, and nothing else.
pub proof fn law_check_options(
    flags: Option<u32>,
    root_mode: Option<u32>,
    checked: Result<(), VolumeError>,
)
    requires
        call_ensures(check_options, (flags, root_mode), checked),
    ensures
        checked is Ok <==> flags is Some && (root_mode is None || flags->0 % 2 == 0),
        checked == Err::<(), VolumeError>(VolumeError::UnrecognizedMountFlags) <==> flags is None,
        checked == Err::<(), VolumeError>(VolumeError::ReadOnlyRootMode) <==> flags is Some
            && root_mode is Some && flags->0 % 2 == 1,
{
    law_options(flags, root_mode);
}

/// A call of `validate` hands back the options that it was given, unchanged, and
/// turns them down only where a root mode is asked for on a read-only volume.
pub proof fn law_validate(opts: Opts, checked: Result<ValidOpts, VolumeError>)
    requires
        call_ensures(Opts::validate, (opts,), checked),
    ensures
        checked is Ok <==> (opts.root_mode is None || opts.mount_options % 2 == 0),
        checked matches Ok(valid) ==> {
            &&& valid@.size == opts.size
            &&& valid@.mount_options == opts.mount_options
            &&& valid@.fs_type == opts.fs_type@
            &&& valid@.format_options == texts(opts.format_options@)
            &&& valid@.root_mode == opts.root_mode
        },
        checked matches Err(error) ==> error == VolumeError::ReadOnlyRootMode,
{
    law_options(Some(opts.mount_options), opts.root_mode);
}

/// A call of `into_opts` hands back the options that were checked.
pub proof fn law_into_opts(valid: ValidOpts, opts: Opts)
    requires
        call_ensures(ValidOpts::into_opts, (valid,), opts),
    ensures
        opts@ == valid@,
        opts.root_mode is None || opts.mount_options % 2 == 0,
{
    law_options(Some(opts.mount_options), opts.root_mode);
}

/// The value of options is what they hold, field by field.
pub proof fn law_opts_value(opts: Opts)
    ensures
        opts@.size == opts.size,
        opts@.mount_options == opts.mount_options,
        opts@.fs_type == opts.fs_type@,
        opts@.format_options == texts(opts.format_options@),
        opts@.root_mode == opts.root_mode,
{
}

/// The texts of a list of strings are as many as the strings, in order, each
/// that of its string.
pub proof fn law_texts(strings: Seq<String>, i: int)
    ensures
        texts(strings).len() == strings.len(),
        0 <= i < strings.len() ==> texts(strings)[i] == strings[i]@,
{
}

/// A copy of options is the same options.
pub proof fn law_opts_copy(opts: &Opts, copy: Opts)
    requires
        call_ensures(Opts::clone, (opts,), copy),
    ensures
        copy@ == opts@,
{
}

} // verus!
