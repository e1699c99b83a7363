//! What an operation on a volume asks of the world, and what the world answers.
//!
//! An operation never touches LVM, a filesystem or the kernel itself. It runs
//! as a state machine: each step either ends the operation or names one
//! [`Effect`] to perform, and the [`Reply`] to it is handed to the next step.
use crate::opts::texts;
use vstd::prelude::*;

verus! {

/// The D-Bus object path that stands for "no job": LVM finished the request
/// before it answered.
pub const NO_JOB: &'static str = "/";

/// LVM's timeout for a request whose answer is awaited however long it takes.
pub const WAIT: i32 = -1;

/// LVM's timeout for a request that is left running as a background job.
pub const BACKGROUND: i32 = 0;

/// One piece of outside work.
#[derive(Debug, PartialEq, Eq)]
pub enum Effect {
    /// Create a thin LV of `size` bytes in the thin pool.
    CreateLv { name: String, size: u64, timeout: i32 },
    /// Look up the device node of an LV.
    FindDevice { lv: String },
    /// Run `program` with `args`, without input or output.
    Format { program: String, args: Vec<String> },
    /// Make a fresh private directory that holds an empty mountpoint directory.
    MakeMountDir,
    /// Mount `source` at `target`.
    Mount { source: String, target: Vec<u8>, fs_type: String, flags: u32 },
    /// Set the permissions of `target`.
    SetMode { target: Vec<u8>, mode: u32 },
    /// Unmount what is mounted at `target`.
    Unmount { target: Vec<u8> },
    /// Remove a directory made by `MakeMountDir`; a failure to do so is ignored.
    DiscardDir { dir: Vec<u8> },
    /// Remove an LV.
    RemoveLv { lv: String, timeout: i32 },
    /// List the LVs of the volume group.
    ListLvs,
    /// Read the name of an LV.
    ReadName { lv: String },
    /// Read whether an LV is a thin pool.
    ReadIsThinPool { lv: String },
    /// Read the thin pool that an LV belongs to.
    ReadPool { lv: String },
    /// Read the size of an LV.
    ReadSize { lv: String },
    /// Start to remove an LV, beside other work.
    StartRemoveLv { lv: String, timeout: i32 },
    /// Wait for every removal that was started.
    JoinRemovals,
}

/// The mathematical value of an [`Effect`].
pub enum EffectView {
    CreateLv { name: Seq<char>, size: u64, timeout: i32 },
    FindDevice { lv: Seq<char> },
    Format { program: Seq<char>, args: Seq<Seq<char>> },
    MakeMountDir,
    Mount { source: Seq<char>, target: Seq<u8>, fs_type: Seq<char>, flags: u32 },
    SetMode { target: Seq<u8>, mode: u32 },
    Unmount { target: Seq<u8> },
    DiscardDir { dir: Seq<u8> },
    RemoveLv { lv: Seq<char>, timeout: i32 },
    ListLvs,
    ReadName { lv: Seq<char> },
    ReadIsThinPool { lv: Seq<char> },
    ReadPool { lv: Seq<char> },
    ReadSize { lv: Seq<char> },
    StartRemoveLv { lv: Seq<char>, timeout: i32 },
    JoinRemovals,
}

impl View for Effect {
    type V = EffectView;

    open spec fn view(&self) -> EffectView {
        match *self {
            Effect::CreateLv { name, size, timeout } => EffectView::CreateLv {
                name: name@,
                size,
                timeout,
            },
            Effect::FindDevice { lv } => EffectView::FindDevice { lv: lv@ },
            Effect::Format { program, args } => EffectView::Format {
                program: program@,
                args: texts(args@),
            },
            Effect::MakeMountDir => EffectView::MakeMountDir,
            Effect::Mount { source, target, fs_type, flags } => EffectView::Mount {
                source: source@,
                target: target@,
                fs_type: fs_type@,
                flags,
            },
            Effect::SetMode { target, mode } => EffectView::SetMode { target: target@, mode },
            Effect::Unmount { target } => EffectView::Unmount { target: target@ },
            Effect::DiscardDir { dir } => EffectView::DiscardDir { dir: dir@ },
            Effect::RemoveLv { lv, timeout } => EffectView::RemoveLv { lv: lv@, timeout },
            Effect::ListLvs => EffectView::ListLvs,
            Effect::ReadName { lv } => EffectView::ReadName { lv: lv@ },
            Effect::ReadIsThinPool { lv } => EffectView::ReadIsThinPool { lv: lv@ },
            Effect::ReadPool { lv } => EffectView::ReadPool { lv: lv@ },
            Effect::ReadSize { lv } => EffectView::ReadSize { lv: lv@ },
            Effect::StartRemoveLv { lv, timeout } => EffectView::StartRemoveLv { lv: lv@, timeout },
            Effect::JoinRemovals => EffectView::JoinRemovals,
        }
    }
}

/// The kinds of I/O error that an unmount is told apart by.
#[derive(Debug, Clone, Copy, PartialEq, Eq, Structural)]
pub enum IoErrorKind {
    ResourceBusy,
    InvalidInput,
    NotFound,
    Other,
}

/// What performing an [`Effect`] came to. A reply that the effect does not
/// give counts as its failure.
#[derive(Debug, PartialEq, Eq)]
pub enum Reply {
    /// Nothing was asked for yet: the operation begins.
    Begin,
    /// To `CreateLv`: the new LV, and the job that still works on it.
    LvCreated { lv: String, job: String },
    /// To `FindDevice`.
    Device { path: String },
    /// To `Format`: the program ran, and whether it exited successfully.
    Formatted { success: bool },
    /// To `MakeMountDir`.
    MountDir { dir: Vec<u8> },
    /// To `Mount`, `SetMode`, `Unmount`, `DiscardDir`, `StartRemoveLv` and
    /// `JoinRemovals`.
    Completed,
    /// To `Unmount`: the kernel refused.
    Refused { kind: IoErrorKind },
    /// To `RemoveLv`: the LV goes, and the job that still works on it.
    LvRemoved { job: String },
    /// To `ListLvs`: the object paths of the LVs.
    Lvs { lvs: Vec<String> },
    /// To `ReadName`.
    Name { name: String },
    /// To `ReadIsThinPool`.
    IsThinPool { thin_pool: bool },
    /// To `ReadPool`: the object path of the thin pool.
    Pool { pool: String },
    /// To `ReadSize`, in bytes.
    Size { bytes: u64 },
    /// The effect failed.
    Failed,
}

/// The mathematical value of a [`Reply`].
pub enum ReplyView {
    Begin,
    LvCreated { lv: Seq<char>, job: Seq<char> },
    Device { path: Seq<char> },
    Formatted { success: bool },
    MountDir { dir: Seq<u8> },
    Completed,
    Refused { kind: IoErrorKind },
    LvRemoved { job: Seq<char> },
    Lvs { lvs: Seq<Seq<char>> },
    Name { name: Seq<char> },
    IsThinPool { thin_pool: bool },
    Pool { pool: Seq<char> },
    Size { bytes: u64 },
    Failed,
}

impl View for Reply {
    type V = ReplyView;

    open spec fn view(&self) -> ReplyView {
        match *self {
            Reply::Begin => ReplyView::Begin,
            Reply::LvCreated { lv, job } => ReplyView::LvCreated { lv: lv@, job: job@ },
            Reply::Device { path } => ReplyView::Device { path: path@ },
            Reply::Formatted { success } => ReplyView::Formatted { success },
            Reply::MountDir { dir } => ReplyView::MountDir { dir: dir@ },
            Reply::Completed => ReplyView::Completed,
            Reply::Refused { kind } => ReplyView::Refused { kind },
            Reply::LvRemoved { job } => ReplyView::LvRemoved { job: job@ },
            Reply::Lvs { lvs } => ReplyView::Lvs { lvs: texts(lvs@) },
            Reply::Name { name } => ReplyView::Name { name: name@ },
            Reply::IsThinPool { thin_pool } => ReplyView::IsThinPool { thin_pool },
            Reply::Pool { pool } => ReplyView::Pool { pool: pool@ },
            Reply::Size { bytes } => ReplyView::Size { bytes },
            Reply::Failed => ReplyView::Failed,
        }
    }
}

/// One step of an operation: an effect to perform and the phase in which to
/// take its reply, or the end of the operation.
#[derive(Debug, PartialEq, Eq)]
pub enum Step<P, T, E> {
    Perform { effect: Effect, next: P },
    Done(T),
    Failed(E),
}

/// The mathematical value of a [`Step`].
pub enum StepView<P, T, E> {
    Perform { effect: EffectView, next: P },
    Done(T),
    Failed(E),
}

impl<P: View, T: View, E> View for Step<P, T, E> {
    type V = StepView<P::V, T::V, E>;

    open spec fn view(&self) -> StepView<P::V, T::V, E> {
        match *self {
            Step::Perform { effect, next } => StepView::Perform { effect: effect@, next: next@ },
            Step::Done(value) => StepView::Done(value@),
            Step::Failed(error) => StepView::Failed(error),
        }
    }
}

/// The value of an effect tells everything that the effect asks for.
pub proof fn law_effect_value(effect: Effect)
    ensures
        match effect {
            Effect::CreateLv { name, size, timeout } => effect@ == (EffectView::CreateLv {
                name: name@,
                size,
                timeout,
            }),
            Effect::FindDevice { lv } => effect@ == (EffectView::FindDevice { lv: lv@ }),
            Effect::Format { program, args } => {
                &&& effect@ is Format
                &&& effect@->program == program@
                &&& effect@->args.len() == args@.len()
                &&& forall|i: int| 0 <= i < args@.len() ==> #[trigger] effect@->args[i] == args@[i]@
            },
            Effect::MakeMountDir => effect@ == EffectView::MakeMountDir,
            Effect::Mount { source, target, fs_type, flags } => effect@ == (EffectView::Mount {
                source: source@,
                target: target@,
                fs_type: fs_type@,
                flags,
            }),
            Effect::SetMode { target, mode } => effect@ == (EffectView::SetMode {
                target: target@,
                mode,
            }),
            Effect::Unmount { target } => effect@ == (EffectView::Unmount { target: target@ }),
            Effect::DiscardDir { dir } => effect@ == (EffectView::DiscardDir { dir: dir@ }),
            Effect::RemoveLv { lv, timeout } => effect@ == (EffectView::RemoveLv {
                lv: lv@,
                timeout,
            }),
            Effect::ListLvs => effect@ == EffectView::ListLvs,
            Effect::ReadName { lv } => effect@ == (EffectView::ReadName { lv: lv@ }),
            Effect::ReadIsThinPool { lv } => effect@ == (EffectView::ReadIsThinPool { lv: lv@ }),
            Effect::ReadPool { lv } => effect@ == (EffectView::ReadPool { lv: lv@ }),
            Effect::ReadSize { lv } => effect@ == (EffectView::ReadSize { lv: lv@ }),
            Effect::StartRemoveLv { lv, timeout } => effect@ == (EffectView::StartRemoveLv {
                lv: lv@,
                timeout,
            }),
            Effect::JoinRemovals => effect@ == EffectView::JoinRemovals,
        },
{
}

/// The value of a reply tells everything that the reply says.
pub proof fn law_reply_value(reply: Reply)
    ensures
        match reply {
            Reply::Begin => reply@ == ReplyView::Begin,
            Reply::LvCreated { lv, job } => reply@ == (ReplyView::LvCreated { lv: lv@, job: job@ }),
            Reply::Device { path } => reply@ == (ReplyView::Device { path: path@ }),
            Reply::Formatted { success } => reply@ == (ReplyView::Formatted { success }),
            Reply::MountDir { dir } => reply@ == (ReplyView::MountDir { dir: dir@ }),
            Reply::Completed => reply@ == ReplyView::Completed,
            Reply::Refused { kind } => reply@ == (ReplyView::Refused { kind }),
            Reply::LvRemoved { job } => reply@ == (ReplyView::LvRemoved { job: job@ }),
            Reply::Lvs { lvs } => {
                &&& reply@ is Lvs
                &&& reply@->lvs.len() == lvs@.len()
                &&& forall|i: int| 0 <= i < lvs@.len() ==> #[trigger] reply@->lvs[i] == lvs@[i]@
            },
            Reply::Name { name } => reply@ == (ReplyView::Name { name: name@ }),
            Reply::IsThinPool { thin_pool } => reply@ == (ReplyView::IsThinPool { thin_pool }),
            Reply::Pool { pool } => reply@ == (ReplyView::Pool { pool: pool@ }),
            Reply::Size { bytes } => reply@ == (ReplyView::Size { bytes }),
            Reply::Failed => reply@ == ReplyView::Failed,
        },
{
}

/// The value of a step tells everything that the step says.
pub proof fn law_step_value<P: View, T: View, E>(step: Step<P, T, E>)
    ensures
        match step {
            Step::Perform { effect, next } => step@ == (StepView::<P::V, T::V, E>::Perform {
                effect: effect@,
                next: next@,
            }),
            Step::Done(value) => step@ == StepView::<P::V, T::V, E>::Done(value@),
            Step::Failed(error) => step@ == StepView::<P::V, T::V, E>::Failed(error),
        },
{
}

/// What the words of LVM's interface are: no job is the root object, a request
/// is awaited with a negative timeout, and runs in the background with none.
pub proof fn law_lvm_words()
    ensures
        NO_JOB@ == "/"@,
        WAIT == -1,
        BACKGROUND == 0,
{
}

} // verus!
