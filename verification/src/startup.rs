//! What the plugin does before it serves requests: it finds its thin pool, and
//! adopts or removes the LVs that are in it.
use crate::config::Config;
use crate::effect::{Effect, EffectView, Reply, ReplyView, Step, StepView, BACKGROUND};
use crate::opts::{texts, Opts, OptsView};
use crate::volume_state::{VolumeState, VolumeView};
use vstd::prelude::*;

verus! {

/// Why the plugin cannot start.
#[derive(Debug, Clone, Copy, PartialEq, Eq, Structural)]
pub enum StartupError {
    /// The LVs of the volume group could not be listed.
    ListFailed,
    /// The name of an LV could not be read while the thin pool was searched for.
    ReadNameFailed,
    /// What an LV is could not be read.
    ReadLvFailed,
    /// The LV with the thin pool's name is no thin pool.
    NotThinPool,
    /// No LV has the thin pool's name.
    NoThinPool,
    /// Some LV of the thin pool could not be removed.
    CleanFailed,
}

/// The text of an error about the thin pool called `pool_name`; `None` where the
/// cause alone is reported.
pub open spec fn startup_error_text(error: StartupError, pool_name: Seq<char>) -> Option<Seq<char>> {
    match error {
        StartupError::ListFailed => Some("Could not get LVs from VG"@),
        StartupError::ReadNameFailed => Some("could not get lv name"@),
        StartupError::ReadLvFailed => None,
        StartupError::NotThinPool => Some("LV "@ + pool_name + " is not a thin pool"@),
        StartupError::NoThinPool => Some("Could not find thin pool with name "@ + pool_name),
        StartupError::CleanFailed => Some("Could clear thin pool"@),
    }
}

impl StartupError {
    /// The text of this error about the thin pool called `pool_name`; `None`
    /// where the cause alone is reported.
    pub fn message(&self, pool_name: &str) -> (text: Option<String>)
        ensures
            text is Some <==> startup_error_text(*self, pool_name@) is Some,
            text matches Some(t) ==> startup_error_text(*self, pool_name@) == Some(t@),
    {
        match *self {
            StartupError::ListFailed => Some("Could not get LVs from VG".to_owned()),
            StartupError::ReadNameFailed => Some("could not get lv name".to_owned()),
            StartupError::ReadLvFailed => None,
            StartupError::NotThinPool => Some(
                "LV ".to_owned().concat(pool_name).concat(" is not a thin pool"),
            ),
            StartupError::NoThinPool => Some(
                "Could not find thin pool with name ".to_owned().concat(pool_name),
            ),
            StartupError::CleanFailed => Some("Could clear thin pool".to_owned()),
        }
    }
}

/// Takes the first LV off a list.
fn first_lv(lvs: Vec<String>) -> (split: Option<(String, Vec<String>)>)
    ensures
        match split {
            None => texts(lvs@).len() == 0,
            Some((lv, rest)) => {
                &&& texts(lvs@).len() > 0
                &&& lv@ == texts(lvs@)[0]
                &&& texts(rest@) == texts(lvs@).drop_first()
            },
        },
{
    let mut rest = lvs;
    if rest.len() == 0 {
        return None;
    }
    let lv = rest.remove(0);
    assert(texts(rest@) =~= texts(lvs@).drop_first());
    Some((lv, rest))
}

/// How far the search for the thin pool has come.
#[derive(Debug, PartialEq, Eq)]
pub enum SearchPhase {
    Begin,
    Listing,
    Naming { lv: String, rest: Vec<String> },
    Checking { lv: String },
}

/// The mathematical value of a [`SearchPhase`].
pub enum SearchPhaseView {
    Begin,
    Listing,
    Naming { lv: Seq<char>, rest: Seq<Seq<char>> },
    Checking { lv: Seq<char> },
}

impl View for SearchPhase {
    type V = SearchPhaseView;

    open spec fn view(&self) -> SearchPhaseView {
        match *self {
            SearchPhase::Begin => SearchPhaseView::Begin,
            SearchPhase::Listing => SearchPhaseView::Listing,
            SearchPhase::Naming { lv, rest } => SearchPhaseView::Naming {
                lv: lv@,
                rest: texts(rest@),
            },
            SearchPhase::Checking { lv } => SearchPhaseView::Checking { lv: lv@ },
        }
    }
}

/// The step that goes on to search a list of LVs.
pub open spec fn search_on(lvs: Seq<Seq<char>>) -> StepView<
    SearchPhaseView,
    Seq<char>,
    StartupError,
> {
    if lvs.len() == 0 {
        StepView::Failed(StartupError::NoThinPool)
    } else {
        StepView::Perform {
            effect: EffectView::ReadName { lv: lvs[0] },
            next: SearchPhaseView::Naming { lv: lvs[0], rest: lvs.drop_first() },
        }
    }
}

/// One step of the search for the thin pool called `pool_name`: the first LV of
/// that name is it, and has to be a thin pool.
pub open spec fn search_step(pool_name: Seq<char>, phase: SearchPhaseView, reply: ReplyView) -> StepView<
    SearchPhaseView,
    Seq<char>,
    StartupError,
> {
    match (phase, reply) {
        (SearchPhaseView::Begin, _) => StepView::Perform {
            effect: EffectView::ListLvs,
            next: SearchPhaseView::Listing,
        },
        (SearchPhaseView::Listing, ReplyView::Lvs { lvs }) => search_on(lvs),
        (SearchPhaseView::Listing, _) => StepView::Failed(StartupError::ListFailed),
        (SearchPhaseView::Naming { lv, rest }, ReplyView::Name { name }) => if name == pool_name {
            StepView::Perform {
                effect: EffectView::ReadIsThinPool { lv },
                next: SearchPhaseView::Checking { lv },
            }
        } else {
            search_on(rest)
        },
        (SearchPhaseView::Naming { .. }, _) => StepView::Failed(StartupError::ReadNameFailed),
        (SearchPhaseView::Checking { lv }, ReplyView::IsThinPool { thin_pool }) => if thin_pool {
            StepView::Done(lv)
        } else {
            StepView::Failed(StartupError::NotThinPool)
        },
        (SearchPhaseView::Checking { .. }, _) => StepView::Failed(StartupError::ReadLvFailed),
    }
}

/// Goes on to search a list of LVs.
fn search_next(lvs: Vec<String>) -> (step: Step<SearchPhase, String, StartupError>)
    ensures
        step@ == search_on(texts(lvs@)),
{
    match first_lv(lvs) {
        None => Step::Failed(StartupError::NoThinPool),
        Some((lv, rest)) => Step::Perform {
            effect: Effect::ReadName { lv: lv.clone() },
            next: SearchPhase::Naming { lv, rest },
        },
    }
}

/// One step of the search for the configured thin pool, which ends with the
/// object path of the LV.
pub fn find_thin_pool(config: &Config, phase: SearchPhase, reply: Reply) -> (step: Step<
    SearchPhase,
    String,
    StartupError,
>)
    ensures
        step@ == search_step(config.thin_pool_name@, phase@, reply@),
{
    match phase {
        SearchPhase::Begin => Step::Perform { effect: Effect::ListLvs, next: SearchPhase::Listing },
        SearchPhase::Listing => match reply {
            Reply::Lvs { lvs } => search_next(lvs),
            _ => Step::Failed(StartupError::ListFailed),
        },
        SearchPhase::Naming { lv, rest } => match reply {
            Reply::Name { name } => {
                if name == config.thin_pool_name {
                    Step::Perform {
                        effect: Effect::ReadIsThinPool { lv: lv.clone() },
                        next: SearchPhase::Checking { lv },
                    }
                } else {
                    search_next(rest)
                }
            },
            _ => Step::Failed(StartupError::ReadNameFailed),
        },
        SearchPhase::Checking { lv } => match reply {
            Reply::IsThinPool { thin_pool } => {
                if thin_pool {
                    Step::Done(lv)
                } else {
                    Step::Failed(StartupError::NotThinPool)
                }
            },
            _ => Step::Failed(StartupError::ReadLvFailed),
        },
    }
}

/// The volumes that were adopted, with their names.
#[derive(Debug, PartialEq, Eq)]
pub struct Adopted {
    pub volumes: Vec<(String, VolumeState)>,
}

/// The values of named volumes.
pub open spec fn named_volumes(volumes: Seq<(String, VolumeState)>) -> Seq<(Seq<char>, VolumeView)> {
    volumes.map_values(|named: (String, VolumeState)| (named.0@, named.1@))
}

impl View for Adopted {
    type V = Seq<(Seq<char>, VolumeView)>;

    open spec fn view(&self) -> Seq<(Seq<char>, VolumeView)> {
        named_volumes(self.volumes@)
    }
}

/// What an adopted LV counts as created with: its size, and nothing else.
pub open spec fn adopted_opts(size: u64) -> OptsView {
    OptsView {
        size,
        mount_options: 0,
        fs_type: Seq::empty(),
        format_options: Seq::empty(),
        root_mode: None,
    }
}

/// The volume that an adopted LV becomes.
pub open spec fn adopted_volume(lv: Seq<char>, size: u64) -> VolumeView {
    VolumeView::Provisioned { creation_opts: adopted_opts(size), lv }
}

/// How far the adoption of existing LVs has come.
#[derive(Debug, PartialEq, Eq)]
pub enum AdoptPhase {
    Begin,
    Listing,
    ReadingPool { lv: String, rest: Vec<String>, adopted: Adopted },
    ReadingName { lv: String, rest: Vec<String>, adopted: Adopted },
    ReadingSize { lv: String, name: String, rest: Vec<String>, adopted: Adopted },
}

/// The mathematical value of an [`AdoptPhase`].
pub enum AdoptPhaseView {
    Begin,
    Listing,
    ReadingPool { lv: Seq<char>, rest: Seq<Seq<char>>, adopted: Seq<(Seq<char>, VolumeView)> },
    ReadingName { lv: Seq<char>, rest: Seq<Seq<char>>, adopted: Seq<(Seq<char>, VolumeView)> },
    ReadingSize {
        lv: Seq<char>,
        name: Seq<char>,
        rest: Seq<Seq<char>>,
        adopted: Seq<(Seq<char>, VolumeView)>,
    },
}

impl View for AdoptPhase {
    type V = AdoptPhaseView;

    open spec fn view(&self) -> AdoptPhaseView {
        match *self {
            AdoptPhase::Begin => AdoptPhaseView::Begin,
            AdoptPhase::Listing => AdoptPhaseView::Listing,
            AdoptPhase::ReadingPool { lv, rest, adopted } => AdoptPhaseView::ReadingPool {
                lv: lv@,
                rest: texts(rest@),
                adopted: adopted@,
            },
            AdoptPhase::ReadingName { lv, rest, adopted } => AdoptPhaseView::ReadingName {
                lv: lv@,
                rest: texts(rest@),
                adopted: adopted@,
            },
            AdoptPhase::ReadingSize { lv, name, rest, adopted } => AdoptPhaseView::ReadingSize {
                lv: lv@,
                name: name@,
                rest: texts(rest@),
                adopted: adopted@,
            },
        }
    }
}

/// The step that goes on to adopt from a list of LVs.
pub open spec fn adopt_on(lvs: Seq<Seq<char>>, adopted: Seq<(Seq<char>, VolumeView)>) -> StepView<
    AdoptPhaseView,
    Seq<(Seq<char>, VolumeView)>,
    StartupError,
> {
    if lvs.len() == 0 {
        StepView::Done(adopted)
    } else {
        StepView::Perform {
            effect: EffectView::ReadPool { lv: lvs[0] },
            next: AdoptPhaseView::ReadingPool { lv: lvs[0], rest: lvs.drop_first(), adopted },
        }
    }
}

/// One step of adopting the LVs that are in the thin pool with the object path
/// `thin_pool`: each of them becomes a volume under its own name.
pub open spec fn adopt_step(thin_pool: Seq<char>, phase: AdoptPhaseView, reply: ReplyView) -> StepView<
    AdoptPhaseView,
    Seq<(Seq<char>, VolumeView)>,
    StartupError,
> {
    match (phase, reply) {
        (AdoptPhaseView::Begin, _) => StepView::Perform {
            effect: EffectView::ListLvs,
            next: AdoptPhaseView::Listing,
        },
        (AdoptPhaseView::Listing, ReplyView::Lvs { lvs }) => adopt_on(lvs, Seq::empty()),
        (AdoptPhaseView::Listing, _) => StepView::Failed(StartupError::ListFailed),
        (AdoptPhaseView::ReadingPool { lv, rest, adopted }, ReplyView::Pool { pool }) => if pool
            == thin_pool {
            StepView::Perform {
                effect: EffectView::ReadName { lv },
                next: AdoptPhaseView::ReadingName { lv, rest, adopted },
            }
        } else {
            adopt_on(rest, adopted)
        },
        (AdoptPhaseView::ReadingName { lv, rest, adopted }, ReplyView::Name { name }) =>
            StepView::Perform {
                effect: EffectView::ReadSize { lv },
                next: AdoptPhaseView::ReadingSize { lv, name, rest, adopted },
            },
        (AdoptPhaseView::ReadingSize { lv, name, rest, adopted }, ReplyView::Size { bytes }) =>
            adopt_on(rest, adopted.push((name, adopted_volume(lv, bytes)))),
        _ => StepView::Failed(StartupError::ReadLvFailed),
    }
}

/// Goes on to adopt from a list of LVs.
fn adopt_next(lvs: Vec<String>, adopted: Adopted) -> (step: Step<AdoptPhase, Adopted, StartupError>)
    ensures
        step@ == adopt_on(texts(lvs@), adopted@),
{
    match first_lv(lvs) {
        None => Step::Done(adopted),
        Some((lv, rest)) => Step::Perform {
            effect: Effect::ReadPool { lv: lv.clone() },
            next: AdoptPhase::ReadingPool { lv, rest, adopted },
        },
    }
}

/// Adds an LV to those that were adopted.
fn adopt(adopted: Adopted, name: String, lv: String, size: u64) -> (more: Adopted)
    ensures
        more@ == adopted@.push((name@, adopted_volume(lv@, size))),
{
    let creation_opts = Opts {
        size,
        mount_options: 0,
        fs_type: String::new(),
        format_options: Vec::new(),
        root_mode: None,
    };
    assert(texts(creation_opts.format_options@) =~= Seq::<Seq<char>>::empty());
    let mut volumes = adopted.volumes;
    volumes.push((name, VolumeState::Provisioned { creation_opts, lv }));
    assert(named_volumes(volumes@) =~= adopted@.push((name@, adopted_volume(lv@, size))));
    Adopted { volumes }
}

/// One step of adopting the LVs that are in the thin pool with the object path
/// `thin_pool`, which ends with the volumes that they became.
pub fn get_existing(thin_pool: &str, phase: AdoptPhase, reply: Reply) -> (step: Step<
    AdoptPhase,
    Adopted,
    StartupError,
>)
    ensures
        step@ == adopt_step(thin_pool@, phase@, reply@),
{
    match phase {
        AdoptPhase::Begin => Step::Perform { effect: Effect::ListLvs, next: AdoptPhase::Listing },
        AdoptPhase::Listing => match reply {
            Reply::Lvs { lvs } => {
                let none = Adopted { volumes: Vec::new() };
                assert(none@ =~= Seq::<(Seq<char>, VolumeView)>::empty());
                adopt_next(lvs, none)
            },
            _ => Step::Failed(StartupError::ListFailed),
        },
        AdoptPhase::ReadingPool { lv, rest, adopted } => match reply {
            Reply::Pool { pool } => {
                if pool == thin_pool.to_owned() {
                    Step::Perform {
                        effect: Effect::ReadName { lv: lv.clone() },
                        next: AdoptPhase::ReadingName { lv, rest, adopted },
                    }
                } else {
                    adopt_next(rest, adopted)
                }
            },
            _ => Step::Failed(StartupError::ReadLvFailed),
        },
        AdoptPhase::ReadingName { lv, rest, adopted } => match reply {
            Reply::Name { name } => Step::Perform {
                effect: Effect::ReadSize { lv: lv.clone() },
                next: AdoptPhase::ReadingSize { lv, name, rest, adopted },
            },
            _ => Step::Failed(StartupError::ReadLvFailed),
        },
        AdoptPhase::ReadingSize { lv, name, rest, adopted } => match reply {
            Reply::Size { bytes } => adopt_next(rest, adopt(adopted, name, lv, bytes)),
            _ => Step::Failed(StartupError::ReadLvFailed),
        },
    }
}

/// How far the removal of existing LVs has come.
#[derive(Debug, PartialEq, Eq)]
pub enum CleanPhase {
    Begin,
    Listing,
    ReadingPool { lv: String, rest: Vec<String> },
    Starting { rest: Vec<String> },
    Joining,
}

/// The mathematical value of a [`CleanPhase`].
pub enum CleanPhaseView {
    Begin,
    Listing,
    ReadingPool { lv: Seq<char>, rest: Seq<Seq<char>> },
    Starting { rest: Seq<Seq<char>> },
    Joining,
}

impl View for CleanPhase {
    type V = CleanPhaseView;

    open spec fn view(&self) -> CleanPhaseView {
        match *self {
            CleanPhase::Begin => CleanPhaseView::Begin,
            CleanPhase::Listing => CleanPhaseView::Listing,
            CleanPhase::ReadingPool { lv, rest } => CleanPhaseView::ReadingPool {
                lv: lv@,
                rest: texts(rest@),
            },
            CleanPhase::Starting { rest } => CleanPhaseView::Starting { rest: texts(rest@) },
            CleanPhase::Joining => CleanPhaseView::Joining,
        }
    }
}

/// The step that goes on to clean a list of LVs.
pub open spec fn clean_on(lvs: Seq<Seq<char>>) -> StepView<CleanPhaseView, (), StartupError> {
    if lvs.len() == 0 {
        StepView::Perform { effect: EffectView::JoinRemovals, next: CleanPhaseView::Joining }
    } else {
        StepView::Perform {
            effect: EffectView::ReadPool { lv: lvs[0] },
            next: CleanPhaseView::ReadingPool { lv: lvs[0], rest: lvs.drop_first() },
        }
    }
}

/// One step of removing the LVs that are in the thin pool with the object path
/// `thin_pool`: the removals run beside each other, and all have to succeed.
pub open spec fn clean_step(thin_pool: Seq<char>, phase: CleanPhaseView, reply: ReplyView) -> StepView<
    CleanPhaseView,
    (),
    StartupError,
> {
    match (phase, reply) {
        (CleanPhaseView::Begin, _) => StepView::Perform {
            effect: EffectView::ListLvs,
            next: CleanPhaseView::Listing,
        },
        (CleanPhaseView::Listing, ReplyView::Lvs { lvs }) => clean_on(lvs),
        (CleanPhaseView::Listing, _) => StepView::Failed(StartupError::ListFailed),
        (CleanPhaseView::ReadingPool { lv, rest }, ReplyView::Pool { pool }) => if pool
            == thin_pool {
            StepView::Perform {
                effect: EffectView::StartRemoveLv { lv, timeout: BACKGROUND },
                next: CleanPhaseView::Starting { rest },
            }
        } else {
            clean_on(rest)
        },
        (CleanPhaseView::ReadingPool { .. }, _) => StepView::Failed(StartupError::ReadLvFailed),
        (CleanPhaseView::Starting { rest }, ReplyView::Completed) => clean_on(rest),
        (CleanPhaseView::Starting { .. }, _) => StepView::Failed(StartupError::ReadLvFailed),
        (CleanPhaseView::Joining, ReplyView::Completed) => StepView::Done(()),
        (CleanPhaseView::Joining, _) => StepView::Failed(StartupError::CleanFailed),
    }
}

/// Goes on to clean a list of LVs.
fn clean_next(lvs: Vec<String>) -> (step: Step<CleanPhase, (), StartupError>)
    ensures
        step@ == clean_on(texts(lvs@)),
{
    match first_lv(lvs) {
        None => Step::Perform { effect: Effect::JoinRemovals, next: CleanPhase::Joining },
        Some((lv, rest)) => Step::Perform {
            effect: Effect::ReadPool { lv: lv.clone() },
            next: CleanPhase::ReadingPool { lv, rest },
        },
    }
}

/// One step of removing the LVs that are in the thin pool with the object path
/// `thin_pool`.
pub fn clean_thin_pool(thin_pool: &str, phase: CleanPhase, reply: Reply) -> (step: Step<
    CleanPhase,
    (),
    StartupError,
>)
    ensures
        step@ == clean_step(thin_pool@, phase@, reply@),
{
    match phase {
        CleanPhase::Begin => Step::Perform { effect: Effect::ListLvs, next: CleanPhase::Listing },
        CleanPhase::Listing => match reply {
            Reply::Lvs { lvs } => clean_next(lvs),
            _ => Step::Failed(StartupError::ListFailed),
        },
        CleanPhase::ReadingPool { lv, rest } => match reply {
            Reply::Pool { pool } => {
                if pool == thin_pool.to_owned() {
                    Step::Perform {
                        effect: Effect::StartRemoveLv { lv, timeout: BACKGROUND },
                        next: CleanPhase::Starting { rest },
                    }
                } else {
                    clean_next(rest)
                }
            },
            _ => Step::Failed(StartupError::ReadLvFailed),
        },
        CleanPhase::Starting { rest } => match reply {
            Reply::Completed => clean_next(rest),
            _ => Step::Failed(StartupError::ReadLvFailed),
        },
        CleanPhase::Joining => match reply {
            Reply::Completed => Step::Done(()),
            _ => Step::Failed(StartupError::CleanFailed),
        },
    }
}

/// What a call of `message` says: the name of the thin pool is in the texts that
/// are about it, whatever the name, and no other text depends on it.
pub proof fn law_startup_message(error: StartupError, pool_name: &str, text: Option<String>)
    requires
        call_ensures(StartupError::message, (&error, pool_name), text),
    ensures
        ({
            let said = match text {
                Some(t) => Some(t@),
                None => None,
            };
            match error {
                StartupError::ListFailed => said == Some("Could not get LVs from VG"@),
                StartupError::ReadNameFailed => said == Some("could not get lv name"@),
                StartupError::ReadLvFailed => said is None,
                StartupError::NotThinPool => said == Some(
                    "LV "@ + pool_name@ + " is not a thin pool"@,
                ),
                StartupError::NoThinPool => said == Some(
                    "Could not find thin pool with name "@ + pool_name@,
                ),
                StartupError::CleanFailed => said == Some("Could clear thin pool"@),
            }
        }),
{
}

/// The value of a phase tells everything that the phase remembers.
pub proof fn law_startup_phase_values(search: SearchPhase, adopt: AdoptPhase, clean: CleanPhase)
    ensures
        match search {
            SearchPhase::Begin => search@ == SearchPhaseView::Begin,
            SearchPhase::Listing => search@ == SearchPhaseView::Listing,
            SearchPhase::Naming { lv, rest } => search@ == (SearchPhaseView::Naming {
                lv: lv@,
                rest: texts(rest@),
            }),
            SearchPhase::Checking { lv } => search@ == (SearchPhaseView::Checking { lv: lv@ }),
        },
        match adopt {
            AdoptPhase::Begin => adopt@ == AdoptPhaseView::Begin,
            AdoptPhase::Listing => adopt@ == AdoptPhaseView::Listing,
            AdoptPhase::ReadingPool { lv, rest, adopted } => adopt@
                == (AdoptPhaseView::ReadingPool {
                lv: lv@,
                rest: texts(rest@),
                adopted: adopted@,
            }),
            AdoptPhase::ReadingName { lv, rest, adopted } => adopt@
                == (AdoptPhaseView::ReadingName {
                lv: lv@,
                rest: texts(rest@),
                adopted: adopted@,
            }),
            AdoptPhase::ReadingSize { lv, name, rest, adopted } => adopt@
                == (AdoptPhaseView::ReadingSize {
                lv: lv@,
                name: name@,
                rest: texts(rest@),
                adopted: adopted@,
            }),
        },
        match clean {
            CleanPhase::Begin => clean@ == CleanPhaseView::Begin,
            CleanPhase::Listing => clean@ == CleanPhaseView::Listing,
            CleanPhase::ReadingPool { lv, rest } => clean@ == (CleanPhaseView::ReadingPool {
                lv: lv@,
                rest: texts(rest@),
            }),
            CleanPhase::Starting { rest } => clean@ == (CleanPhaseView::Starting {
                rest: texts(rest@),
            }),
            CleanPhase::Joining => clean@ == CleanPhaseView::Joining,
        },
{
}

} // verus!
