//! What holds of the plugin's start on any volume group.
//!
//! A volume group is what LVM answers questions about. The laws say what the
//! steps of the start come to when each effect is answered from it.
use crate::config::Config;
use crate::effect::{EffectView, Reply, ReplyView, Step, StepView, BACKGROUND};
use crate::opts::OptsView;
use crate::startup::{
    adopt_on, adopt_step, adopted_volume, clean_on, clean_step, clean_thin_pool, find_thin_pool,
    get_existing, search_on, search_step, AdoptPhase, AdoptPhaseView, Adopted, CleanPhase,
    CleanPhaseView, SearchPhase, SearchPhaseView, StartupError,
};
use crate::volume_state::VolumeView;
use vstd::prelude::*;

verus! {

/// A volume group: its LVs, and what is known of each.
pub struct VolumeGroup {
    pub lvs: Seq<Seq<char>>,
    pub name: spec_fn(Seq<char>) -> Seq<char>,
    pub is_thin_pool: spec_fn(Seq<char>) -> bool,
    pub pool: spec_fn(Seq<char>) -> Seq<char>,
    pub size: spec_fn(Seq<char>) -> u64,
    /// What the removals that were started come to when they are waited for.
    pub joined: ReplyView,
}

impl VolumeGroup {
    /// What LVM replies, where nothing but a removal fails.
    pub open spec fn reply(self, effect: EffectView) -> ReplyView {
        match effect {
            EffectView::ListLvs => ReplyView::Lvs { lvs: self.lvs },
            EffectView::ReadName { lv } => ReplyView::Name { name: (self.name)(lv) },
            EffectView::ReadIsThinPool { lv } => ReplyView::IsThinPool {
                thin_pool: (self.is_thin_pool)(lv),
            },
            EffectView::ReadPool { lv } => ReplyView::Pool { pool: (self.pool)(lv) },
            EffectView::ReadSize { lv } => ReplyView::Size { bytes: (self.size)(lv) },
            EffectView::StartRemoveLv { .. } => ReplyView::Completed,
            EffectView::JoinRemovals => self.joined,
            _ => ReplyView::Failed,
        }
    }

    /// Which LVs are in the thin pool `thin_pool`.
    pub open spec fn pool_is(self, thin_pool: Seq<char>) -> spec_fn(Seq<char>) -> bool {
        |lv: Seq<char>| (self.pool)(lv) == thin_pool
    }

    /// Those of the given LVs that are in the thin pool `thin_pool`, in order.
    pub open spec fn in_pool(self, lvs: Seq<Seq<char>>, thin_pool: Seq<char>) -> Seq<Seq<char>> {
        lvs.filter(self.pool_is(thin_pool))
    }

    /// The volumes that LVs become when they are adopted, with their names.
    pub open spec fn adopted(self, lvs: Seq<Seq<char>>) -> Seq<(Seq<char>, VolumeView)> {
        lvs.map_values(
            |lv: Seq<char>| ((self.name)(lv), adopted_volume(lv, (self.size)(lv))),
        )
    }
}

/// What the search for the thin pool comes to from a step on, if it ends after
/// at most `effects` more effects.
pub open spec fn search_run(
    group: VolumeGroup,
    pool_name: Seq<char>,
    step: StepView<SearchPhaseView, Seq<char>, StartupError>,
    effects: nat,
) -> Option<Result<Seq<char>, StartupError>>
    decreases effects,
{
    match step {
        StepView::Done(lv) => Some(Ok(lv)),
        StepView::Failed(error) => Some(Err(error)),
        StepView::Perform { effect, next } => if effects == 0 {
            None
        } else {
            search_run(
                group,
                pool_name,
                search_step(pool_name, next, group.reply(effect)),
                (effects - 1) as nat,
            )
        },
    }
}

/// What adoption comes to from a step on, if it ends after at most `effects`
/// more effects.
pub open spec fn adopt_run(
    group: VolumeGroup,
    thin_pool: Seq<char>,
    step: StepView<AdoptPhaseView, Seq<(Seq<char>, VolumeView)>, StartupError>,
    effects: nat,
) -> Option<Result<Seq<(Seq<char>, VolumeView)>, StartupError>>
    decreases effects,
{
    match step {
        StepView::Done(adopted) => Some(Ok(adopted)),
        StepView::Failed(error) => Some(Err(error)),
        StepView::Perform { effect, next } => if effects == 0 {
            None
        } else {
            adopt_run(
                group,
                thin_pool,
                adopt_step(thin_pool, next, group.reply(effect)),
                (effects - 1) as nat,
            )
        },
    }
}

/// What cleaning comes to from a step on, if it ends after at most `effects`
/// more effects: the removals that are started, and how it ends.
pub open spec fn clean_run(
    group: VolumeGroup,
    thin_pool: Seq<char>,
    step: StepView<CleanPhaseView, (), StartupError>,
    effects: nat,
) -> (Seq<EffectView>, Option<Result<(), StartupError>>)
    decreases effects,
{
    match step {
        StepView::Done(_) => (Seq::empty(), Some(Ok(()))),
        StepView::Failed(error) => (Seq::empty(), Some(Err(error))),
        StepView::Perform { effect, next } => if effects == 0 {
            (Seq::empty(), None)
        } else {
            let rest = clean_run(
                group,
                thin_pool,
                clean_step(thin_pool, next, group.reply(effect)),
                (effects - 1) as nat,
            );
            match effect {
                EffectView::StartRemoveLv { .. } => (seq![effect] + rest.0, rest.1),
                EffectView::RemoveLv { .. } => (seq![effect] + rest.0, rest.1),
                _ => rest,
            }
        },
    }
}

proof fn lemma_search(
    group: VolumeGroup,
    pool_name: Seq<char>,
    lvs: Seq<Seq<char>>,
    i: int,
    effects: nat,
)
    requires
        0 <= i < lvs.len(),
        (group.name)(lvs[i]) == pool_name,
        forall|j: int| 0 <= j < i ==> (group.name)(#[trigger] lvs[j]) != pool_name,
        effects >= i + 2,
    ensures
        search_run(group, pool_name, search_on(lvs), effects) == Some(
            if (group.is_thin_pool)(lvs[i]) {
                Ok::<Seq<char>, StartupError>(lvs[i])
            } else {
                Err(StartupError::NotThinPool)
            },
        ),
    decreases i,
{
    reveal_with_fuel(search_run, 3);
    if i > 0 {
        let rest = lvs.drop_first();
        assert((group.name)(lvs[0]) != pool_name);
        assert forall|j: int| 0 <= j < i - 1 implies (group.name)(#[trigger] rest[j])
            != pool_name by {
            assert(rest[j] == lvs[j + 1]);
        }
        lemma_search(group, pool_name, rest, i - 1, (effects - 1) as nat);
    }
}

proof fn lemma_search_in_vain(
    group: VolumeGroup,
    pool_name: Seq<char>,
    lvs: Seq<Seq<char>>,
    effects: nat,
)
    requires
        forall|j: int| 0 <= j < lvs.len() ==> (group.name)(#[trigger] lvs[j]) != pool_name,
        effects >= lvs.len(),
    ensures
        search_run(group, pool_name, search_on(lvs), effects) == Some(
            Err::<Seq<char>, StartupError>(StartupError::NoThinPool),
        ),
    decreases lvs.len(),
{
    if lvs.len() > 0 {
        let rest = lvs.drop_first();
        assert((group.name)(lvs[0]) != pool_name);
        assert forall|j: int| 0 <= j < rest.len() implies (group.name)(#[trigger] rest[j])
            != pool_name by {
            assert(rest[j] == lvs[j + 1]);
        }
        lemma_search_in_vain(group, pool_name, rest, (effects - 1) as nat);
    }
}

/// The search for the thin pool finds the first LV with its name, and rejects it
/// where it is no thin pool.
pub proof fn law_search_finds_first(
    group: VolumeGroup,
    pool_name: Seq<char>,
    i: int,
    begin: ReplyView,
    effects: nat,
)
    requires
        0 <= i < group.lvs.len(),
        (group.name)(group.lvs[i]) == pool_name,
        forall|j: int| 0 <= j < i ==> (group.name)(#[trigger] group.lvs[j]) != pool_name,
        effects >= group.lvs.len() + 2,
    ensures
        search_run(
            group,
            pool_name,
            search_step(pool_name, SearchPhaseView::Begin, begin),
            effects,
        ) == Some(
            if (group.is_thin_pool)(group.lvs[i]) {
                Ok::<Seq<char>, StartupError>(group.lvs[i])
            } else {
                Err(StartupError::NotThinPool)
            },
        ),
{
    lemma_search(group, pool_name, group.lvs, i, (effects - 1) as nat);
}

/// Where no LV has the thin pool's name, the search says so.
pub proof fn law_search_reports_absence(
    group: VolumeGroup,
    pool_name: Seq<char>,
    begin: ReplyView,
    effects: nat,
)
    requires
        forall|j: int|
            0 <= j < group.lvs.len() ==> (group.name)(#[trigger] group.lvs[j]) != pool_name,
        effects >= group.lvs.len() + 1,
    ensures
        search_run(
            group,
            pool_name,
            search_step(pool_name, SearchPhaseView::Begin, begin),
            effects,
        ) == Some(Err::<Seq<char>, StartupError>(StartupError::NoThinPool)),
{
    lemma_search_in_vain(group, pool_name, group.lvs, (effects - 1) as nat);
}

/// The LVs in a pool, taken one by one.
proof fn lemma_in_pool_first(group: VolumeGroup, lvs: Seq<Seq<char>>, thin_pool: Seq<char>)
    requires
        lvs.len() > 0,
    ensures
        group.in_pool(lvs, thin_pool) == (if (group.pool)(lvs[0]) == thin_pool {
            seq![lvs[0]] + group.in_pool(lvs.drop_first(), thin_pool)
        } else {
            group.in_pool(lvs.drop_first(), thin_pool)
        }),
{
    let pred = group.pool_is(thin_pool);
    let first = seq![lvs[0]];
    assert(lvs =~= first + lvs.drop_first());
    Seq::filter_distributes_over_add(first, lvs.drop_first(), pred);
    reveal(Seq::filter);
    assert(first.drop_last() =~= Seq::<Seq<char>>::empty());
    assert(first.drop_last().filter(pred) =~= Seq::<Seq<char>>::empty());
    if pred(lvs[0]) {
        assert(first.filter(pred) =~= first);
    } else {
        assert(first.filter(pred) =~= Seq::<Seq<char>>::empty());
        assert(Seq::<Seq<char>>::empty() + lvs.drop_first().filter(pred)
            =~= lvs.drop_first().filter(pred));
    }
}

proof fn lemma_adopt(
    group: VolumeGroup,
    thin_pool: Seq<char>,
    lvs: Seq<Seq<char>>,
    adopted: Seq<(Seq<char>, VolumeView)>,
    effects: nat,
)
    requires
        effects >= 3 * lvs.len(),
    ensures
        adopt_run(group, thin_pool, adopt_on(lvs, adopted), effects) == Some(
            Ok::<Seq<(Seq<char>, VolumeView)>, StartupError>(
                adopted + group.adopted(group.in_pool(lvs, thin_pool)),
            ),
        ),
    decreases lvs.len(),
{
    reveal_with_fuel(adopt_run, 4);
    if lvs.len() > 0 {
        let rest = lvs.drop_first();
        let lv = lvs[0];
        lemma_in_pool_first(group, lvs, thin_pool);
        if (group.pool)(lv) == thin_pool {
            let volume = ((group.name)(lv), adopted_volume(lv, (group.size)(lv)));
            lemma_adopt(group, thin_pool, rest, adopted.push(volume), (effects - 3) as nat);
            assert(adopted.push(volume) + group.adopted(group.in_pool(rest, thin_pool)) =~= adopted
                + group.adopted(group.in_pool(lvs, thin_pool)));
        } else {
            lemma_adopt(group, thin_pool, rest, adopted, (effects - 1) as nat);
        }
    } else {
        reveal(Seq::filter);
        assert(adopted + group.adopted(group.in_pool(lvs, thin_pool)) =~= adopted);
    }
}

/// Adoption turns exactly the LVs of the thin pool into volumes, in order, each
/// under its own name and with nothing but its size recorded.
pub proof fn law_adopts_the_pool(
    group: VolumeGroup,
    thin_pool: Seq<char>,
    begin: ReplyView,
    effects: nat,
)
    requires
        effects >= 3 * group.lvs.len() + 1,
    ensures
        adopt_run(
            group,
            thin_pool,
            adopt_step(thin_pool, AdoptPhaseView::Begin, begin),
            effects,
        ) == Some(
            Ok::<Seq<(Seq<char>, VolumeView)>, StartupError>(
                group.adopted(group.in_pool(group.lvs, thin_pool)),
            ),
        ),
{
    let none = Seq::<(Seq<char>, VolumeView)>::empty();
    lemma_adopt(group, thin_pool, group.lvs, none, (effects - 1) as nat);
    let all = group.adopted(group.in_pool(group.lvs, thin_pool));
    assert(none + all =~= all);
}

/// An adopted volume has its LV, is not mounted, has options that a volume may
/// be created with, and is mounted without any mount flag and without setting
/// any permissions. Nothing is recorded of how it was formatted.
pub proof fn law_adopted_volume(lv: Seq<char>, size: u64)
    ensures
        adopted_volume(lv, size) is Provisioned,
        adopted_volume(lv, size).lv() == Some(lv),
        adopted_volume(lv, size).well_formed(),
        adopted_volume(lv, size).opts().valid(),
        adopted_volume(lv, size).opts().size == size,
        adopted_volume(lv, size).opts().mount_options == 0,
        adopted_volume(lv, size).opts().root_mode is None,
        adopted_volume(lv, size).opts().fs_type.len() == 0,
        adopted_volume(lv, size).opts().format_options.len() == 0,
{
}

/// The removals of LVs.
pub open spec fn removals(lvs: Seq<Seq<char>>) -> Seq<EffectView> {
    lvs.map_values(|lv: Seq<char>| EffectView::StartRemoveLv { lv, timeout: BACKGROUND })
}

proof fn lemma_clean(group: VolumeGroup, thin_pool: Seq<char>, lvs: Seq<Seq<char>>, effects: nat)
    requires
        effects >= 2 * lvs.len() + 1,
    ensures
        clean_run(group, thin_pool, clean_on(lvs), effects) == (
            removals(group.in_pool(lvs, thin_pool)),
            Some(
                if group.joined == ReplyView::Completed {
                    Ok::<(), StartupError>(())
                } else {
                    Err(StartupError::CleanFailed)
                },
            ),
        ),
    decreases lvs.len(),
{
    reveal_with_fuel(clean_run, 3);
    if lvs.len() > 0 {
        let rest = lvs.drop_first();
        let lv = lvs[0];
        lemma_in_pool_first(group, lvs, thin_pool);
        if (group.pool)(lv) == thin_pool {
            lemma_clean(group, thin_pool, rest, (effects - 2) as nat);
            let first = EffectView::StartRemoveLv { lv, timeout: BACKGROUND };
            assert(seq![first] + removals(group.in_pool(rest, thin_pool)) =~= removals(
                group.in_pool(lvs, thin_pool),
            ));
        } else {
            lemma_clean(group, thin_pool, rest, (effects - 1) as nat);
        }
    } else {
        reveal(Seq::filter);
        assert(removals(group.in_pool(lvs, thin_pool)) =~= Seq::<EffectView>::empty());
    }
}

/// Cleaning removes exactly the LVs of the thin pool, each once, and touches no
/// other LV.
pub proof fn law_cleans_the_pool(
    group: VolumeGroup,
    thin_pool: Seq<char>,
    begin: ReplyView,
    effects: nat,
)
    requires
        group.joined == ReplyView::Completed,
        effects >= 2 * group.lvs.len() + 2,
    ensures
        clean_run(
            group,
            thin_pool,
            clean_step(thin_pool, CleanPhaseView::Begin, begin),
            effects,
        ) == (
            removals(group.in_pool(group.lvs, thin_pool)),
            Some(Ok::<(), StartupError>(())),
        ),
{
    lemma_clean(group, thin_pool, group.lvs, (effects - 1) as nat);
}

/// Where some removal fails, cleaning fails, but only once every LV of the thin
/// pool was started to be removed, each once, and no other LV.
pub proof fn law_failed_cleaning_started_all(
    group: VolumeGroup,
    thin_pool: Seq<char>,
    begin: ReplyView,
    effects: nat,
)
    requires
        group.joined != ReplyView::Completed,
        effects >= 2 * group.lvs.len() + 2,
    ensures
        clean_run(
            group,
            thin_pool,
            clean_step(thin_pool, CleanPhaseView::Begin, begin),
            effects,
        ) == (
            removals(group.in_pool(group.lvs, thin_pool)),
            Some(Err::<(), StartupError>(StartupError::CleanFailed)),
        ),
{
    lemma_clean(group, thin_pool, group.lvs, (effects - 1) as nat);
}

/// What the world answers to each effect, a failure among the answers.
pub type World = spec_fn(EffectView) -> ReplyView;

/// The effects that the search for the thin pool asks for from a step on, and
/// how it ends, if it does after at most `effects` more effects.
pub open spec fn search_trace(
    world: World,
    pool_name: Seq<char>,
    step: StepView<SearchPhaseView, Seq<char>, StartupError>,
    effects: nat,
) -> (Seq<EffectView>, Option<Result<Seq<char>, StartupError>>)
    decreases effects,
{
    match step {
        StepView::Done(lv) => (Seq::empty(), Some(Ok(lv))),
        StepView::Failed(error) => (Seq::empty(), Some(Err(error))),
        StepView::Perform { effect, next } => if effects == 0 {
            (Seq::empty(), None)
        } else {
            let rest = search_trace(
                world,
                pool_name,
                search_step(pool_name, next, world(effect)),
                (effects - 1) as nat,
            );
            (seq![effect] + rest.0, rest.1)
        },
    }
}

/// The effects that adoption asks for from a step on, and how it ends, if it does
/// after at most `effects` more effects.
pub open spec fn adopt_trace(
    world: World,
    thin_pool: Seq<char>,
    step: StepView<AdoptPhaseView, Seq<(Seq<char>, VolumeView)>, StartupError>,
    effects: nat,
) -> (Seq<EffectView>, Option<Result<Seq<(Seq<char>, VolumeView)>, StartupError>>)
    decreases effects,
{
    match step {
        StepView::Done(adopted) => (Seq::empty(), Some(Ok(adopted))),
        StepView::Failed(error) => (Seq::empty(), Some(Err(error))),
        StepView::Perform { effect, next } => if effects == 0 {
            (Seq::empty(), None)
        } else {
            let rest = adopt_trace(
                world,
                thin_pool,
                adopt_step(thin_pool, next, world(effect)),
                (effects - 1) as nat,
            );
            (seq![effect] + rest.0, rest.1)
        },
    }
}

/// The effects that cleaning asks for from a step on, and how it ends, if it does
/// after at most `effects` more effects.
pub open spec fn clean_trace(
    world: World,
    thin_pool: Seq<char>,
    step: StepView<CleanPhaseView, (), StartupError>,
    effects: nat,
) -> (Seq<EffectView>, Option<Result<(), StartupError>>)
    decreases effects,
{
    match step {
        StepView::Done(_) => (Seq::empty(), Some(Ok(()))),
        StepView::Failed(error) => (Seq::empty(), Some(Err(error))),
        StepView::Perform { effect, next } => if effects == 0 {
            (Seq::empty(), None)
        } else {
            let rest = clean_trace(
                world,
                thin_pool,
                clean_step(thin_pool, next, world(effect)),
                (effects - 1) as nat,
            );
            (seq![effect] + rest.0, rest.1)
        },
    }
}

/// The questions for the names of the first `n` LVs of a list.
pub open spec fn name_reads(lvs: Seq<Seq<char>>, n: int) -> Seq<EffectView> {
    Seq::new(n as nat, |j: int| EffectView::ReadName { lv: lvs[j] })
}

proof fn lemma_search_trace(
    world: World,
    pool_name: Seq<char>,
    lvs: Seq<Seq<char>>,
    i: int,
    effects: nat,
)
    requires
        0 <= i <= lvs.len(),
        forall|j: int|
            0 <= j < i ==> {
                &&& world(EffectView::ReadName { lv: #[trigger] lvs[j] }) is Name
                &&& world(EffectView::ReadName { lv: lvs[j] })->name != pool_name
            },
        i < lvs.len() ==> (world(EffectView::ReadName { lv: lvs[i] }) matches ReplyView::Name {
            name,
        } ==> name == pool_name),
        effects >= i + 2,
    ensures
        ({
            let trace = search_trace(world, pool_name, search_on(lvs), effects);
            if i == lvs.len() {
                &&& trace.0 == name_reads(lvs, i)
                &&& trace.1 == Some(Err::<Seq<char>, StartupError>(StartupError::NoThinPool))
            } else if !(world(EffectView::ReadName { lv: lvs[i] }) is Name) {
                &&& trace.0 == name_reads(lvs, i + 1)
                &&& trace.1 == Some(Err::<Seq<char>, StartupError>(StartupError::ReadNameFailed))
            } else {
                let check = EffectView::ReadIsThinPool { lv: lvs[i] };
                &&& trace.0 == name_reads(lvs, i + 1).push(check)
                &&& trace.1 == Some(
                    match world(check) {
                        ReplyView::IsThinPool { thin_pool } => if thin_pool {
                            Ok::<Seq<char>, StartupError>(lvs[i])
                        } else {
                            Err(StartupError::NotThinPool)
                        },
                        _ => Err(StartupError::ReadLvFailed),
                    },
                )
            }
        }),
    decreases i,
{
    reveal_with_fuel(search_trace, 3);
    let trace = search_trace(world, pool_name, search_on(lvs), effects);
    if i > 0 {
        let rest = lvs.drop_first();
        assert(world(EffectView::ReadName { lv: lvs[0] }) is Name);
        assert forall|j: int| 0 <= j < i - 1 implies {
            &&& world(EffectView::ReadName { lv: #[trigger] rest[j] }) is Name
            &&& world(EffectView::ReadName { lv: rest[j] })->name != pool_name
        } by {
            assert(rest[j] == lvs[j + 1]);
        }
        lemma_search_trace(world, pool_name, rest, i - 1, (effects - 1) as nat);
        let first = EffectView::ReadName { lv: lvs[0] };
        assert(seq![first] + name_reads(rest, i - 1) =~= name_reads(lvs, i));
        if i < lvs.len() {
            assert(rest[i - 1] == lvs[i]);
            assert(seq![first] + name_reads(rest, i) =~= name_reads(lvs, i + 1));
            let check = EffectView::ReadIsThinPool { lv: lvs[i] };
            assert(seq![first] + name_reads(rest, i).push(check) =~= name_reads(lvs, i + 1).push(
                check,
            ));
        }
    } else if lvs.len() == 0 {
        assert(trace.0 =~= name_reads(lvs, 0));
    } else if !(world(EffectView::ReadName { lv: lvs[0] }) is Name) {
        assert(trace.0 =~= name_reads(lvs, 1));
    } else {
        let check = EffectView::ReadIsThinPool { lv: lvs[0] };
        assert(trace.0 =~= name_reads(lvs, 1).push(check));
    }
}

/// The search for the thin pool, answer by answer: the LVs are listed, their
/// names are read in order up to the first that is the thin pool's or cannot be
/// read, and that LV is asked whether it is a thin pool. Nothing else is asked
/// for. The search ends with that LV, if it is one; with no LV of that name, a
/// name that cannot be read, or an LV that is no thin pool or does not tell, it
/// fails, each with its own error.
pub proof fn law_search(
    world: World,
    pool_name: Seq<char>,
    begin: ReplyView,
    lvs: Seq<Seq<char>>,
    i: int,
    effects: nat,
)
    requires
        world(EffectView::ListLvs) == (ReplyView::Lvs { lvs }),
        0 <= i <= lvs.len(),
        forall|j: int|
            0 <= j < i ==> {
                &&& world(EffectView::ReadName { lv: #[trigger] lvs[j] }) is Name
                &&& world(EffectView::ReadName { lv: lvs[j] })->name != pool_name
            },
        i < lvs.len() ==> (world(EffectView::ReadName { lv: lvs[i] }) matches ReplyView::Name {
            name,
        } ==> name == pool_name),
        effects >= lvs.len() + 3,
    ensures
        ({
            let trace = search_trace(
                world,
                pool_name,
                search_step(pool_name, SearchPhaseView::Begin, begin),
                effects,
            );
            let list = seq![EffectView::ListLvs];
            if i == lvs.len() {
                &&& trace.0 == list + name_reads(lvs, i)
                &&& trace.1 == Some(Err::<Seq<char>, StartupError>(StartupError::NoThinPool))
            } else if !(world(EffectView::ReadName { lv: lvs[i] }) is Name) {
                &&& trace.0 == list + name_reads(lvs, i + 1)
                &&& trace.1 == Some(Err::<Seq<char>, StartupError>(StartupError::ReadNameFailed))
            } else {
                let check = EffectView::ReadIsThinPool { lv: lvs[i] };
                &&& trace.0 == list + name_reads(lvs, i + 1).push(check)
                &&& trace.1 == Some(
                    match world(check) {
                        ReplyView::IsThinPool { thin_pool: true } => Ok::<Seq<char>, StartupError>(
                            lvs[i],
                        ),
                        ReplyView::IsThinPool { thin_pool: false } => Err(StartupError::NotThinPool),
                        _ => Err(StartupError::ReadLvFailed),
                    },
                )
            }
        }),
{
    lemma_search_trace(world, pool_name, lvs, i, (effects - 1) as nat);
}

/// Without a list of LVs there is no start: neither a search, nor adoption, nor
/// cleaning asks for anything further.
pub proof fn law_no_list_no_start(
    world: World,
    pool_name: Seq<char>,
    thin_pool: Seq<char>,
    begin: ReplyView,
    effects: nat,
)
    requires
        !(world(EffectView::ListLvs) is Lvs),
        effects >= 1,
    ensures
        search_trace(
            world,
            pool_name,
            search_step(pool_name, SearchPhaseView::Begin, begin),
            effects,
        ) == (
            seq![EffectView::ListLvs],
            Some(Err::<Seq<char>, StartupError>(StartupError::ListFailed)),
        ),
        adopt_trace(
            world,
            thin_pool,
            adopt_step(thin_pool, AdoptPhaseView::Begin, begin),
            effects,
        ) == (
            seq![EffectView::ListLvs],
            Some(
                Err::<Seq<(Seq<char>, VolumeView)>, StartupError>(StartupError::ListFailed),
            ),
        ),
        clean_trace(
            world,
            thin_pool,
            clean_step(thin_pool, CleanPhaseView::Begin, begin),
            effects,
        ) == (
            seq![EffectView::ListLvs],
            Some(Err::<(), StartupError>(StartupError::ListFailed)),
        ),
{
    reveal_with_fuel(search_trace, 2);
    reveal_with_fuel(adopt_trace, 2);
    reveal_with_fuel(clean_trace, 2);
    let list = seq![EffectView::ListLvs];
    assert(list + Seq::<EffectView>::empty() =~= list);
}

/// Whether LVM tells of an LV what adoption asks: its pool, and of one in the
/// thin pool also its name and size.
pub open spec fn tells(world: World, thin_pool: Seq<char>, lv: Seq<char>) -> bool {
    &&& world(EffectView::ReadPool { lv }) matches ReplyView::Pool { pool }
    &&& pool == thin_pool ==> {
        &&& world(EffectView::ReadName { lv }) is Name
        &&& world(EffectView::ReadSize { lv }) is Size
    }
}

/// What the adoption of the LVs of a list comes to where LVM tells of all: one
/// volume for each LV that is in the thin pool, in order, under the LV's name,
/// with the LV, its size, and no other option.
pub open spec fn adoptions(world: World, thin_pool: Seq<char>, lvs: Seq<Seq<char>>) -> Seq<
    (Seq<char>, VolumeView),
> {
    lvs.filter(
        |lv: Seq<char>|
            world(EffectView::ReadPool { lv }) == (ReplyView::Pool { pool: thin_pool }),
    ).map_values(
        |lv: Seq<char>|
            (
                world(EffectView::ReadName { lv })->name,
                VolumeView::Provisioned {
                    creation_opts: OptsView {
                        size: world(EffectView::ReadSize { lv })->bytes,
                        mount_options: 0,
                        fs_type: Seq::empty(),
                        format_options: Seq::empty(),
                        root_mode: None,
                    },
                    lv,
                },
            ),
    )
}

proof fn lemma_adoptions_first(world: World, thin_pool: Seq<char>, lvs: Seq<Seq<char>>)
    requires
        lvs.len() > 0,
    ensures
        ({
            let lv = lvs[0];
            let rest = adoptions(world, thin_pool, lvs.drop_first());
            let first = (
                world(EffectView::ReadName { lv })->name,
                VolumeView::Provisioned {
                    creation_opts: OptsView {
                        size: world(EffectView::ReadSize { lv })->bytes,
                        mount_options: 0,
                        fs_type: Seq::empty(),
                        format_options: Seq::empty(),
                        root_mode: None,
                    },
                    lv,
                },
            );
            adoptions(world, thin_pool, lvs) == (if world(EffectView::ReadPool { lv })
                == (ReplyView::Pool { pool: thin_pool }) {
                seq![first] + rest
            } else {
                rest
            })
        }),
{
    let pred = |lv: Seq<char>|
        world(EffectView::ReadPool { lv }) == (ReplyView::Pool { pool: thin_pool });
    let head = seq![lvs[0]];
    let tail = lvs.drop_first();
    assert(lvs =~= head + tail);
    Seq::filter_distributes_over_add(head, tail, pred);
    reveal(Seq::filter);
    assert(head.drop_last() =~= Seq::<Seq<char>>::empty());
    assert(head.drop_last().filter(pred) =~= Seq::<Seq<char>>::empty());
    if pred(lvs[0]) {
        assert(head.filter(pred) =~= head);
        assert(lvs.filter(pred) =~= head + tail.filter(pred));
    } else {
        assert(head.filter(pred) =~= Seq::<Seq<char>>::empty());
        assert(lvs.filter(pred) =~= tail.filter(pred));
    }
    let lv = lvs[0];
    let first = (
        world(EffectView::ReadName { lv })->name,
        VolumeView::Provisioned {
            creation_opts: OptsView {
                size: world(EffectView::ReadSize { lv })->bytes,
                mount_options: 0,
                fs_type: Seq::empty(),
                format_options: Seq::empty(),
                root_mode: None,
            },
            lv,
        },
    );
    if pred(lvs[0]) {
        assert(adoptions(world, thin_pool, lvs) =~= seq![first] + adoptions(
            world,
            thin_pool,
            tail,
        ));
    } else {
        assert(adoptions(world, thin_pool, lvs) =~= adoptions(world, thin_pool, tail));
    }
}

proof fn lemma_adopt_trace(
    world: World,
    thin_pool: Seq<char>,
    lvs: Seq<Seq<char>>,
    adopted: Seq<(Seq<char>, VolumeView)>,
    effects: nat,
)
    requires
        effects >= 3 * lvs.len(),
    ensures
        ({
            let trace = adopt_trace(world, thin_pool, adopt_on(lvs, adopted), effects);
            &&& trace.1 == Some(
                if forall|i: int|
                    0 <= i < lvs.len() ==> tells(world, thin_pool, #[trigger] lvs[i]) {
                    Ok::<Seq<(Seq<char>, VolumeView)>, StartupError>(
                        adopted + adoptions(world, thin_pool, lvs),
                    )
                } else {
                    Err(StartupError::ReadLvFailed)
                },
            )
            &&& trace.0.len() <= 3 * lvs.len()
            &&& forall|k: int|
                0 <= k < trace.0.len() ==> match #[trigger] trace.0[k] {
                    EffectView::ReadPool { .. } => true,
                    EffectView::ReadName { .. } => true,
                    EffectView::ReadSize { .. } => true,
                    _ => false,
                }
        }),
    decreases lvs.len(),
{
    reveal_with_fuel(adopt_trace, 4);
    if lvs.len() == 0 {
        reveal(Seq::filter);
        assert(adopted + adoptions(world, thin_pool, lvs) =~= adopted);
    } else {
        let lv = lvs[0];
        let rest = lvs.drop_first();
        lemma_adoptions_first(world, thin_pool, lvs);
        let all = forall|i: int| 0 <= i < lvs.len() ==> tells(world, thin_pool, #[trigger] lvs[i]);
        let others = forall|i: int|
            0 <= i < rest.len() ==> tells(world, thin_pool, #[trigger] rest[i]);
        assert(all <==> tells(world, thin_pool, lv) && others) by {
            if tells(world, thin_pool, lv) && others {
                assert forall|i: int| 0 <= i < lvs.len() implies tells(
                    world,
                    thin_pool,
                    #[trigger] lvs[i],
                ) by {
                    if i > 0 {
                        assert(lvs[i] == rest[i - 1]);
                    }
                }
            }
            if all {
                assert forall|i: int| 0 <= i < rest.len() implies tells(
                    world,
                    thin_pool,
                    #[trigger] rest[i],
                ) by {
                    assert(rest[i] == lvs[i + 1]);
                }
            }
        }
        if world(EffectView::ReadPool { lv }) == (ReplyView::Pool { pool: thin_pool }) {
            let size = world(EffectView::ReadSize { lv })->bytes;
            let volume = (world(EffectView::ReadName { lv })->name, adopted_volume(lv, size));
            lemma_adopt_trace(world, thin_pool, rest, adopted.push(volume), (effects - 3) as nat);
            assert(adopted.push(volume) + adoptions(world, thin_pool, rest) =~= adopted + (
            seq![volume] + adoptions(world, thin_pool, rest)));
        } else {
            lemma_adopt_trace(world, thin_pool, rest, adopted, (effects - 1) as nat);
        }
    }
}

/// Adoption, whatever LVM answers: where it tells of every LV on the list, each
/// LV of the thin pool, and no other, becomes a volume; where it does not,
/// adoption fails. It only reads: no effect changes anything.
pub proof fn law_adoption(
    world: World,
    thin_pool: Seq<char>,
    begin: ReplyView,
    lvs: Seq<Seq<char>>,
    effects: nat,
)
    requires
        world(EffectView::ListLvs) == (ReplyView::Lvs { lvs }),
        effects >= 3 * lvs.len() + 1,
    ensures
        ({
            let trace = adopt_trace(
                world,
                thin_pool,
                adopt_step(thin_pool, AdoptPhaseView::Begin, begin),
                effects,
            );
            &&& trace.1 == Some(
                if forall|i: int|
                    0 <= i < lvs.len() ==> tells(world, thin_pool, #[trigger] lvs[i]) {
                    Ok::<Seq<(Seq<char>, VolumeView)>, StartupError>(
                        adoptions(world, thin_pool, lvs),
                    )
                } else {
                    Err(StartupError::ReadLvFailed)
                },
            )
            &&& trace.0.len() <= 3 * lvs.len() + 1
            &&& trace.0[0] == EffectView::ListLvs
            &&& forall|k: int|
                1 <= k < trace.0.len() ==> match #[trigger] trace.0[k] {
                    EffectView::ReadPool { .. } => true,
                    EffectView::ReadName { .. } => true,
                    EffectView::ReadSize { .. } => true,
                    _ => false,
                }
        }),
{
    let none = Seq::<(Seq<char>, VolumeView)>::empty();
    lemma_adopt_trace(world, thin_pool, lvs, none, (effects - 1) as nat);
    assert(none + adoptions(world, thin_pool, lvs) =~= adoptions(world, thin_pool, lvs));
}

/// Whether cleaning gets past an LV: LVM tells its pool, and where that is the
/// thin pool, its removal can be started.
pub open spec fn cleanable(world: World, thin_pool: Seq<char>, lv: Seq<char>) -> bool {
    &&& world(EffectView::ReadPool { lv }) matches ReplyView::Pool { pool }
    &&& pool == thin_pool ==> world(EffectView::StartRemoveLv { lv, timeout: 0 })
        == ReplyView::Completed
}

proof fn lemma_clean_trace(
    world: World,
    thin_pool: Seq<char>,
    lvs: Seq<Seq<char>>,
    effects: nat,
)
    requires
        effects >= 2 * lvs.len() + 1,
    ensures
        ({
            let trace = clean_trace(world, thin_pool, clean_on(lvs), effects);
            let all = forall|i: int|
                0 <= i < lvs.len() ==> cleanable(world, thin_pool, #[trigger] lvs[i]);
            &&& trace.1 == Some(
                if !all {
                    Err::<(), StartupError>(StartupError::ReadLvFailed)
                } else if world(EffectView::JoinRemovals) == ReplyView::Completed {
                    Ok(())
                } else {
                    Err(StartupError::CleanFailed)
                },
            )
            &&& all ==> trace.0.len() > 0 && trace.0.last() == EffectView::JoinRemovals
            &&& forall|k: int|
                0 <= k < trace.0.len() ==> match #[trigger] trace.0[k] {
                    EffectView::ReadPool { .. } => true,
                    EffectView::StartRemoveLv { lv, timeout } => timeout == 0 && world(
                        EffectView::ReadPool { lv },
                    ) == (ReplyView::Pool { pool: thin_pool }),
                    EffectView::JoinRemovals => all && k == trace.0.len() - 1,
                    _ => false,
                }
            &&& all ==> forall|i: int|
                0 <= i < lvs.len() && world(EffectView::ReadPool { lv: #[trigger] lvs[i] }) == (
                ReplyView::Pool { pool: thin_pool }) ==> trace.0.contains(
                    EffectView::StartRemoveLv { lv: lvs[i], timeout: 0 },
                )
        }),
    decreases lvs.len(),
{
    reveal_with_fuel(clean_trace, 3);
    if lvs.len() > 0 {
        let lv = lvs[0];
        let rest = lvs.drop_first();
        let trace = clean_trace(world, thin_pool, clean_on(lvs), effects);
        let all = forall|i: int|
            0 <= i < lvs.len() ==> cleanable(world, thin_pool, #[trigger] lvs[i]);
        let others = forall|i: int|
            0 <= i < rest.len() ==> cleanable(world, thin_pool, #[trigger] rest[i]);
        assert(all <==> cleanable(world, thin_pool, lv) && others) by {
            if cleanable(world, thin_pool, lv) && others {
                assert forall|i: int| 0 <= i < lvs.len() implies cleanable(
                    world,
                    thin_pool,
                    #[trigger] lvs[i],
                ) by {
                    if i > 0 {
                        assert(lvs[i] == rest[i - 1]);
                    }
                }
            }
            if all {
                assert forall|i: int| 0 <= i < rest.len() implies cleanable(
                    world,
                    thin_pool,
                    #[trigger] rest[i],
                ) by {
                    assert(rest[i] == lvs[i + 1]);
                }
            }
        }
        let read = EffectView::ReadPool { lv };
        let start = EffectView::StartRemoveLv { lv, timeout: 0 };
        let ours = world(read) == (ReplyView::Pool { pool: thin_pool });
        let left = if ours {
            (effects - 2) as nat
        } else {
            (effects - 1) as nat
        };
        lemma_clean_trace(world, thin_pool, rest, left);
        let later = clean_trace(world, thin_pool, clean_on(rest), left);
        if cleanable(world, thin_pool, lv) {
            let before = if ours {
                seq![read, start]
            } else {
                seq![read]
            };
            assert(trace.0 =~= before + later.0);
            assert forall|k: int| 0 <= k < trace.0.len() implies match #[trigger] trace.0[k] {
                EffectView::ReadPool { .. } => true,
                EffectView::StartRemoveLv { lv, timeout } => timeout == 0 && world(
                    EffectView::ReadPool { lv },
                ) == (ReplyView::Pool { pool: thin_pool }),
                EffectView::JoinRemovals => all && k == trace.0.len() - 1,
                _ => false,
            } by {
                if k >= before.len() {
                    assert(trace.0[k] == later.0[k - before.len()]);
                }
            }
            if all {
                assert forall|i: int|
                    0 <= i < lvs.len() && world(EffectView::ReadPool { lv: #[trigger] lvs[i] }) == (
                    ReplyView::Pool { pool: thin_pool }) implies trace.0.contains(
                    EffectView::StartRemoveLv { lv: lvs[i], timeout: 0 },
                ) by {
                    if i == 0 {
                        assert(trace.0[1] == start);
                    } else {
                        assert(lvs[i] == rest[i - 1]);
                        let removal = EffectView::StartRemoveLv { lv: rest[i - 1], timeout: 0 };
                        assert(later.0.contains(removal));
                        let k = choose|k: int| 0 <= k < later.0.len() && later.0[k] == removal;
                        assert(trace.0[before.len() + k] == removal);
                    }
                }
            }
        } else if ours {
            assert(trace.0 =~= seq![read, start]);
        } else {
            assert(trace.0 =~= seq![read]);
        }
    }
}

/// Cleaning, whatever LVM answers. No LV is removed that is not known to be in
/// the thin pool, and removals run in the background. Where every LV of the list
/// can be dealt with, each LV of the thin pool is started to be removed, and the
/// removals are waited for, last; cleaning succeeds where all of them did.
/// Otherwise it fails.
pub proof fn law_cleaning(
    world: World,
    thin_pool: Seq<char>,
    begin: ReplyView,
    lvs: Seq<Seq<char>>,
    effects: nat,
)
    requires
        world(EffectView::ListLvs) == (ReplyView::Lvs { lvs }),
        effects >= 2 * lvs.len() + 2,
    ensures
        ({
            let trace = clean_trace(
                world,
                thin_pool,
                clean_step(thin_pool, CleanPhaseView::Begin, begin),
                effects,
            );
            let all = forall|i: int|
                0 <= i < lvs.len() ==> cleanable(world, thin_pool, #[trigger] lvs[i]);
            &&& trace.1 == Some(
                if !all {
                    Err::<(), StartupError>(StartupError::ReadLvFailed)
                } else if world(EffectView::JoinRemovals) == ReplyView::Completed {
                    Ok(())
                } else {
                    Err(StartupError::CleanFailed)
                },
            )
            &&& trace.0[0] == EffectView::ListLvs
            &&& all ==> trace.0.last() == EffectView::JoinRemovals
            &&& forall|k: int|
                1 <= k < trace.0.len() ==> match #[trigger] trace.0[k] {
                    EffectView::ReadPool { .. } => true,
                    EffectView::StartRemoveLv { lv, timeout } => timeout == 0 && world(
                        EffectView::ReadPool { lv },
                    ) == (ReplyView::Pool { pool: thin_pool }),
                    EffectView::JoinRemovals => all && k == trace.0.len() - 1,
                    _ => false,
                }
            &&& all ==> forall|i: int|
                0 <= i < lvs.len() && world(EffectView::ReadPool { lv: #[trigger] lvs[i] }) == (
                ReplyView::Pool { pool: thin_pool }) ==> trace.0.contains(
                    EffectView::StartRemoveLv { lv: lvs[i], timeout: 0 },
                )
        }),
{
    lemma_clean_trace(world, thin_pool, lvs, (effects - 1) as nat);
    let trace = clean_trace(
        world,
        thin_pool,
        clean_step(thin_pool, CleanPhaseView::Begin, begin),
        effects,
    );
    let later = clean_trace(world, thin_pool, clean_on(lvs), (effects - 1) as nat);
    assert(trace.0 =~= seq![EffectView::ListLvs] + later.0);
    assert forall|e: EffectView| later.0.contains(e) implies #[trigger] trace.0.contains(e) by {
        let k = choose|k: int| 0 <= k < later.0.len() && later.0[k] == e;
        assert(trace.0[k + 1] == e);
    }
    assert forall|k: int| 1 <= k < trace.0.len() implies #[trigger] trace.0[k] == later.0[k - 1] by {}
}

/// A call of `find_thin_pool` is one step of the search for the thin pool that
/// the setup names.
pub proof fn law_find_thin_pool_call(
    config: &Config,
    phase: SearchPhase,
    reply: Reply,
    step: Step<SearchPhase, String, StartupError>,
)
    requires
        call_ensures(find_thin_pool, (config, phase, reply), step),
    ensures
        step@ == search_step(config.thin_pool_name@, phase@, reply@),
{
}

/// A call of `get_existing` is one step of adoption from the thin pool that it is
/// given.
pub proof fn law_get_existing_call(
    thin_pool: &str,
    phase: AdoptPhase,
    reply: Reply,
    step: Step<AdoptPhase, Adopted, StartupError>,
)
    requires
        call_ensures(get_existing, (thin_pool, phase, reply), step),
    ensures
        step@ == adopt_step(thin_pool@, phase@, reply@),
{
}

/// A call of `clean_thin_pool` is one step of cleaning the thin pool that it is
/// given.
pub proof fn law_clean_thin_pool_call(
    thin_pool: &str,
    phase: CleanPhase,
    reply: Reply,
    step: Step<CleanPhase, (), StartupError>,
)
    requires
        call_ensures(clean_thin_pool, (thin_pool, phase, reply), step),
    ensures
        step@ == clean_step(thin_pool@, phase@, reply@),
{
}

/// The value of adopted volumes is that of each, in order, with its name.
pub proof fn law_adopted_value(adopted: Adopted, i: int)
    ensures
        adopted@.len() == adopted.volumes@.len(),
        0 <= i < adopted.volumes@.len() ==> adopted@[i] == (
            adopted.volumes@[i].0@,
            adopted.volumes@[i].1@,
        ),
{
}

} // verus!
