use thin_pool_docker_volume::config::Config;
use thin_pool_docker_volume::effect::{Effect, Reply, Step};
use thin_pool_docker_volume::opts::Opts;
use thin_pool_docker_volume::startup::{
    clean_thin_pool, find_thin_pool, get_existing, AdoptPhase, CleanPhase, SearchPhase,
    StartupError,
};
use thin_pool_docker_volume::volume_state::VolumeState;

struct Lv {
    path: &'static str,
    name: &'static str,
    thin_pool: bool,
    pool: &'static str,
    size: u64,
}

fn group() -> Vec<Lv> {
    vec![
        Lv { path: "/lv/0", name: "root", thin_pool: false, pool: "/", size: 1 },
        Lv { path: "/lv/1", name: "pool", thin_pool: true, pool: "/", size: 100 },
        Lv { path: "/lv/2", name: "a", thin_pool: false, pool: "/lv/1", size: 10 },
        Lv { path: "/lv/3", name: "other", thin_pool: true, pool: "/", size: 100 },
        Lv { path: "/lv/4", name: "b", thin_pool: false, pool: "/lv/3", size: 20 },
        Lv { path: "/lv/5", name: "c", thin_pool: false, pool: "/lv/1", size: 30 },
    ]
}

fn lv<'a>(group: &'a [Lv], path: &str) -> &'a Lv {
    group.iter().find(|lv| lv.path == path).unwrap()
}

fn reply(group: &[Lv], effect: &Effect) -> Reply {
    match effect {
        Effect::ListLvs => Reply::Lvs { lvs: group.iter().map(|lv| lv.path.to_string()).collect() },
        Effect::ReadName { lv: path } => Reply::Name { name: lv(group, path).name.to_string() },
        Effect::ReadIsThinPool { lv: path } => {
            Reply::IsThinPool { thin_pool: lv(group, path).thin_pool }
        }
        Effect::ReadPool { lv: path } => Reply::Pool { pool: lv(group, path).pool.to_string() },
        Effect::ReadSize { lv: path } => Reply::Size { bytes: lv(group, path).size },
        Effect::StartRemoveLv { .. } | Effect::JoinRemovals => Reply::Completed,
        _ => Reply::Failed,
    }
}

fn config(thin_pool_name: &str) -> Config {
    Config {
        vg_name: "vg".to_string(),
        thin_pool_name: thin_pool_name.to_string(),
        import_existing: true,
    }
}

fn search(group: &[Lv], name: &str) -> Result<String, StartupError> {
    let config = config(name);
    let mut step = find_thin_pool(&config, SearchPhase::Begin, Reply::Begin);
    loop {
        match step {
            Step::Perform { effect, next } => {
                step = find_thin_pool(&config, next, reply(group, &effect));
            }
            Step::Done(path) => return Ok(path),
            Step::Failed(error) => return Err(error),
        }
    }
}

#[test]
fn the_thin_pool_is_found_by_name() {
    assert_eq!(search(&group(), "pool"), Ok("/lv/1".to_string()));
    assert_eq!(search(&group(), "other"), Ok("/lv/3".to_string()));
    assert_eq!(search(&group(), "root"), Err(StartupError::NotThinPool));
    assert_eq!(search(&group(), "none"), Err(StartupError::NoThinPool));
    assert_eq!(search(&[], "pool"), Err(StartupError::NoThinPool));
}

#[test]
fn the_first_lv_of_a_name_counts() {
    let mut group = group();
    group[0].name = "pool";
    assert_eq!(search(&group, "pool"), Err(StartupError::NotThinPool));
}

#[test]
fn a_search_that_fails_says_where() {
    let config = config("pool");
    assert_eq!(
        find_thin_pool(&config, SearchPhase::Listing, Reply::Failed),
        Step::Failed(StartupError::ListFailed)
    );
    let naming = SearchPhase::Naming { lv: "/lv/0".to_string(), rest: vec![] };
    assert_eq!(
        find_thin_pool(&config, naming, Reply::Failed),
        Step::Failed(StartupError::ReadNameFailed)
    );
    let checking = SearchPhase::Checking { lv: "/lv/0".to_string() };
    assert_eq!(
        find_thin_pool(&config, checking, Reply::Failed),
        Step::Failed(StartupError::ReadLvFailed)
    );
}

fn adopted(name: &str, lv: &str, size: u64) -> (String, VolumeState) {
    (
        name.to_string(),
        VolumeState::Provisioned {
            creation_opts: Opts {
                size,
                mount_options: 0,
                fs_type: String::new(),
                format_options: vec![],
                root_mode: None,
            },
            lv: lv.to_string(),
        },
    )
}

#[test]
fn the_lvs_of_the_pool_are_adopted() {
    let group = group();
    let mut step = get_existing("/lv/1", AdoptPhase::Begin, Reply::Begin);
    loop {
        match step {
            Step::Perform { effect, next } => {
                step = get_existing("/lv/1", next, reply(&group, &effect));
            }
            Step::Done(found) => {
                assert_eq!(found.volumes, vec![adopted("a", "/lv/2", 10), adopted("c", "/lv/5", 30)]);
                break;
            }
            Step::Failed(error) => panic!("{:?}", error),
        }
    }
}

#[test]
fn an_adoption_that_fails_says_where() {
    assert_eq!(
        get_existing("/lv/1", AdoptPhase::Listing, Reply::Failed),
        Step::Failed(StartupError::ListFailed)
    );
    let first = get_existing(
        "/lv/1",
        AdoptPhase::Listing,
        Reply::Lvs { lvs: vec!["/lv/2".to_string()] },
    );
    match first {
        Step::Perform { effect, next } => {
            assert_eq!(effect, Effect::ReadPool { lv: "/lv/2".to_string() });
            assert_eq!(
                get_existing("/lv/1", next, Reply::Failed),
                Step::Failed(StartupError::ReadLvFailed)
            );
        }
        other => panic!("{:?}", other),
    }
}

#[test]
fn the_lvs_of_the_pool_are_cleaned() {
    let group = group();
    let mut removed = Vec::new();
    let mut joined = 0;
    let mut step = clean_thin_pool("/lv/1", CleanPhase::Begin, Reply::Begin);
    loop {
        match step {
            Step::Perform { effect, next } => {
                match &effect {
                    Effect::StartRemoveLv { lv, timeout } => removed.push((lv.clone(), *timeout)),
                    Effect::JoinRemovals => joined += 1,
                    _ => {}
                }
                step = clean_thin_pool("/lv/1", next, reply(&group, &effect));
            }
            Step::Done(()) => break,
            Step::Failed(error) => panic!("{:?}", error),
        }
    }
    assert_eq!(removed, vec![("/lv/2".to_string(), 0), ("/lv/5".to_string(), 0)]);
    assert_eq!(joined, 1);
}

#[test]
fn a_failed_cleaning_started_every_removal() {
    let group = group();
    let mut removed = Vec::new();
    let mut step = clean_thin_pool("/lv/1", CleanPhase::Begin, Reply::Begin);
    loop {
        match step {
            Step::Perform { effect, next } => {
                if let Effect::StartRemoveLv { lv, .. } = &effect {
                    removed.push(lv.clone());
                }
                let answer = match &effect {
                    Effect::JoinRemovals => Reply::Failed,
                    other => reply(&group, other),
                };
                step = clean_thin_pool("/lv/1", next, answer);
            }
            Step::Done(()) => panic!("done"),
            Step::Failed(error) => {
                assert_eq!(error, StartupError::CleanFailed);
                break;
            }
        }
    }
    assert_eq!(removed, vec!["/lv/2".to_string(), "/lv/5".to_string()]);
}

#[test]
fn a_cleaning_that_fails_says_so() {
    assert_eq!(
        clean_thin_pool("/lv/1", CleanPhase::Joining, Reply::Failed),
        Step::Failed(StartupError::CleanFailed)
    );
    assert_eq!(
        clean_thin_pool("/lv/1", CleanPhase::Listing, Reply::Failed),
        Step::Failed(StartupError::ListFailed)
    );
    let reading = CleanPhase::ReadingPool { lv: "/lv/2".to_string(), rest: vec![] };
    assert_eq!(
        clean_thin_pool("/lv/1", reading, Reply::Failed),
        Step::Failed(StartupError::ReadLvFailed)
    );
}
