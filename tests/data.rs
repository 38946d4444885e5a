use zfs_space_visualizer::data::{DataManager, FetchError, SnapshotLoad};
use zfs_space_visualizer::zfs::{Dataset, Pool, Snapshot};

fn snap(name: &str, used: u64) -> Snapshot {
    Snapshot { name: name.to_string(), used, referenced: used, creation: "now".to_string() }
}

fn ds(name: &str) -> Dataset {
    Dataset { name: name.to_string(), used: 0, available: 0, referenced: 0, snapshot_used: 0 }
}

fn err(msg: &str) -> FetchError {
    FetchError { message: msg.to_string() }
}

#[test]
fn new_manager_is_empty() {
    let m = DataManager::new(8);
    assert!(m.pools.is_empty() && m.datasets.is_empty() && m.snapshots.is_empty());
    assert!(!m.is_prefetch_complete());
    assert_eq!(m.get_prefetch_progress(), (0, 0));
    assert_eq!(m.thread_count, 8);
    assert!(m.get_cached_snapshots("tank").is_none());
}

#[test]
fn uncached_load_needs_one_fetch_then_hits_cache() {
    let mut m = DataManager::new(4);
    assert_eq!(m.load_snapshots("tank/home"), SnapshotLoad::NeedsFetch);
    assert!(m.snapshots.is_empty());
    assert!(m.reload_snapshots("tank/home", Ok(vec![snap("tank/home@a", 1), snap("tank/home@b", 2)])).is_ok());
    assert_eq!(m.get_cached_snapshots("tank/home").unwrap().len(), 2);
    m.snapshots.clear();
    assert_eq!(m.load_snapshots("tank/home"), SnapshotLoad::FromCache);
    assert_eq!(m.snapshots.len(), 2);
    assert_eq!(m.snapshots[1].name, "tank/home@b");
}

#[test]
fn cached_empty_list_is_fetched_again() {
    let mut m = DataManager::new(4);
    assert!(m.reload_snapshots("tank/empty", Ok(vec![])).is_ok());
    assert!(m.get_cached_snapshots("tank/empty").is_some());
    assert_eq!(m.load_snapshots("tank/empty"), SnapshotLoad::NeedsFetch);
}

#[test]
fn reload_overwrites_cache_entry() {
    let mut m = DataManager::new(4);
    assert!(m.reload_snapshots("d", Ok(vec![snap("d@old", 1)])).is_ok());
    assert!(m.reload_snapshots("d", Ok(vec![snap("d@new", 2), snap("d@newer", 3)])).is_ok());
    let cached = m.get_cached_snapshots("d").unwrap();
    assert_eq!(cached.len(), 2);
    assert_eq!(cached[0].name, "d@new");
    assert_eq!(m.snapshots.len(), 2);
}

#[test]
fn failed_reload_keeps_everything() {
    let mut m = DataManager::new(4);
    assert!(m.reload_snapshots("d", Ok(vec![snap("d@1", 1)])).is_ok());
    let r = m.reload_snapshots("d", Err(err("busy")));
    assert_eq!(r.err().unwrap().message, "busy");
    assert_eq!(m.snapshots.len(), 1);
    assert_eq!(m.get_cached_snapshots("d").unwrap()[0].name, "d@1");
}

#[test]
fn cache_snapshots_writes_current_list() {
    let mut m = DataManager::new(1);
    m.snapshots = vec![snap("x@1", 5)];
    m.cache_snapshots("x");
    assert_eq!(m.get_cached_snapshots("x").unwrap()[0].used, 5);
    assert!(m.get_cached_snapshots("y").is_none());
}

#[test]
fn load_datasets_replaces_or_reports() {
    let mut m = DataManager::new(1);
    assert!(m.load_datasets(Ok(vec![ds("a"), ds("b")])).is_ok());
    assert_eq!(m.datasets.len(), 2);
    assert!(m.load_datasets(Err(err("no pool"))).is_err());
    assert_eq!(m.datasets.len(), 2);
}

#[test]
fn load_pools_resets_prefetch() {
    let mut m = DataManager::new(1);
    let pool = Pool { name: "tank".to_string(), size: 1, allocated: 0, free: 1, health: "ONLINE".to_string(), usable_size: 1 };
    assert!(m.load_pools(Ok(vec![pool])).is_ok());
    assert_eq!(m.pools.len(), 1);
    assert!(m.load_pools(Err(err("zpool missing"))).is_err());
    assert_eq!(m.pools.len(), 1);
}

#[test]
fn prefetch_counts_every_task() {
    let mut m = DataManager::new(2);
    let names = m.begin_prefetch(vec![Ok(vec![ds("a"), ds("a/b")]), Err(err("pool down")), Ok(vec![ds("c")])]);
    assert_eq!(names, vec!["a".to_string(), "a/b".to_string(), "c".to_string()]);
    assert_eq!(m.get_prefetch_progress(), (0, 3));
    assert!(!m.is_prefetch_complete());
    m.record_prefetch_result("a", Ok(vec![snap("a@1", 1)]));
    assert_eq!(m.get_prefetch_progress(), (1, 3));
    m.record_prefetch_result("a/b", Err(err("gone")));
    assert_eq!(m.get_prefetch_progress(), (2, 3));
    assert!(!m.is_prefetch_complete());
    m.record_prefetch_result("c", Ok(vec![]));
    assert_eq!(m.get_prefetch_progress(), (3, 3));
    assert!(m.is_prefetch_complete());
    assert!(m.get_cached_snapshots("a").is_some());
    assert!(m.get_cached_snapshots("a/b").is_none());
    m.record_prefetch_result("c", Ok(vec![]));
    assert_eq!(m.get_prefetch_progress(), (3, 3));
}

#[test]
fn prefetch_completes_when_every_fetch_fails() {
    let mut m = DataManager::new(2);
    let names = m.begin_prefetch(vec![Ok(vec![ds("a"), ds("b")])]);
    for n in &names {
        m.record_prefetch_result(n, Err(err("fail")));
    }
    assert_eq!(m.get_prefetch_progress(), (2, 2));
    assert!(m.is_prefetch_complete());
}

#[test]
fn prefetch_with_nothing_to_fetch_is_complete() {
    let mut m = DataManager::new(2);
    let names = m.begin_prefetch(vec![Err(err("x"))]);
    assert!(names.is_empty());
    assert!(m.is_prefetch_complete());
    assert_eq!(m.get_prefetch_progress(), (0, 0));
}
