use zfs_space_visualizer::sorting::{DatasetSortOrder, SnapshotSortOrder, SortManager};
use zfs_space_visualizer::zfs::{Dataset, Snapshot};

fn ds(name: &str, referenced: u64, snapshot_used: u64) -> Dataset {
    Dataset { name: name.to_string(), used: referenced + snapshot_used, available: 0, referenced, snapshot_used }
}

fn snap(name: &str, used: u64, referenced: u64) -> Snapshot {
    Snapshot { name: name.to_string(), used, referenced, creation: String::new() }
}

fn names(v: &[Dataset]) -> Vec<&str> {
    v.iter().map(|d| d.name.as_str()).collect()
}

#[test]
fn default_orders() {
    let m = SortManager::new();
    assert_eq!(m.dataset_sort_order, DatasetSortOrder::TotalSizeDesc);
    assert_eq!(m.snapshot_sort_order, SnapshotSortOrder::UsedDesc);
    assert_eq!(m.get_dataset_sort_indicator(), "Total Size ↓");
    assert_eq!(m.get_snapshot_sort_indicator(), "Used Size ↓");
}

#[test]
fn name_ascending_is_nondecreasing() {
    let mut m = SortManager::new();
    m.dataset_sort_order = DatasetSortOrder::NameAsc;
    let mut v = vec![ds("tank/b", 1, 1), ds("tank/a", 5, 0), ds("tank/ab", 0, 0), ds("tank", 3, 3), ds("tank/a", 1, 0)];
    m.sort_datasets(&mut v);
    assert_eq!(names(&v), vec!["tank", "tank/a", "tank/a", "tank/ab", "tank/b"]);
    for w in v.windows(2) {
        assert!(w[0].name <= w[1].name);
    }
    assert_eq!(v[1].referenced, 5);
    assert_eq!(m.get_dataset_sort_indicator(), "Name ↑");
}

#[test]
fn name_order_is_byte_order() {
    let mut m = SortManager::new();
    m.dataset_sort_order = DatasetSortOrder::NameAsc;
    let mut v = vec![ds("é", 0, 0), ds("z", 0, 0), ds("Z", 0, 0), ds("", 0, 0)];
    m.sort_datasets(&mut v);
    assert_eq!(names(&v), vec!["", "Z", "z", "é"]);
}

#[test]
fn dataset_toggle_cycle_returns_to_start() {
    let mut m = SortManager::new();
    let start = m.dataset_sort_order;
    let mut seen = vec![start];
    for _ in 0..7 {
        m.toggle_dataset_sort();
        assert_ne!(m.dataset_sort_order, start);
        seen.push(m.dataset_sort_order);
    }
    m.toggle_dataset_sort();
    assert_eq!(m.dataset_sort_order, start);
    assert_eq!(seen[7], DatasetSortOrder::NameAsc);
    assert_eq!(m.snapshot_sort_order, SnapshotSortOrder::UsedDesc);
}

#[test]
fn snapshot_toggle_cycle_returns_to_start() {
    let mut m = SortManager::new();
    for _ in 0..6 {
        m.toggle_snapshot_sort();
    }
    assert_eq!(m.snapshot_sort_order, SnapshotSortOrder::UsedDesc);
    assert_eq!(SnapshotSortOrder::NameAsc.next(), SnapshotSortOrder::UsedDesc);
    assert_eq!(DatasetSortOrder::NameAsc.next(), DatasetSortOrder::TotalSizeDesc);
}

#[test]
fn total_sort_orders_by_sum() {
    let home = ds("tank/home", 644245094400, 214748364800);
    assert_eq!(home.referenced + home.snapshot_used, 858993459200);
    let mut v = vec![ds("tank/a", 858993459199, 0), home, ds("tank/b", 0, 858993459201)];
    let m = SortManager::new();
    m.sort_datasets(&mut v);
    assert_eq!(names(&v), vec!["tank/b", "tank/home", "tank/a"]);
    let mut m = SortManager::new();
    m.toggle_dataset_sort();
    m.sort_datasets(&mut v);
    assert_eq!(names(&v), vec!["tank/a", "tank/home", "tank/b"]);
}

#[test]
fn total_sort_does_not_overflow() {
    let mut v = vec![ds("x", u64::MAX, u64::MAX), ds("y", 1, 0)];
    let m = SortManager::new();
    m.sort_datasets(&mut v);
    assert_eq!(names(&v), vec!["x", "y"]);
}

#[test]
fn equal_keys_keep_their_order() {
    let mut m = SortManager::new();
    m.dataset_sort_order = DatasetSortOrder::DatasetSizeDesc;
    let mut v = vec![ds("first", 5, 0), ds("second", 5, 9), ds("big", 7, 0), ds("third", 5, 1)];
    m.sort_datasets(&mut v);
    assert_eq!(names(&v), vec!["big", "first", "second", "third"]);
}

#[test]
fn sorting_empty_and_single() {
    let m = SortManager::new();
    let mut empty: Vec<Dataset> = vec![];
    m.sort_datasets(&mut empty);
    assert!(empty.is_empty());
    let mut one = vec![snap("a@1", 1, 1)];
    m.sort_snapshots(&mut one);
    assert_eq!(one[0].name, "a@1");
}

#[test]
fn snapshot_orders() {
    let mut m = SortManager::new();
    let mut v = vec![snap("d@a", 10, 300), snap("d@c", 30, 100), snap("d@b", 20, 200)];
    m.sort_snapshots(&mut v);
    assert_eq!(v.iter().map(|s| s.used).collect::<Vec<_>>(), vec![30, 20, 10]);
    m.toggle_snapshot_sort();
    m.sort_snapshots(&mut v);
    assert_eq!(v.iter().map(|s| s.used).collect::<Vec<_>>(), vec![10, 20, 30]);
    m.toggle_snapshot_sort();
    m.sort_snapshots(&mut v);
    assert_eq!(v.iter().map(|s| s.referenced).collect::<Vec<_>>(), vec![300, 200, 100]);
    assert_eq!(m.get_snapshot_sort_indicator(), "Referenced Size ↓");
    m.toggle_snapshot_sort();
    m.toggle_snapshot_sort();
    m.sort_snapshots(&mut v);
    assert_eq!(v.iter().map(|s| s.name.as_str()).collect::<Vec<_>>(), vec!["d@c", "d@b", "d@a"]);
    m.toggle_snapshot_sort();
    m.sort_snapshots(&mut v);
    assert_eq!(v.iter().map(|s| s.name.as_str()).collect::<Vec<_>>(), vec!["d@a", "d@b", "d@c"]);
}

#[test]
fn resorting_a_sorted_list_moves_nothing() {
    let mut m = SortManager::new();
    m.dataset_sort_order = DatasetSortOrder::SnapshotSizeAsc;
    let mut v = vec![ds("c", 9, 1), ds("a", 1, 1), ds("b", 5, 2), ds("d", 0, 1)];
    m.sort_datasets(&mut v);
    assert_eq!(names(&v), vec!["c", "a", "d", "b"]);
    m.sort_datasets(&mut v);
    assert_eq!(names(&v), vec!["c", "a", "d", "b"]);
    let mut snaps = vec![snap("x@2", 5, 1), snap("x@1", 5, 2), snap("x@3", 4, 3)];
    m.sort_snapshots(&mut snaps);
    assert_eq!(snaps.iter().map(|s| s.name.as_str()).collect::<Vec<_>>(), vec!["x@2", "x@1", "x@3"]);
}
