use zfs_space_visualizer::cache::SnapshotCache;
use zfs_space_visualizer::zfs::Snapshot;

fn snap(name: &str) -> Snapshot {
    Snapshot { name: name.to_string(), used: 1, referenced: 2, creation: "c".to_string() }
}

#[test]
fn cache_put_get_overwrite_invalidate() {
    let mut c = SnapshotCache::new();
    assert!(c.get("a").is_none());
    c.put("a", vec![snap("a@1")]);
    c.put("b", vec![snap("b@1"), snap("b@2")]);
    assert_eq!(c.get("a").unwrap()[0].name, "a@1");
    assert_eq!(c.get("b").unwrap().len(), 2);
    c.put("a", vec![]);
    assert!(c.get("a").unwrap().is_empty());
    c.invalidate("a");
    assert!(c.get("a").is_none());
    assert_eq!(c.get("b").unwrap()[1].name, "b@2");
    c.invalidate("missing");
    assert_eq!(c.get("b").unwrap().len(), 2);
}
