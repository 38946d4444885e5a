use zfs_space_visualizer::app::App;
use zfs_space_visualizer::config::Config;
use zfs_space_visualizer::data::FetchError;
use zfs_space_visualizer::navigation::{delete_error_message, Action, Key, Navigator};
use zfs_space_visualizer::state::{AppState, AppView};
use zfs_space_visualizer::theme::{Color, Theme};
use zfs_space_visualizer::zfs::{Dataset, Pool, Snapshot};

fn pool(name: &str) -> Pool {
    Pool { name: name.to_string(), size: 100, allocated: 30, free: 70, health: "ONLINE".to_string(), usable_size: 100 }
}

fn ds(name: &str, referenced: u64) -> Dataset {
    Dataset { name: name.to_string(), used: referenced, available: 0, referenced, snapshot_used: 0 }
}

fn snap(name: &str, used: u64) -> Snapshot {
    Snapshot { name: name.to_string(), used, referenced: used, creation: String::new() }
}

fn config(readonly: bool) -> Config {
    Config { command: None, readonly, threads: None }
}

/// A state showing the snapshots of `tank/home`, with `n` snapshots.
fn in_snapshot_view(n: u64, readonly: bool) -> AppState {
    let mut s = AppState::new(config(readonly), Some(2));
    assert!(Navigator::pools_loaded(&mut s, Ok(vec![pool("tank")])).is_ok());
    match Navigator::handle_key_event(&mut s, Key::Enter, false, 0) {
        Action::FetchDatasets(p) => assert_eq!(p, "tank"),
        other => panic!("unexpected {:?}", other),
    }
    Navigator::datasets_loaded(&mut s, Ok(vec![ds("tank", 1), ds("tank/home", 5)]));
    assert_eq!(s.data_manager.datasets[0].name, "tank/home");
    match Navigator::handle_key_event(&mut s, Key::Right, false, 0) {
        Action::FetchSnapshots(d) => assert_eq!(d, "tank/home"),
        other => panic!("unexpected {:?}", other),
    }
    let snaps = (0..n).map(|i| snap(&format!("tank/home@s{}", i), 100 - i)).collect();
    Navigator::snapshots_loaded(&mut s, "tank/home", Ok(snaps));
    s
}

#[test]
fn app_starts_on_pool_list() {
    let app = App::new(config(false), Some(4));
    assert!(matches!(app.state.current_view, AppView::PoolList));
    assert_eq!(app.state.data_manager.thread_count, 32);
    assert_eq!(app.state.status_help_color, Color::Reset);
}

#[test]
fn forward_and_back_through_views() {
    let mut s = in_snapshot_view(3, false);
    assert!(matches!(&s.current_view, AppView::SnapshotDetail(p, d) if p == "tank" && d == "tank/home"));
    assert_eq!(s.selected_snapshot_index, 0);
    assert!(matches!(Navigator::handle_key_event(&mut s, Key::Enter, false, 0), Action::Idle));
    Navigator::handle_key_event(&mut s, Key::Esc, false, 0);
    assert!(matches!(&s.current_view, AppView::DatasetView(p) if p == "tank"));
    Navigator::handle_key_event(&mut s, Key::Backspace, false, 0);
    assert!(matches!(s.current_view, AppView::PoolList));
    Navigator::handle_key_event(&mut s, Key::Left, false, 0);
    assert!(matches!(s.current_view, AppView::PoolList));
}

#[test]
fn second_visit_uses_cache() {
    let mut s = in_snapshot_view(2, false);
    Navigator::handle_key_event(&mut s, Key::Left, false, 0);
    let a = Navigator::handle_key_event(&mut s, Key::Right, false, 0);
    assert!(matches!(a, Action::Idle));
    assert_eq!(s.data_manager.snapshots.len(), 2);
}

#[test]
fn help_returns_to_previous_view() {
    let mut s = in_snapshot_view(1, false);
    Navigator::handle_key_event(&mut s, Key::Char('h'), false, 0);
    assert!(matches!(s.current_view, AppView::Help));
    Navigator::handle_key_event(&mut s, Key::Down, false, 0);
    Navigator::handle_key_event(&mut s, Key::Enter, false, 0);
    assert_eq!(s.theme_manager.current_theme, Theme::Light);
    Navigator::handle_key_event(&mut s, Key::Esc, false, 0);
    assert!(matches!(s.current_view, AppView::SnapshotDetail(_, _)));
    assert!(s.previous_view.is_none());
}

#[test]
fn quit_keys() {
    let mut s = AppState::new(config(false), None);
    Navigator::handle_key_event(&mut s, Key::Char('c'), false, 0);
    assert!(!s.should_quit);
    Navigator::handle_key_event(&mut s, Key::Char('c'), true, 0);
    assert!(s.should_quit);
    let mut s = AppState::new(config(false), None);
    Navigator::handle_key_event(&mut s, Key::Char('q'), false, 0);
    assert!(s.should_quit);
}

#[test]
fn selection_stays_in_bounds_for_empty_list() {
    let mut s = in_snapshot_view(0, false);
    for k in [Key::Down, Key::PageDown, Key::Up, Key::PageUp] {
        Navigator::handle_key_event(&mut s, k, false, 0);
        assert_eq!(s.selected_snapshot_index, 0);
    }
    Navigator::handle_key_event(&mut s, Key::Char('s'), false, 0);
    assert_eq!(s.selected_snapshot_index, 0);
}

#[test]
fn selection_stays_in_bounds_for_one_item() {
    let mut s = in_snapshot_view(1, false);
    Navigator::handle_key_event(&mut s, Key::Down, false, 0);
    assert_eq!(s.selected_snapshot_index, 0);
    Navigator::handle_key_event(&mut s, Key::PageDown, false, 0);
    assert_eq!(s.selected_snapshot_index, 0);
}

#[test]
fn selection_stays_in_bounds_for_many_items() {
    let mut s = in_snapshot_view(15, false);
    Navigator::handle_key_event(&mut s, Key::PageDown, false, 0);
    assert_eq!(s.selected_snapshot_index, 10);
    Navigator::handle_key_event(&mut s, Key::PageDown, false, 0);
    assert_eq!(s.selected_snapshot_index, 14);
    Navigator::handle_key_event(&mut s, Key::Down, false, 0);
    assert_eq!(s.selected_snapshot_index, 14);
    Navigator::handle_key_event(&mut s, Key::Up, false, 0);
    assert_eq!(s.selected_snapshot_index, 13);
    Navigator::handle_key_event(&mut s, Key::PageUp, false, 0);
    assert_eq!(s.selected_snapshot_index, 3);
    Navigator::handle_key_event(&mut s, Key::PageUp, false, 0);
    assert_eq!(s.selected_snapshot_index, 0);
    Navigator::handle_key_event(&mut s, Key::PageDown, false, 0);
    Navigator::handle_key_event(&mut s, Key::Char('s'), false, 0);
    assert_eq!(s.selected_snapshot_index, 0);
    assert_eq!(s.data_manager.snapshots[0].used, 86);
}

#[test]
fn reload_after_delete_clamps_selection() {
    let mut s = in_snapshot_view(3, false);
    Navigator::handle_key_event(&mut s, Key::PageDown, false, 0);
    assert_eq!(s.selected_snapshot_index, 2);
    Navigator::snapshots_reloaded(&mut s, "tank/home", Ok(vec![snap("tank/home@s0", 1)]));
    assert_eq!(s.selected_snapshot_index, 0);
    Navigator::snapshots_reloaded(&mut s, "tank/home", Ok(vec![]));
    assert_eq!(s.selected_snapshot_index, 0);
    assert!(s.data_manager.get_cached_snapshots("tank/home").unwrap().is_empty());
}

#[test]
fn other_key_disarms_without_deleting() {
    let mut s = in_snapshot_view(3, false);
    assert!(matches!(Navigator::handle_key_event(&mut s, Key::Char('d'), false, 1000), Action::Idle));
    assert!(s.delete_confirmation_pending);
    assert_eq!(s.delete_confirmation_timestamp, Some(1000));
    assert_eq!(s.status_help_text, "⚠️  DELETE s0: Press 'd' again to CONFIRM");
    assert_eq!(s.status_help_color, Color::Yellow);
    let a = Navigator::handle_key_event(&mut s, Key::Down, false, 1500);
    assert!(matches!(a, Action::Idle));
    assert!(!s.delete_confirmation_pending);
    assert_eq!(s.selected_snapshot_index, 1);
    assert_eq!(s.status_help_color, Color::Reset);
}

#[test]
fn second_d_confirms_one_deletion() {
    let mut s = in_snapshot_view(3, false);
    Navigator::handle_key_event(&mut s, Key::Down, false, 0);
    Navigator::handle_key_event(&mut s, Key::Char('d'), false, 1000);
    match Navigator::handle_key_event(&mut s, Key::Char('d'), false, 2999) {
        Action::DeleteSnapshot(snapshot, dataset) => {
            assert_eq!(snapshot, "tank/home@s1");
            assert_eq!(dataset, "tank/home");
        },
        other => panic!("unexpected {:?}", other),
    }
    assert!(!s.delete_confirmation_pending);
    match Navigator::delete_finished(&mut s, "tank/home", Ok(())) {
        Action::ReloadSnapshots(d) => assert_eq!(d, "tank/home"),
        other => panic!("unexpected {:?}", other),
    }
    Navigator::snapshots_reloaded(&mut s, "tank/home", Ok(vec![snap("tank/home@s0", 100), snap("tank/home@s2", 98)]));
    assert_eq!(s.selected_snapshot_index, 1);
    assert!(matches!(Navigator::handle_key_event(&mut s, Key::Char('d'), false, 5000), Action::Idle));
}

#[test]
fn timeout_disarms_without_deleting() {
    let mut s = in_snapshot_view(2, false);
    Navigator::handle_key_event(&mut s, Key::Char('d'), false, 1000);
    Navigator::tick(&mut s, 3999);
    assert!(s.delete_confirmation_pending);
    assert!(!s.is_delete_confirmation_expired(3999));
    Navigator::tick(&mut s, 4000);
    assert!(!s.delete_confirmation_pending);
    assert_eq!(s.delete_confirmation_timestamp, None);
}

#[test]
fn late_second_d_arms_again() {
    let mut s = in_snapshot_view(2, false);
    Navigator::handle_key_event(&mut s, Key::Char('d'), false, 1000);
    let a = Navigator::handle_key_event(&mut s, Key::Char('d'), false, 4000);
    assert!(matches!(a, Action::Idle));
    assert!(s.delete_confirmation_pending);
    assert_eq!(s.delete_confirmation_timestamp, Some(4000));
}

#[test]
fn readonly_never_arms() {
    let mut s = in_snapshot_view(2, true);
    Navigator::handle_key_event(&mut s, Key::Char('d'), false, 0);
    Navigator::handle_key_event(&mut s, Key::Char('d'), false, 1);
    assert!(!s.delete_confirmation_pending);
}

#[test]
fn delete_does_nothing_outside_snapshots_or_when_empty() {
    let mut s = AppState::new(config(false), None);
    Navigator::handle_key_event(&mut s, Key::Char('d'), false, 0);
    assert!(!s.delete_confirmation_pending);
    let mut s = in_snapshot_view(0, false);
    Navigator::handle_key_event(&mut s, Key::Char('d'), false, 0);
    assert!(!s.delete_confirmation_pending);
}

#[test]
fn missing_snapshot_shows_friendly_error() {
    let mut s = in_snapshot_view(2, false);
    let e = FetchError {
        message: "Command failed: zfs destroy tank/home@s0\nStderr: could not find any snapshots to destroy; check snapshot names.\ncannot destroy 'tank/home@s0': dataset does not exist".to_string(),
    };
    assert!(matches!(Navigator::delete_finished(&mut s, "tank/home", Err(e)), Action::Idle));
    let msg = s.error_message.clone().unwrap();
    assert!(msg.contains("no longer exists"));
    assert_eq!(msg, "Snapshot no longer exists.");
    assert_eq!(s.status_help_text, "ERROR: Snapshot no longer exists. (Press any key to continue)");
    assert_eq!(s.status_help_color, Color::Red);
    let a = Navigator::handle_key_event(&mut s, Key::Down, false, 0);
    assert!(matches!(a, Action::Idle));
    assert!(s.error_message.is_none());
    assert_eq!(s.selected_snapshot_index, 0);
}

#[test]
fn delete_error_classes() {
    assert_eq!(delete_error_message("cannot destroy: permission denied"), "Permission denied. Try running with elevated privileges (sudo).");
    assert_eq!(delete_error_message("cannot destroy snapshot: dataset is busy"), "Snapshot is currently in use and cannot be deleted.");
    assert_eq!(delete_error_message("out of memory"), "Failed to delete snapshot: out of memory");
    assert_eq!(delete_error_message(""), "Failed to delete snapshot: ");
}

#[test]
fn fetch_failure_is_shown() {
    let mut s = AppState::new(config(false), None);
    assert!(Navigator::pools_loaded(&mut s, Ok(vec![pool("tank")])).is_ok());
    Navigator::handle_key_event(&mut s, Key::Enter, false, 0);
    Navigator::datasets_loaded(&mut s, Err(FetchError { message: "boom".to_string() }));
    assert_eq!(s.error_message.as_deref(), Some("boom"));
    assert!(matches!(s.current_view, AppView::PoolList));
    assert_eq!(s.status_help_text, "ERROR: boom (Press any key to continue)");
}

#[test]
fn failed_pool_load_is_handed_back() {
    let mut s = AppState::new(config(false), None);
    let r = Navigator::pools_loaded(&mut s, Err(FetchError { message: "no zpool".to_string() }));
    assert_eq!(r.err().unwrap().message, "no zpool");
    assert_eq!(s.error_message.as_deref(), Some("no zpool"));
    Navigator::handle_key_event(&mut s, Key::Enter, false, 0);
    assert!(s.error_message.is_none());
    assert!(matches!(Navigator::handle_key_event(&mut s, Key::Enter, false, 0), Action::Idle));
}

#[test]
fn readonly_d_changes_nothing() {
    let mut s = in_snapshot_view(3, true);
    Navigator::handle_key_event(&mut s, Key::Down, false, 0);
    let names: Vec<String> = s.data_manager.snapshots.iter().map(|x| x.name.clone()).collect();
    let a = Navigator::handle_key_event(&mut s, Key::Char('d'), false, 10);
    assert!(matches!(a, Action::Idle));
    assert!(!s.delete_confirmation_pending);
    assert_eq!(s.selected_snapshot_index, 1);
    assert_eq!(s.data_manager.snapshots.iter().map(|x| x.name.clone()).collect::<Vec<_>>(), names);
}

#[test]
fn failed_delete_leaves_deletion_disarmed() {
    let mut s = in_snapshot_view(2, false);
    Navigator::handle_key_event(&mut s, Key::Char('d'), false, 0);
    assert!(matches!(Navigator::handle_key_event(&mut s, Key::Char('d'), false, 1), Action::DeleteSnapshot(_, _)));
    Navigator::delete_finished(&mut s, "tank/home", Err(FetchError { message: "dataset is busy".to_string() }));
    assert!(!s.delete_confirmation_pending);
    assert_eq!(s.delete_confirmation_timestamp, None);
    assert_eq!(s.data_manager.snapshots.len(), 2);
    assert_eq!(s.error_message.as_deref(), Some("Snapshot is currently in use and cannot be deleted."));
}

#[test]
fn sort_toggle_keeps_other_view() {
    let mut s = in_snapshot_view(3, false);
    Navigator::handle_key_event(&mut s, Key::Left, false, 0);
    let snaps: Vec<String> = s.data_manager.snapshots.iter().map(|x| x.name.clone()).collect();
    let snapshot_order = s.sort_manager.snapshot_sort_order;
    Navigator::handle_key_event(&mut s, Key::Char('s'), false, 0);
    assert_eq!(s.sort_manager.snapshot_sort_order, snapshot_order);
    assert_eq!(s.data_manager.snapshots.iter().map(|x| x.name.clone()).collect::<Vec<_>>(), snaps);
    assert_eq!(s.data_manager.datasets[0].name, "tank");
}
